//! Diagnostics for recoverable anomalies, and the fatal template errors.

use vstd::prelude::*;

verus! {

/// A recoverable anomaly met during materialization. Each carries enough
/// context (server name, file path) to act on; none aborts the pipeline.
#[derive(Debug, Clone)]
pub enum Diagnostic {
    /// A rendering strategy cannot express this server's transport.
    UnsupportedTransport { server: String },
    /// A rendering strategy cannot pass environment variables to this server.
    EnvNotSupported { server: String },
    /// A rendering strategy cannot pass headers to this server.
    HeadersNotSupported { server: String },
    /// A second file carries the manifest's well-known name; the first wins.
    DuplicateManifest { path: String },
    /// No manifest file was seen during the walk.
    NoManifestFound,
    /// The manifest could not be parsed; enrichment is skipped.
    ManifestParseFailed,
    /// The manifest lacks its agent table; the description is not written.
    MissingAgentTable,
    /// The manifest's agent table lacks a name entry; the name is not set.
    MissingAgentName,
    /// The manifest lacks its options table; no options are appended.
    MissingOptionsTable,
}

/// Model of a diagnostic.
pub enum DiagView {
    UnsupportedTransport { server: Seq<char> },
    EnvNotSupported { server: Seq<char> },
    HeadersNotSupported { server: Seq<char> },
    DuplicateManifest { path: Seq<char> },
    NoManifestFound,
    ManifestParseFailed,
    MissingAgentTable,
    MissingAgentName,
    MissingOptionsTable,
}

impl View for Diagnostic {
    type V = DiagView;

    open spec fn view(&self) -> DiagView {
        match self {
            Diagnostic::UnsupportedTransport { server } => DiagView::UnsupportedTransport {
                server: server@,
            },
            Diagnostic::EnvNotSupported { server } => DiagView::EnvNotSupported { server: server@ },
            Diagnostic::HeadersNotSupported { server } => DiagView::HeadersNotSupported {
                server: server@,
            },
            Diagnostic::DuplicateManifest { path } => DiagView::DuplicateManifest { path: path@ },
            Diagnostic::NoManifestFound => DiagView::NoManifestFound,
            Diagnostic::ManifestParseFailed => DiagView::ManifestParseFailed,
            Diagnostic::MissingAgentTable => DiagView::MissingAgentTable,
            Diagnostic::MissingAgentName => DiagView::MissingAgentName,
            Diagnostic::MissingOptionsTable => DiagView::MissingOptionsTable,
        }
    }
}

impl DeepView for Diagnostic {
    type V = DiagView;

    open spec fn deep_view(&self) -> DiagView {
        self.view()
    }
}

/// The user-visible wording of a diagnostic.
pub open spec fn spec_message(d: DiagView) -> Seq<char> {
    match d {
        DiagView::UnsupportedTransport { server } => "skipping server '"@ + server
            + "': its transport is not supported by this framework"@,
        DiagView::EnvNotSupported { server } => "server '"@ + server
            + "': this framework does not support passing environment variables to stdio MCP servers"@,
        DiagView::HeadersNotSupported { server } => "server '"@ + server
            + "': this framework does not support passing headers to SSE MCP servers"@,
        DiagView::DuplicateManifest { path } => "Warning: found multiple coral-agent.toml's? keeping the first, ignoring '"@
            + path + "'"@,
        DiagView::NoManifestFound => "No coral-agent.toml found in template source."@,
        DiagView::ManifestParseFailed => "coral-agent.toml could not be parsed!"@,
        DiagView::MissingAgentTable => "No agent table found in coral-agent.toml!"@,
        DiagView::MissingAgentName => "No agent.name key found in coral-agent.toml!"@,
        DiagView::MissingOptionsTable => "No options table found in coral-agent.toml!"@,
    }
}

impl Diagnostic {
    /// Renders the diagnostic for the user.
    pub fn message(&self) -> (r: String)
        ensures
            r@ == spec_message(self@),
    {
        match self {
            Diagnostic::UnsupportedTransport { server } => {
                let mut s = String::from_str("skipping server '");
                s.append(server.as_str());
                s.append("': its transport is not supported by this framework");
                s
            },
            Diagnostic::EnvNotSupported { server } => {
                let mut s = String::from_str("server '");
                s.append(server.as_str());
                s.append(
                    "': this framework does not support passing environment variables to stdio MCP servers",
                );
                s
            },
            Diagnostic::HeadersNotSupported { server } => {
                let mut s = String::from_str("server '");
                s.append(server.as_str());
                s.append(
                    "': this framework does not support passing headers to SSE MCP servers",
                );
                s
            },
            Diagnostic::DuplicateManifest { path } => {
                let mut s = String::from_str(
                    "Warning: found multiple coral-agent.toml's? keeping the first, ignoring '",
                );
                s.append(path.as_str());
                s.append("'");
                s
            },
            Diagnostic::NoManifestFound => String::from_str(
                "No coral-agent.toml found in template source.",
            ),
            Diagnostic::ManifestParseFailed => String::from_str(
                "coral-agent.toml could not be parsed!",
            ),
            Diagnostic::MissingAgentTable => String::from_str(
                "No agent table found in coral-agent.toml!",
            ),
            Diagnostic::MissingAgentName => String::from_str(
                "No agent.name key found in coral-agent.toml!",
            ),
            Diagnostic::MissingOptionsTable => String::from_str(
                "No options table found in coral-agent.toml!",
            ),
        }
    }
}

impl Diagnostic {
    /// Copies a diagnostic.
    pub fn duplicate(&self) -> (r: Diagnostic)
        ensures
            r@ == self@,
    {
        match self {
            Diagnostic::UnsupportedTransport { server } => Diagnostic::UnsupportedTransport {
                server: server.clone(),
            },
            Diagnostic::EnvNotSupported { server } => Diagnostic::EnvNotSupported {
                server: server.clone(),
            },
            Diagnostic::HeadersNotSupported { server } => Diagnostic::HeadersNotSupported {
                server: server.clone(),
            },
            Diagnostic::DuplicateManifest { path } => Diagnostic::DuplicateManifest {
                path: path.clone(),
            },
            Diagnostic::NoManifestFound => Diagnostic::NoManifestFound,
            Diagnostic::ManifestParseFailed => Diagnostic::ManifestParseFailed,
            Diagnostic::MissingAgentTable => Diagnostic::MissingAgentTable,
            Diagnostic::MissingAgentName => Diagnostic::MissingAgentName,
            Diagnostic::MissingOptionsTable => Diagnostic::MissingOptionsTable,
        }
    }
}

/// Appends copies of all diagnostics of `add` to `out`, in order.
pub fn extend_diags(out: &mut Vec<Diagnostic>, add: &Vec<Diagnostic>)
    ensures
        final(out).deep_view() == old(out).deep_view() + add.deep_view(),
{
    let ghost pre = out.deep_view();
    let ghost addend = add.deep_view();
    let mut k: usize = 0;
    while k < add.len()
        invariant
            k <= add@.len(),
            addend == add.deep_view(),
            addend.len() == add@.len(),
            out@.len() == pre.len() + k,
            forall|j: int| 0 <= j < pre.len() ==> out@[j]@ == pre[j],
            forall|j: int| 0 <= j < k ==> out@[pre.len() + j]@ == addend[j],
        decreases add@.len() - k,
    {
        out.push(add[k].duplicate());
        k += 1;
    }
    proof {
        assert(out.deep_view() =~~= pre + addend);
    }
}

/// A fatal template-contract violation: materialization aborts.
#[derive(Debug, Clone, PartialEq, Eq, Structural)]
pub enum TemplateError {
    /// The entry point lacks the anchor pattern the strategy splices at.
    AnchorNotFound,
}

impl TemplateError {
    /// Renders the error for the user.
    pub fn message(&self) -> (r: String)
        ensures
            r@ == "entry point does not match the expected template structure"@,
    {
        String::from_str("entry point does not match the expected template structure")
    }
}

/// A recoverable post-processing failure: reported, nothing rolled back.
#[derive(Debug, Clone, PartialEq, Eq, Structural)]
pub enum PostProcessError {
    /// pyproject.toml lacks a project.name entry.
    MissingProjectName,
    /// pyproject.toml lacks a project.description entry.
    MissingProjectDescription,
    /// The container build file lacks the line the runtime fixup inserts at.
    MissingContainerAnchor,
    /// The project build file could not be parsed or lacks its package name.
    MissingPackageName,
    /// A metadata file could not be parsed; its rewrite is skipped.
    MetadataParseFailed,
}

impl PostProcessError {
    /// Renders the error for the user.
    pub fn message(&self) -> (r: String)
        ensures
            r@ == spec_post_process_message(*self),
    {
        match self {
            PostProcessError::MissingProjectName => String::from_str(
                "No project.name key found in pyproject.toml!",
            ),
            PostProcessError::MissingProjectDescription => String::from_str(
                "No project.description key found in pyproject.toml!",
            ),
            PostProcessError::MissingContainerAnchor => String::from_str(
                "Could not find relevant line in Dockerfile",
            ),
            PostProcessError::MissingPackageName => String::from_str(
                "No package.name key found in Cargo manifest!",
            ),
            PostProcessError::MetadataParseFailed => String::from_str(
                "Project metadata file could not be parsed!",
            ),
        }
    }
}

/// The user-visible wording of a post-processing failure.
pub open spec fn spec_post_process_message(e: PostProcessError) -> Seq<char> {
    match e {
        PostProcessError::MissingProjectName => "No project.name key found in pyproject.toml!"@,
        PostProcessError::MissingProjectDescription => "No project.description key found in pyproject.toml!"@,
        PostProcessError::MissingContainerAnchor => "Could not find relevant line in Dockerfile"@,
        PostProcessError::MissingPackageName => "No package.name key found in Cargo manifest!"@,
        PostProcessError::MetadataParseFailed => "Project metadata file could not be parsed!"@,
    }
}

} // verus!
