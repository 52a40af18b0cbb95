//! Materializes a runnable agent project from a template: derives agent
//! options from declared tool servers, aggregates server capabilities under
//! partial failure, plans a parallel tree walk, splices per-server connection
//! code at a framework-specific anchor, and enriches the project manifest.

pub mod agent_config;
pub mod anchor;
pub mod diag;
pub mod frameworks;
pub mod languages;
pub mod laws;
pub mod manifest;
pub mod mcp_client;
pub mod mcp_server;
pub mod pipeline;
pub mod text;
pub mod walk;
pub mod wizard;

use vstd::prelude::*;

verus! {

/// A runtime the materialized project must have available because a declared
/// server's launch command depends on it.
#[derive(Clone, Copy, Debug, PartialEq, Eq, Hash, Structural)]
#[non_exhaustive]
pub enum Runtime {
    Npx,
}

} // verus!
