//! Management of git remotes derived from GitHub repository URIs.
//!
//! The crate derives a canonical remote name from a GitHub URI, decides
//! which git commands a create or delete request must issue against the
//! current set of configured remotes, and parses the textual output of the
//! underlying tool.  All decisions are pure functions with proved
//! contracts; running the git commands themselves is left to the caller.

pub mod error;
pub mod plan;
pub mod remotes;
pub mod text;
pub mod uri;
