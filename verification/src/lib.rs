//! A sandboxed filesystem access bridge.
//!
//! Given caller-supplied relative paths (as sequences of segments), the
//! library decides how to resolve, list, search, mutate and transfer files
//! and directories strictly within a single root boundary, and serialises
//! directory state into tree-shaped, lazily expanded nodes for a
//! presentation layer. All operating-system work (canonicalisation,
//! directory reads, byte copies) is performed by the embedding program;
//! this crate holds the verified decision logic.

use vstd::prelude::*;

pub mod content;
pub mod decimal;
pub mod errors;
pub mod model;
pub mod mutate;
pub mod names;
pub mod nodes;
pub mod paths;
pub mod search;
pub mod text;
pub mod transfer;

verus! {

/// The fixed display label of the sandbox root node.
pub open spec fn root_label() -> Seq<char> {
    "My Computer"@
}

} // verus!
