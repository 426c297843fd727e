//! Propagation of secrets into the namespaces that their annotations select.
//!
//! A secret takes part when its annotations carry the `enabled` key and do
//! not carry `cloned_from_namespace`; the same test decides whether a
//! namespace may receive copies.  The annotations `namespace` and
//! `namespace_deny` of the secret hold the glob patterns that select and
//! exclude namespaces by name.  Labels take no part in the decision.
//!
//! A copy keeps the name, the payload and the type of its source.  Keys
//! under the reserved prefix are dropped from its labels and annotations,
//! and its annotations name the namespace it came from.

pub mod constants;
pub mod error;
pub mod globlist;
pub mod laws;
pub mod operator;
