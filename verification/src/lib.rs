//! Decision and rendering logic of two Kubernetes secret controllers.
//!
//! * [`sync`] selects, for every participating secret, the namespaces that
//!   receive a copy of it, and builds the copies.
//! * [`template`] renders a secret from a declarative template and guards the
//!   rendered secret with a finalizer, so that deleting it regenerates it.
//!
//! Nothing here talks to a cluster.  Callers hand over snapshots of objects
//! and carry out the writes that the functions of this crate ask for.

pub mod objects;
pub mod store;
pub mod string_map;
pub mod sync;
pub mod template;
pub mod text;
pub mod utils;
