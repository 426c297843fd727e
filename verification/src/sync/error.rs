//! The failures of a synchronization.

use crate::store::StoreError;
use crate::sync::globlist;
use vstd::prelude::*;

verus! {

/// Why a synchronization stopped.
#[derive(Debug)]
pub enum Error {
    /// The object store refused a call.
    Kube(StoreError),
    /// A glob pattern of a secret cannot be compiled.
    Glob(globlist::Error),
}

} // verus!
