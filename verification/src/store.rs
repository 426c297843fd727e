//! Failures of the object store, as the controllers see them.

use vstd::prelude::*;

verus! {

/// The status code with which the store refuses to create an object that
/// exists already.
pub const CONFLICT: u16 = 409;

/// A failed call to the object store.
#[derive(Debug)]
pub struct StoreError {
    /// The status code, where the store answered with one.
    pub code: Option<u16>,
    /// What the store or the transport said.
    pub message: String,
}

/// The view of a [`StoreError`].
pub struct StoreErrorView {
    pub code: Option<u16>,
    pub message: Seq<char>,
}

impl View for StoreError {
    type V = StoreErrorView;

    open spec fn view(&self) -> StoreErrorView {
        StoreErrorView { code: self.code, message: self.message@ }
    }
}

impl StoreError {
    /// Whether the store refused because the object exists already.
    pub fn is_conflict(&self) -> (r: bool)
        ensures
            r == (self.code == Some(CONFLICT)),
    {
        match self.code {
            Some(code) => code == CONFLICT,
            None => false,
        }
    }
}

} // verus!
