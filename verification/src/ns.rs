//! A namespace: the connections that share one adapter and one set of rooms.

use std::sync::Arc;
use vstd::prelude::*;
use crate::adapters::Adapter;

verus! {

/// A namespace, as far as a connection reaches into it.
pub struct Namespace<A: Adapter> {
    /// The path that every packet of the namespace carries.
    pub path: String,
    /// Where the rooms of the namespace are kept, and through which broadcasts leave.
    pub adapter: A,
}

/// `Arc::clone`: one more handle on the value that `handle` points to. Nothing is copied,
/// so both point to the same value.
#[verifier::external_body]
pub(crate) fn share<T>(handle: &Arc<T>) -> (other: Arc<T>)
    ensures
        other == *handle,
{
    Arc::clone(handle)
}

} // verus!
