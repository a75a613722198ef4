//! Traits for handing data to agents.
use std::sync::Arc;
use vstd::prelude::*;

verus! {

/// A data consumer that stores one item at a time.
pub trait StoresSingle<Data> {
    fn store(&self, data: Data);
}

/// A data consumer that stores a slice of items.
pub trait StoresVec<Data> {
    fn store_slice(&self, data: &[Data]);
}

/// Something that takes messages through a shared reference to itself.
pub trait MessageTarget<T> {
    fn msg(self: Arc<Self>, data: T);
}

} // verus!
