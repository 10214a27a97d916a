use vstd::prelude::*;

pub mod engine;
pub mod laws;
pub mod order;
pub mod store;

verus! {

/// The failure signals an operation can surface to its caller.
#[derive(Clone, Copy, Debug, PartialEq, Eq, Structural)]
pub enum StoreError {
    /// The store location could not be opened or is locked.
    StoreOpen,
    /// A stored byte sequence is not valid text.
    TextDecoding,
    /// The durability commit after the operation failed.
    Flush,
    /// The engine reported an input/output failure mid-operation.
    Engine,
}

} // verus!
