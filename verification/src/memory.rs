//! Requests to the allocator.
use vstd::prelude::*;

verus! {

/// The flags that say how memory may be obtained.
#[derive(Copy, Clone, PartialEq, Eq, Structural, Debug)]
pub enum Flags {
    /// The allocation may sleep (`GFP_KERNEL`).
    Kernel,
    /// Any other mask of the core.
    Mask(u32),
}

/// What memory is needed for.
#[derive(Copy, Clone, PartialEq, Eq, Structural, Debug)]
pub enum Item {
    /// A pointer to a virtqueue.
    VirtqueuePointer,
    /// A pointer to a scatter-gather list.
    ScatterlistPointer,
    /// A scatter-gather table, together with the buffer it is for.
    SgTable,
    /// A byte that is zero.
    ZeroByte,
    /// A token: a value without contents, of which only the address matters.
    Token,
    /// A random number generator.
    Generator,
}

/// A request for contiguous memory for `count` items. The answer is an address, or that there is
/// no memory.
#[derive(Copy, Clone, PartialEq, Eq, Structural, Debug)]
pub struct AllocRequest {
    pub item: Item,
    pub count: usize,
    pub gfp: Flags,
}

} // verus!
