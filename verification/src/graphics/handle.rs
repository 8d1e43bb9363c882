use vstd::prelude::*;

verus! {

/// A handle to a render pipeline that the backend has built.
///
/// A handle is a plain number that the backend gave out. It can be copied
/// freely and shared between command lists: the object it names belongs to
/// the backend, which keeps it for as long as a handle to it is in use.
#[derive(Debug, Clone, Copy, PartialEq, Eq, Hash, Structural)]
pub struct Pipeline {
    pub id: u64,
}

/// A handle to a buffer in GPU memory.
#[derive(Debug, Clone, Copy, PartialEq, Eq, Hash, Structural)]
pub struct Buffer {
    pub id: u64,
}

/// A handle to a group of resources that are bound together.
#[derive(Debug, Clone, Copy, PartialEq, Eq, Hash, Structural)]
pub struct BindGroup {
    pub id: u64,
}

/// A part of a buffer: `size` bytes from the byte `offset` on.
#[derive(Debug, Clone, Copy, PartialEq, Eq, Hash, Structural)]
pub struct BufferBinding {
    pub buffer: Buffer,
    pub offset: u64,
    pub size: u64,
}

} // verus!
