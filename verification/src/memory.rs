//! Memory classes and buffer descriptors.

use vstd::prelude::*;

verus! {

/// Where a buffer lives.
#[derive(Debug, Clone, Copy, PartialEq, Eq, Structural)]
pub enum MemoryClass {
    /// Ordinary host memory.
    Host,
    /// Page-locked host memory.
    Pinned,
    /// Accelerator device memory.
    Device,
}

/// Size and placement of a payload buffer.
#[derive(Debug, Clone, Copy, PartialEq, Eq, Structural)]
pub struct BufferDescriptor {
    /// Number of bytes.
    pub bytes: usize,
    /// Placement.
    pub class: MemoryClass,
}

impl BufferDescriptor {
    /// Construct a descriptor.
    pub fn new(bytes: usize, class: MemoryClass) -> (d: BufferDescriptor)
        ensures
            d.bytes == bytes,
            d.class == class,
    {
        BufferDescriptor { bytes, class }
    }

    /// Number of bytes.
    pub fn bytes(&self) -> (b: &usize)
        ensures
            *b == self.bytes,
    {
        &self.bytes
    }
}

} // verus!
