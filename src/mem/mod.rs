//! Typed access to the emulated machine's 32-bit address space.
pub mod accessor;
pub mod codec;
pub mod cstring;
pub mod index;
pub mod lemmas;
pub mod register;
pub mod shape;

use core::marker::PhantomData;
use vstd::prelude::*;

pub use crate::mem::accessor::{MemoryReadAccess, MemoryWriteAccess, ReadPlan, TypedMemoryAccessor};
pub use crate::mem::codec::{MemType, ReadOp, WriteCall};
pub use crate::mem::cstring::CStringScan;
pub use crate::mem::index::{IndexMove, IndexSet, MemIndexWrapper};
pub use crate::mem::register::{register_path, Processor, Register};
pub use crate::mem::shape::{AddressRange, MemIndex, END_OF_MEMORY, START_OF_MEMORY};

verus! {

/// The handle through which the emulated memory is accessed. Exactly one
/// exists per live emulator.
#[derive(Debug)]
pub struct DeSmuMEMemory {
    pub(crate) live: (),
}

impl DeSmuMEMemory {
    /// Starts reading the NUL-terminated string at `start`.
    pub fn read_cstring(&self, start: u32) -> (r: CStringScan)
        ensures
            r.wf(),
            r.start == start,
            r.bytes@ == Seq::<u8>::empty(),
            !r.finished,
    {
        CStringScan::new(start)
    }

    /// A read-only view of the memory as `u8` elements.
    pub fn u8(&self) -> (r: MemIndexWrapper<TypedMemoryAccessor<&DeSmuMEMemory, u8>, u8>)
        ensures
            *r.accessor.mem == *self,
    {
        MemIndexWrapper { accessor: TypedMemoryAccessor { mem: self, elem: PhantomData }, elem: PhantomData }
    }

    /// A read-write view of the memory as `u8` elements.
    pub fn u8_mut(&mut self) -> (r: MemIndexWrapper<TypedMemoryAccessor<&mut DeSmuMEMemory, u8>, u8>)
        ensures
            *r.accessor.mem == *old(self),
    {
        MemIndexWrapper { accessor: TypedMemoryAccessor { mem: self, elem: PhantomData }, elem: PhantomData }
    }

    /// A read-only view of the memory as `u16` elements.
    pub fn u16(&self) -> (r: MemIndexWrapper<TypedMemoryAccessor<&DeSmuMEMemory, u16>, u16>)
        ensures
            *r.accessor.mem == *self,
    {
        MemIndexWrapper { accessor: TypedMemoryAccessor { mem: self, elem: PhantomData }, elem: PhantomData }
    }

    /// A read-write view of the memory as `u16` elements.
    pub fn u16_mut(&mut self) -> (r: MemIndexWrapper<TypedMemoryAccessor<&mut DeSmuMEMemory, u16>, u16>)
        ensures
            *r.accessor.mem == *old(self),
    {
        MemIndexWrapper { accessor: TypedMemoryAccessor { mem: self, elem: PhantomData }, elem: PhantomData }
    }

    /// A read-only view of the memory as `u32` elements.
    pub fn u32(&self) -> (r: MemIndexWrapper<TypedMemoryAccessor<&DeSmuMEMemory, u32>, u32>)
        ensures
            *r.accessor.mem == *self,
    {
        MemIndexWrapper { accessor: TypedMemoryAccessor { mem: self, elem: PhantomData }, elem: PhantomData }
    }

    /// A read-write view of the memory as `u32` elements.
    pub fn u32_mut(&mut self) -> (r: MemIndexWrapper<TypedMemoryAccessor<&mut DeSmuMEMemory, u32>, u32>)
        ensures
            *r.accessor.mem == *old(self),
    {
        MemIndexWrapper { accessor: TypedMemoryAccessor { mem: self, elem: PhantomData }, elem: PhantomData }
    }

    /// A read-only view of the memory as `i8` elements.
    pub fn i8(&self) -> (r: MemIndexWrapper<TypedMemoryAccessor<&DeSmuMEMemory, i8>, i8>)
        ensures
            *r.accessor.mem == *self,
    {
        MemIndexWrapper { accessor: TypedMemoryAccessor { mem: self, elem: PhantomData }, elem: PhantomData }
    }

    /// A read-write view of the memory as `i8` elements.
    pub fn i8_mut(&mut self) -> (r: MemIndexWrapper<TypedMemoryAccessor<&mut DeSmuMEMemory, i8>, i8>)
        ensures
            *r.accessor.mem == *old(self),
    {
        MemIndexWrapper { accessor: TypedMemoryAccessor { mem: self, elem: PhantomData }, elem: PhantomData }
    }

    /// A read-only view of the memory as `i16` elements.
    pub fn i16(&self) -> (r: MemIndexWrapper<TypedMemoryAccessor<&DeSmuMEMemory, i16>, i16>)
        ensures
            *r.accessor.mem == *self,
    {
        MemIndexWrapper { accessor: TypedMemoryAccessor { mem: self, elem: PhantomData }, elem: PhantomData }
    }

    /// A read-write view of the memory as `i16` elements.
    pub fn i16_mut(&mut self) -> (r: MemIndexWrapper<TypedMemoryAccessor<&mut DeSmuMEMemory, i16>, i16>)
        ensures
            *r.accessor.mem == *old(self),
    {
        MemIndexWrapper { accessor: TypedMemoryAccessor { mem: self, elem: PhantomData }, elem: PhantomData }
    }

    /// A read-only view of the memory as `i32` elements.
    pub fn i32(&self) -> (r: MemIndexWrapper<TypedMemoryAccessor<&DeSmuMEMemory, i32>, i32>)
        ensures
            *r.accessor.mem == *self,
    {
        MemIndexWrapper { accessor: TypedMemoryAccessor { mem: self, elem: PhantomData }, elem: PhantomData }
    }

    /// A read-write view of the memory as `i32` elements.
    pub fn i32_mut(&mut self) -> (r: MemIndexWrapper<TypedMemoryAccessor<&mut DeSmuMEMemory, i32>, i32>)
        ensures
            *r.accessor.mem == *old(self),
    {
        MemIndexWrapper { accessor: TypedMemoryAccessor { mem: self, elem: PhantomData }, elem: PhantomData }
    }
}

} // verus!
