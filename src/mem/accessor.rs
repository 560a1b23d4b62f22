//! Capability-typed accessors. A read-only accessor holds a shared borrow of
//! the memory handle and only knows how to read; a read-write accessor holds
//! an exclusive borrow and can also write.
//!
//! The engine is driven by the caller: reads and writes come back as the exact
//! sequence of engine calls to issue, one per element, in address order.
use core::marker::PhantomData;
use vstd::prelude::*;

use crate::mem::codec::{MemType, ReadOp, WriteCall};
use crate::mem::shape::AddressRange;
use crate::mem::DeSmuMEMemory;

verus! {

/// The engine reads that fetch one or more elements: one call of `op` per
/// address of `addrs`, results kept in that order.
#[derive(Debug, PartialEq, Eq)]
pub struct ReadPlan {
    pub op: ReadOp,
    pub addrs: Vec<u32>,
}

/// The write calls that store `source` over `range`, one per element, in
/// address order.
pub open spec fn spec_write_calls<T: MemType>(range: AddressRange, source: Seq<T>) -> Seq<WriteCall> {
    Seq::new(
        source.len(),
        |i: int| source[i].spec_write_call(range.element_addrs(T::spec_width())[i]),
    )
}

/// Read capability over elements of type `T`.
pub trait MemoryReadAccess<T: MemType>: Sized {
    /// The engine read of one element at `addr`.
    fn read(&self, addr: u32) -> (r: ReadPlan)
        ensures
            r.op == T::spec_read_op(),
            r.addrs@ == seq![addr],
    ;

    /// The engine reads of the elements in `[start, end]`; the range must
    /// split into whole elements.
    fn read_range(&self, start: u32, end: u32) -> (r: ReadPlan)
        requires
            (AddressRange { start, end }).aligned_to(T::spec_width()),
        ensures
            r.op == T::spec_read_op(),
            r.addrs@ == (AddressRange { start, end }).element_addrs(T::spec_width()),
    ;
}

/// Write capability over elements of type `T`; extends the read capability.
pub trait MemoryWriteAccess<T: MemType>: MemoryReadAccess<T> {
    /// The engine write that stores `value` at `addr`.
    fn write(&mut self, addr: u32, value: T) -> (c: WriteCall)
        ensures
            c == value.spec_write_call(addr),
            *final(self) == *old(self),
    ;

    /// The engine writes that store `source` over `[start, end]`; the range
    /// must split into whole elements, one per item of `source`.
    fn write_range(&mut self, start: u32, end: u32, source: &[T]) -> (r: Vec<WriteCall>)
        requires
            (AddressRange { start, end }).aligned_to(T::spec_width()),
            source@.len() == (AddressRange { start, end }).count(T::spec_width()),
        ensures
            r@ == spec_write_calls(AddressRange { start, end }, source@),
            *final(self) == *old(self),
    ;
}

/// A view of the emulated memory as elements of type `T`, with the capability
/// that `M` grants: `&DeSmuMEMemory` reads, `&mut DeSmuMEMemory` reads and
/// writes.
pub struct TypedMemoryAccessor<M, T: MemType> {
    pub mem: M,
    pub elem: PhantomData<T>,
}

fn plan_read<T: MemType>(addr: u32) -> (r: ReadPlan)
    ensures
        r.op == T::spec_read_op(),
        r.addrs@ == seq![addr],
{
    let mut addrs: Vec<u32> = Vec::new();
    addrs.push(addr);
    ReadPlan { op: T::read_op(), addrs }
}

fn plan_read_range<T: MemType>(start: u32, end: u32) -> (r: ReadPlan)
    requires
        (AddressRange { start, end }).aligned_to(T::spec_width()),
    ensures
        r.op == T::spec_read_op(),
        r.addrs@ == (AddressRange { start, end }).element_addrs(T::spec_width()),
{
    let range = AddressRange { start, end };
    ReadPlan { op: T::read_op(), addrs: range.element_addresses(T::width()) }
}

impl<'a, T: MemType> MemoryReadAccess<T> for TypedMemoryAccessor<&'a DeSmuMEMemory, T> {
    fn read(&self, addr: u32) -> (r: ReadPlan) {
        plan_read::<T>(addr)
    }

    fn read_range(&self, start: u32, end: u32) -> (r: ReadPlan) {
        plan_read_range::<T>(start, end)
    }
}

impl<'a, T: MemType> MemoryReadAccess<T> for TypedMemoryAccessor<&'a mut DeSmuMEMemory, T> {
    fn read(&self, addr: u32) -> (r: ReadPlan) {
        plan_read::<T>(addr)
    }

    fn read_range(&self, start: u32, end: u32) -> (r: ReadPlan) {
        plan_read_range::<T>(start, end)
    }
}

impl<'a, T: MemType> MemoryWriteAccess<T> for TypedMemoryAccessor<&'a mut DeSmuMEMemory, T> {
    fn write(&mut self, addr: u32, value: T) -> (c: WriteCall) {
        value.write_call(addr)
    }

    fn write_range(&mut self, start: u32, end: u32, source: &[T]) -> (r: Vec<WriteCall>) {
        let range = AddressRange { start, end };
        let addrs = range.element_addresses(T::width());
        let mut out: Vec<WriteCall> = Vec::new();
        let mut i: usize = 0;
        while i < source.len()
            invariant
                addrs@ == range.element_addrs(T::spec_width()),
                source@.len() == addrs@.len(),
                i <= source@.len(),
                out@ =~= Seq::new(
                    i as nat,
                    |j: int| source@[j].spec_write_call(addrs@[j]),
                ),
            decreases source@.len() - i,
        {
            out.push(source[i].write_call(addrs[i]));
            i = i + 1;
        }
        out
    }
}

} // verus!
