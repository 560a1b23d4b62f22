//! Indexing by shape: one operation that reads and one that writes, for any
//! of the shapes of [`MemIndex`].
use core::marker::PhantomData;
use vstd::prelude::*;

use crate::mem::accessor::{MemoryReadAccess, MemoryWriteAccess, ReadPlan};
use crate::mem::codec::{MemType, ReadOp, WriteCall};
use crate::mem::shape::MemIndex;

verus! {

/// Whether `index` can be read as elements of `width` bytes: it names at
/// least one address, and a range splits into whole elements.
pub open spec fn index_ok_for(index: MemIndex, width: nat) -> bool {
    match index.spec_resolve() {
        Some(range) => index.is_scalar() || range.aligned_to(width),
        None => false,
    }
}

/// The start address of each element that `index` names, in address order.
pub open spec fn index_addrs_for(index: MemIndex, width: nat) -> Seq<u32> {
    match index {
        MemIndex::At(a) => seq![a],
        _ => index.spec_resolve().unwrap().element_addrs(width),
    }
}

/// The write calls that store `values` over the elements that `index`
/// names, the i-th value at the i-th element.
pub open spec fn index_writes_for<T: MemType>(index: MemIndex, values: Seq<T>) -> Seq<WriteCall> {
    Seq::new(
        values.len(),
        |i: int| values[i].spec_write_call(index_addrs_for(index, T::spec_width())[i]),
    )
}

/// Reading by index, returning the engine reads to issue.
pub trait IndexMove<Idx>: Sized {
    /// Whether `index` may be read.
    spec fn index_ok(&self, index: Idx) -> bool;

    /// The engine primitive used for each element.
    spec fn spec_op(&self) -> ReadOp;

    /// The addresses read, in order.
    spec fn index_addrs(&self, index: Idx) -> Seq<u32>;

    fn index_move(&self, index: Idx) -> (r: ReadPlan)
        requires
            self.index_ok(index),
        ensures
            r.op == self.spec_op(),
            r.addrs@ == self.index_addrs(index),
    ;
}

/// Writing by index, returning the engine writes to issue. Only write-capable
/// views have it.
pub trait IndexSet<Idx, T>: IndexMove<Idx> {
    /// Whether `values` may be stored at `index`.
    spec fn set_ok(&self, index: Idx, values: Seq<T>) -> bool;

    /// The engine writes, in order.
    spec fn index_writes(&self, index: Idx, values: Seq<T>) -> Seq<WriteCall>;

    fn index_set(&mut self, index: Idx, values: &[T]) -> (r: Vec<WriteCall>)
        requires
            old(self).set_ok(index, values@),
        ensures
            r@ == old(self).index_writes(index, values@),
            *final(self) == *old(self),
    ;
}

/// An accessor that can be indexed by [`MemIndex`].
pub struct MemIndexWrapper<A, T> {
    pub accessor: A,
    pub elem: PhantomData<T>,
}

impl<A, T: MemType> MemIndexWrapper<A, T> {
    /// The number of elements `index` names, where it may be read (and where
    /// a write must bring exactly that many values); none where it may not.
    pub fn element_count(&self, index: MemIndex) -> (r: Option<u64>)
        ensures
            index_ok_for(index, T::spec_width()) ==> r == Some(
                index_addrs_for(index, T::spec_width()).len() as u64,
            ),
            !index_ok_for(index, T::spec_width()) ==> r is None,
    {
        match index.resolve() {
            None => None,
            Some(range) => match index {
                MemIndex::At(_) => Some(1),
                _ => {
                    let w = T::width();
                    if range.is_aligned_to(w) {
                        Some(((range.end - range.start) as u64 + 1) / (w as u64))
                    } else {
                        None
                    }
                },
            },
        }
    }

    /// The wrapped accessor.
    pub fn inner(&self) -> (r: &A)
        ensures
            *r == self.accessor,
    {
        &self.accessor
    }
}

impl<A: MemoryReadAccess<T>, T: MemType> IndexMove<MemIndex> for MemIndexWrapper<A, T> {
    open spec fn index_ok(&self, index: MemIndex) -> bool {
        index_ok_for(index, T::spec_width())
    }

    open spec fn spec_op(&self) -> ReadOp {
        T::spec_read_op()
    }

    open spec fn index_addrs(&self, index: MemIndex) -> Seq<u32> {
        index_addrs_for(index, T::spec_width())
    }

    fn index_move(&self, index: MemIndex) -> (r: ReadPlan) {
        let range = index.resolve().unwrap();
        match index {
            MemIndex::At(a) => self.accessor.read(a),
            _ => self.accessor.read_range(range.start, range.end),
        }
    }
}

impl<A: MemoryWriteAccess<T>, T: MemType> IndexSet<MemIndex, T> for MemIndexWrapper<A, T> {
    open spec fn set_ok(&self, index: MemIndex, values: Seq<T>) -> bool {
        &&& index_ok_for(index, T::spec_width())
        &&& values.len() == index_addrs_for(index, T::spec_width()).len()
    }

    open spec fn index_writes(&self, index: MemIndex, values: Seq<T>) -> Seq<WriteCall> {
        index_writes_for(index, values)
    }

    fn index_set(&mut self, index: MemIndex, values: &[T]) -> (r: Vec<WriteCall>) {
        let range = index.resolve().unwrap();
        match index {
            MemIndex::At(a) => {
                let mut out: Vec<WriteCall> = Vec::new();
                out.push(self.accessor.write(a, values[0]));
                assert(out@ =~= index_writes_for(index, values@));
                out
            },
            _ => {
                let out = self.accessor.write_range(range.start, range.end, values);
                assert(out@ =~= index_writes_for(index, values@));
                out
            },
        }
    }
}

} // verus!
