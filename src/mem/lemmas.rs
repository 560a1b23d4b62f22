//! Laws of the typed memory access layer.
use vstd::prelude::*;

use crate::mem::codec::{MemType, WriteCall};
use crate::mem::index::{index_addrs_for, index_ok_for, index_writes_for};
use crate::mem::shape::{AddressRange, MemIndex};

verus! {

/// Setting `v` at address `a` and then getting `a` round-trips: the set issues
/// one write at `a` with the element's width, the get issues one read at `a`
/// with the element's read primitive, and that primitive yields `v` from the
/// bits the write stored.
pub proof fn lemma_set_then_get<T: MemType>(a: u32, v: T)
    ensures
        index_ok_for(MemIndex::At(a), T::spec_width()),
        index_writes_for(MemIndex::At(a), seq![v]) == seq![v.spec_write_call(a)],
        index_addrs_for(MemIndex::At(a), T::spec_width()) == seq![a],
        v.spec_write_call(a).addr() == a,
        v.spec_write_call(a).width() == T::spec_read_op().width(),
        T::spec_from_bits(v.spec_write_call(a).bits()) == v,
{
    T::lemma_bits_round_trip(v, a);
    let w: Seq<WriteCall> = index_writes_for(MemIndex::At(a), seq![v]);
    assert(w =~= seq![v.spec_write_call(a)]);
}

/// For `a < b`, the shapes `a..b` and `a..=(b-1)` resolve to the same range,
/// are accepted alike, and read the same addresses.
pub proof fn lemma_shape_equivalence(a: u32, b: u32, width: nat)
    requires
        a < b,
    ensures
        MemIndex::Range(a, b).spec_resolve() == MemIndex::RangeInclusive(a, (b - 1) as u32).spec_resolve(),
        index_ok_for(MemIndex::Range(a, b), width) == index_ok_for(
            MemIndex::RangeInclusive(a, (b - 1) as u32),
            width,
        ),
        index_addrs_for(MemIndex::Range(a, b), width) == index_addrs_for(
            MemIndex::RangeInclusive(a, (b - 1) as u32),
            width,
        ),
{
}

/// Reading `a..b` yields `(b - a) / width` elements wherever the shape is
/// accepted.
pub proof fn lemma_range_length<T: MemType>(a: u32, b: u32)
    requires
        index_ok_for(MemIndex::Range(a, b), T::spec_width()),
    ensures
        a < b,
        index_addrs_for(MemIndex::Range(a, b), T::spec_width()).len() == (b - a) / (T::spec_width() as int),
{
}

/// Setting `values` over an accepted shape and then getting that shape
/// round-trips element by element: the i-th write lands at the i-th address
/// read, with the element's width, and the element's read primitive yields
/// the i-th value from the bits it stored.
pub proof fn lemma_set_range_then_get<T: MemType>(index: MemIndex, values: Seq<T>)
    requires
        index_ok_for(index, T::spec_width()),
        values.len() == index_addrs_for(index, T::spec_width()).len(),
    ensures
        index_writes_for(index, values).len() == values.len(),
        forall|i: int|
            0 <= i < values.len() ==> {
                let c = #[trigger] index_writes_for(index, values)[i];
                &&& c.addr() == index_addrs_for(index, T::spec_width())[i]
                &&& c.width() == T::spec_read_op().width()
                &&& T::spec_from_bits(c.bits()) == values[i]
            },
{
    assert forall|i: int| 0 <= i < values.len() implies {
        let c = #[trigger] index_writes_for(index, values)[i];
        &&& c.addr() == index_addrs_for(index, T::spec_width())[i]
        &&& c.width() == T::spec_read_op().width()
        &&& T::spec_from_bits(c.bits()) == values[i]
    } by {
        T::lemma_bits_round_trip(values[i], index_addrs_for(index, T::spec_width())[i]);
    }
}

/// The elements of a range that splits into whole elements tile it: the
/// first starts at its start, each starts `width` bytes after the previous
/// one, and the last ends at its end.
pub proof fn lemma_elements_tile_range(range: AddressRange, width: nat)
    requires
        range.aligned_to(width),
    ensures
        range.element_addrs(width).len() >= 1,
        range.element_addrs(width)[0] == range.start,
        forall|i: int|
            0 < i < range.element_addrs(width).len() ==> #[trigger] range.element_addrs(width)[i]
                == range.element_addrs(width)[i - 1] + width,
        range.element_addrs(width).last() + width - 1 == range.end,
{
    let n = range.count(width);
    assert(n * width == range.byte_len()) by (nonlinear_arith)
        requires
            n == range.byte_len() / (width as int),
            range.byte_len() % (width as int) == 0,
            width > 0,
    ;
    assert(n >= 1) by (nonlinear_arith)
        requires
            n * width == range.byte_len(),
            range.byte_len() >= 1,
            width > 0,
    ;
    assert forall|i: int| 0 < i < n implies #[trigger] range.element_addrs(width)[i]
        == range.element_addrs(width)[i - 1] + width by {
        assert(i * width == (i - 1) * width + width) by (nonlinear_arith);
        assert(i * width <= (n - 1) * width) by (nonlinear_arith)
            requires
                i <= n - 1,
                width > 0,
        ;
        assert((n - 1) * width == n * width - width) by (nonlinear_arith);
    }
    assert((n - 1) * width == n * width - width) by (nonlinear_arith);
}

} // verus!
