//! Index shapes and their resolution into canonical inclusive address ranges.
use vstd::prelude::*;

verus! {

/// First address of the emulated 32-bit address space.
pub const START_OF_MEMORY: u32 = 0;

/// Last address of the emulated 32-bit address space: a sentinel for "the
/// rest of the space", not a bound on mapped hardware.
pub const END_OF_MEMORY: u32 = 0xFFFF_FFFF;

/// The ways of naming one address or a contiguous run of addresses.
#[derive(Clone, Copy, Debug, PartialEq, Eq, Structural)]
pub enum MemIndex {
    /// A single address `a`.
    At(u32),
    /// `a..b`, end exclusive.
    Range(u32, u32),
    /// `a..`, up to the end of memory.
    RangeFrom(u32),
    /// `..b`, end exclusive.
    RangeTo(u32),
    /// `..=b`, end inclusive.
    RangeToInclusive(u32),
    /// `a..=b`, end inclusive.
    RangeInclusive(u32, u32),
    /// `..`, the whole address space.
    Full,
}

/// A resolved, non-empty, inclusive run of addresses `[start, end]`.
#[derive(Clone, Copy, Debug, PartialEq, Eq, Structural)]
pub struct AddressRange {
    pub start: u32,
    pub end: u32,
}

impl MemIndex {
    /// The inclusive bounds the shape names, as integers; an exclusive end of
    /// zero gives an end of -1.
    pub open spec fn bounds(self) -> (int, int) {
        match self {
            MemIndex::At(a) => (a as int, a as int),
            MemIndex::Range(a, b) => (a as int, b - 1),
            MemIndex::RangeFrom(a) => (a as int, END_OF_MEMORY as int),
            MemIndex::RangeTo(b) => (START_OF_MEMORY as int, b - 1),
            MemIndex::RangeToInclusive(b) => (START_OF_MEMORY as int, b as int),
            MemIndex::RangeInclusive(a, b) => (a as int, b as int),
            MemIndex::Full => (START_OF_MEMORY as int, END_OF_MEMORY as int),
        }
    }

    /// The canonical range of the shape; none where the shape names no
    /// address (an exclusive end of zero, or an end before the start).
    pub open spec fn spec_resolve(self) -> Option<AddressRange> {
        let (s, e) = self.bounds();
        if s <= e {
            Some(AddressRange { start: s as u32, end: e as u32 })
        } else {
            None
        }
    }

    /// Whether the shape names a single address.
    pub open spec fn is_scalar(self) -> bool {
        self is At
    }

    /// Resolves the shape into its canonical inclusive range.
    pub fn resolve(self) -> (r: Option<AddressRange>)
        ensures
            r == self.spec_resolve(),
    {
        match self {
            MemIndex::At(a) => Some(AddressRange { start: a, end: a }),
            MemIndex::Range(a, b) => {
                if b == 0 || b - 1 < a {
                    None
                } else {
                    Some(AddressRange { start: a, end: b - 1 })
                }
            },
            MemIndex::RangeFrom(a) => Some(AddressRange { start: a, end: END_OF_MEMORY }),
            MemIndex::RangeTo(b) => {
                if b == 0 {
                    None
                } else {
                    Some(AddressRange { start: START_OF_MEMORY, end: b - 1 })
                }
            },
            MemIndex::RangeToInclusive(b) => Some(AddressRange { start: START_OF_MEMORY, end: b }),
            MemIndex::RangeInclusive(a, b) => {
                if b < a {
                    None
                } else {
                    Some(AddressRange { start: a, end: b })
                }
            },
            MemIndex::Full => Some(AddressRange { start: START_OF_MEMORY, end: END_OF_MEMORY }),
        }
    }
}

impl AddressRange {
    /// Number of bytes in the range.
    pub open spec fn byte_len(self) -> int {
        self.end - self.start + 1
    }

    /// Whether the range is non-empty and splits into whole elements of
    /// `width` bytes.
    pub open spec fn aligned_to(self, width: nat) -> bool {
        &&& self.start <= self.end
        &&& width > 0
        &&& self.byte_len() % (width as int) == 0
    }

    /// Number of elements of `width` bytes in the range.
    pub open spec fn count(self, width: nat) -> int {
        self.byte_len() / (width as int)
    }

    /// The start address of each element, in address order.
    pub open spec fn element_addrs(self, width: nat) -> Seq<u32> {
        Seq::new(self.count(width) as nat, |i: int| (self.start + i * width) as u32)
    }

    /// Checks that the range splits into whole elements of `width` bytes.
    pub fn is_aligned_to(&self, width: u32) -> (r: bool)
        requires
            width > 0,
            self.start <= self.end,
        ensures
            r == self.aligned_to(width as nat),
    {
        ((self.end - self.start) as u64 + 1) % (width as u64) == 0
    }

    /// The start address of each element of `width` bytes, in address order.
    pub fn element_addresses(&self, width: u32) -> (r: Vec<u32>)
        requires
            self.aligned_to(width as nat),
        ensures
            r@ == self.element_addrs(width as nat),
    {
        let n: u64 = ((self.end - self.start) as u64 + 1) / (width as u64);
        let mut out: Vec<u32> = Vec::new();
        let mut i: u64 = 0;
        let mut addr: u64 = self.start as u64;
        proof {
            assert(n * width == self.byte_len()) by (nonlinear_arith)
                requires
                    n == self.byte_len() / (width as int),
                    self.byte_len() % (width as int) == 0,
                    width > 0,
            ;
        }
        while i < n
            invariant
                width > 0,
                i <= n,
                n * width == self.byte_len(),
                addr == self.start + i * width,
                out@ =~= Seq::new(i as nat, |j: int| (self.start + j * width) as u32),
                self.start <= self.end,
            decreases n - i,
        {
            proof {
                assert((i + 1) * width <= n * width) by (nonlinear_arith)
                    requires
                        i + 1 <= n,
                        width > 0,
                ;
                assert((i + 1) * width == i * width + width) by (nonlinear_arith);
            }
            out.push(addr as u32);
            i = i + 1;
            addr = addr + width as u64;
        }
        out
    }
}

} // verus!
