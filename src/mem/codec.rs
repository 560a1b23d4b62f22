//! The element codec: byte width of each element type, the engine read
//! primitive that yields it, and the write call that stores it.
use vstd::prelude::*;

verus! {

/// The engine's scalar read primitives. The signed variants sign-extend.
#[derive(Clone, Copy, Debug, PartialEq, Eq, Structural)]
pub enum ReadOp {
    Byte,
    ByteSigned,
    Short,
    ShortSigned,
    Long,
    LongSigned,
}

/// One call of an engine write primitive: an address and the unsigned value
/// of the primitive's width.
#[derive(Clone, Copy, Debug, PartialEq, Eq, Structural)]
#[allow(inconsistent_fields)]
pub enum WriteCall {
    Byte { addr: u32, value: u8 },
    Short { addr: u32, value: u16 },
    Long { addr: u32, value: u32 },
}

impl WriteCall {
    /// The address the call writes to.
    pub open spec fn addr(self) -> u32 {
        match self {
            WriteCall::Byte { addr, .. } => addr,
            WriteCall::Short { addr, .. } => addr,
            WriteCall::Long { addr, .. } => addr,
        }
    }

    /// Number of bytes the call writes.
    pub open spec fn width(self) -> nat {
        match self {
            WriteCall::Byte { .. } => 1,
            WriteCall::Short { .. } => 2,
            WriteCall::Long { .. } => 4,
        }
    }

    /// The bits the call stores, zero-extended.
    pub open spec fn bits(self) -> u32 {
        match self {
            WriteCall::Byte { value, .. } => value as u32,
            WriteCall::Short { value, .. } => value as u32,
            WriteCall::Long { value, .. } => value,
        }
    }
}

impl ReadOp {
    /// Number of bytes the primitive reads.
    pub open spec fn width(self) -> nat {
        match self {
            ReadOp::Byte | ReadOp::ByteSigned => 1,
            ReadOp::Short | ReadOp::ShortSigned => 2,
            ReadOp::Long | ReadOp::LongSigned => 4,
        }
    }
}

/// Numeric element types that can be read from and written to the emulated
/// memory.
pub trait MemType: Sized + Copy {
    /// Byte width of the element.
    spec fn spec_width() -> nat;

    /// The engine primitive that reads one element.
    spec fn spec_read_op() -> ReadOp;

    /// The engine call that stores `self` at `addr`; negative values are
    /// handed over as their two's complement bit pattern.
    spec fn spec_write_call(self, addr: u32) -> WriteCall;

    /// The value the read primitive yields from a cell holding `bits`.
    spec fn spec_from_bits(bits: u32) -> Self;

    fn width() -> (w: u32)
        ensures
            w as nat == Self::spec_width(),
            w == 1 || w == 2 || w == 4,
            Self::spec_read_op().width() == w as nat,
    ;

    fn read_op() -> (op: ReadOp)
        ensures
            op == Self::spec_read_op(),
    ;

    fn write_call(self, addr: u32) -> (c: WriteCall)
        ensures
            c == self.spec_write_call(addr),
    ;

    /// A write call stores at its address with the element's width, and the
    /// element's read primitive yields the value written from the bits stored.
    proof fn lemma_bits_round_trip(v: Self, addr: u32)
        ensures
            v.spec_write_call(addr).addr() == addr,
            v.spec_write_call(addr).width() == Self::spec_width(),
            Self::spec_read_op().width() == Self::spec_width(),
            Self::spec_from_bits(v.spec_write_call(addr).bits()) == v,
    ;
}

impl MemType for u8 {
    open spec fn spec_width() -> nat {
        1
    }

    open spec fn spec_read_op() -> ReadOp {
        ReadOp::Byte
    }

    open spec fn spec_write_call(self, addr: u32) -> WriteCall {
        WriteCall::Byte { addr, value: self }
    }

    open spec fn spec_from_bits(bits: u32) -> u8 {
        bits as u8
    }

    fn width() -> (w: u32) {
        1
    }

    fn read_op() -> (op: ReadOp) {
        ReadOp::Byte
    }

    fn write_call(self, addr: u32) -> (c: WriteCall) {
        WriteCall::Byte { addr, value: self }
    }

    proof fn lemma_bits_round_trip(v: u8, addr: u32) {
    }
}

impl MemType for i8 {
    open spec fn spec_width() -> nat {
        1
    }

    open spec fn spec_read_op() -> ReadOp {
        ReadOp::ByteSigned
    }

    open spec fn spec_write_call(self, addr: u32) -> WriteCall {
        WriteCall::Byte { addr, value: self as u8 }
    }

    open spec fn spec_from_bits(bits: u32) -> i8 {
        bits as u8 as i8
    }

    fn width() -> (w: u32) {
        1
    }

    fn read_op() -> (op: ReadOp) {
        ReadOp::ByteSigned
    }

    fn write_call(self, addr: u32) -> (c: WriteCall) {
        WriteCall::Byte { addr, value: self as u8 }
    }

    proof fn lemma_bits_round_trip(v: i8, addr: u32) {
        assert(v as u8 as u32 as u8 as i8 == v) by (bit_vector);
    }
}

impl MemType for u16 {
    open spec fn spec_width() -> nat {
        2
    }

    open spec fn spec_read_op() -> ReadOp {
        ReadOp::Short
    }

    open spec fn spec_write_call(self, addr: u32) -> WriteCall {
        WriteCall::Short { addr, value: self }
    }

    open spec fn spec_from_bits(bits: u32) -> u16 {
        bits as u16
    }

    fn width() -> (w: u32) {
        2
    }

    fn read_op() -> (op: ReadOp) {
        ReadOp::Short
    }

    fn write_call(self, addr: u32) -> (c: WriteCall) {
        WriteCall::Short { addr, value: self }
    }

    proof fn lemma_bits_round_trip(v: u16, addr: u32) {
    }
}

impl MemType for i16 {
    open spec fn spec_width() -> nat {
        2
    }

    open spec fn spec_read_op() -> ReadOp {
        ReadOp::ShortSigned
    }

    open spec fn spec_write_call(self, addr: u32) -> WriteCall {
        WriteCall::Short { addr, value: self as u16 }
    }

    open spec fn spec_from_bits(bits: u32) -> i16 {
        bits as u16 as i16
    }

    fn width() -> (w: u32) {
        2
    }

    fn read_op() -> (op: ReadOp) {
        ReadOp::ShortSigned
    }

    fn write_call(self, addr: u32) -> (c: WriteCall) {
        WriteCall::Short { addr, value: self as u16 }
    }

    proof fn lemma_bits_round_trip(v: i16, addr: u32) {
        assert(v as u16 as u32 as u16 as i16 == v) by (bit_vector);
    }
}

impl MemType for u32 {
    open spec fn spec_width() -> nat {
        4
    }

    open spec fn spec_read_op() -> ReadOp {
        ReadOp::Long
    }

    open spec fn spec_write_call(self, addr: u32) -> WriteCall {
        WriteCall::Long { addr, value: self }
    }

    open spec fn spec_from_bits(bits: u32) -> u32 {
        bits
    }

    fn width() -> (w: u32) {
        4
    }

    fn read_op() -> (op: ReadOp) {
        ReadOp::Long
    }

    fn write_call(self, addr: u32) -> (c: WriteCall) {
        WriteCall::Long { addr, value: self }
    }

    proof fn lemma_bits_round_trip(v: u32, addr: u32) {
    }
}

impl MemType for i32 {
    open spec fn spec_width() -> nat {
        4
    }

    open spec fn spec_read_op() -> ReadOp {
        ReadOp::LongSigned
    }

    open spec fn spec_write_call(self, addr: u32) -> WriteCall {
        WriteCall::Long { addr, value: self as u32 }
    }

    open spec fn spec_from_bits(bits: u32) -> i32 {
        bits as i32
    }

    fn width() -> (w: u32) {
        4
    }

    fn read_op() -> (op: ReadOp) {
        ReadOp::LongSigned
    }

    fn write_call(self, addr: u32) -> (c: WriteCall) {
        WriteCall::Long { addr, value: self as u32 }
    }

    proof fn lemma_bits_round_trip(v: i32, addr: u32) {
        assert(v as u32 as i32 == v) by (bit_vector);
    }
}

} // verus!
