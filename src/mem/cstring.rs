//! Reading a NUL-terminated string out of the emulated memory, one byte at a
//! time: the caller reads the byte at [`CStringScan::next_addr`] and hands it
//! to [`CStringScan::feed`] until no address is left.
use vstd::prelude::*;

verus! {

/// The state of a string read starting at `start`: the bytes before the
/// terminator seen so far, and whether the terminator was seen.
#[derive(Debug)]
pub struct CStringScan {
    pub start: u32,
    pub bytes: Vec<u8>,
    pub finished: bool,
}

impl CStringScan {
    /// No byte collected is NUL, and the next address is still in the 32-bit
    /// space or one past it.
    pub open spec fn wf(&self) -> bool {
        &&& forall|i: int| 0 <= i < self.bytes@.len() ==> #[trigger] self.bytes@[i] != 0u8
        &&& self.start + self.bytes@.len() <= u32::MAX + 1
    }

    /// A scan that starts at `start`.
    pub fn new(start: u32) -> (r: CStringScan)
        ensures
            r.wf(),
            r.start == start,
            r.bytes@ == Seq::<u8>::empty(),
            !r.finished,
    {
        CStringScan { start, bytes: Vec::new(), finished: false }
    }

    /// The address of the next byte to read: none once the terminator was
    /// seen or the address space is exhausted.
    pub fn next_addr(&self) -> (r: Option<u32>)
        requires
            self.wf(),
        ensures
            !self.finished && self.start + self.bytes@.len() <= u32::MAX ==> r == Some(
                (self.start + self.bytes@.len()) as u32,
            ),
            self.finished || self.start + self.bytes@.len() > u32::MAX ==> r is None,
    {
        if self.finished {
            None
        } else {
            let n = self.bytes.len() as u64;
            if self.start as u64 + n <= u32::MAX as u64 {
                Some((self.start as u64 + n) as u32)
            } else {
                None
            }
        }
    }

    /// Takes the byte read at [`CStringScan::next_addr`]: NUL ends the
    /// string, any other byte is appended to it.
    pub fn feed(&mut self, byte: u8)
        requires
            old(self).wf(),
            !old(self).finished,
            old(self).start + old(self).bytes@.len() <= u32::MAX,
        ensures
            final(self).wf(),
            final(self).start == old(self).start,
            byte == 0 ==> final(self).finished && final(self).bytes@ == old(self).bytes@,
            byte != 0 ==> !final(self).finished && final(self).bytes@ == old(self).bytes@.push(byte),
    {
        if byte == 0 {
            self.finished = true;
        } else {
            self.bytes.push(byte);
        }
    }
}

} // verus!
