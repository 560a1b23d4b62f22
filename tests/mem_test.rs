use std::collections::HashMap;

use rs_desmume::mem::{
    register_path, AddressRange, IndexMove, IndexSet, MemIndex, Processor, ReadOp, ReadPlan,
    Register, WriteCall, END_OF_MEMORY,
};
use rs_desmume::DeSmuME;

/// A byte store standing in for the engine's RAM, with a read watch.
struct Ram {
    bytes: HashMap<u32, u8>,
    watch: Option<(u32, u32)>,
    fired: Vec<(u32, u32)>,
}

impl Ram {
    fn new(base: u32, content: &[u8]) -> Ram {
        let mut bytes = HashMap::new();
        for (i, b) in content.iter().enumerate() {
            bytes.insert(base + i as u32, *b);
        }
        Ram { bytes, watch: None, fired: Vec::new() }
    }

    fn load(&mut self, addr: u32, width: u32) -> u32 {
        if let Some((w, size)) = self.watch {
            if addr <= w && w < addr + width {
                self.fired.push((w, size));
            }
        }
        let mut v: u32 = 0;
        for i in 0..width {
            v |= (*self.bytes.get(&(addr + i)).unwrap_or(&0) as u32) << (8 * i);
        }
        v
    }

    fn store(&mut self, addr: u32, width: u32, value: u32) {
        for i in 0..width {
            self.bytes.insert(addr + i, (value >> (8 * i)) as u8);
        }
    }

    fn run_read(&mut self, plan: &ReadPlan) -> Vec<i64> {
        plan.addrs
            .iter()
            .map(|a| match plan.op {
                ReadOp::Byte => self.load(*a, 1) as u8 as i64,
                ReadOp::ByteSigned => self.load(*a, 1) as u8 as i8 as i64,
                ReadOp::Short => self.load(*a, 2) as u16 as i64,
                ReadOp::ShortSigned => self.load(*a, 2) as u16 as i16 as i64,
                ReadOp::Long => self.load(*a, 4) as i64,
                ReadOp::LongSigned => self.load(*a, 4) as i32 as i64,
            })
            .collect()
    }

    fn run_writes(&mut self, calls: &[WriteCall]) {
        for c in calls {
            match *c {
                WriteCall::Byte { addr, value } => self.store(addr, 1, value as u32),
                WriteCall::Short { addr, value } => self.store(addr, 2, value as u32),
                WriteCall::Long { addr, value } => self.store(addr, 4, value),
            }
        }
    }
}

const FIXTURE: [u8; 16] = [1, 3, 160, 227, 8, 2, 128, 229, 156, 17, 159, 229, 193, 15, 128, 226];

#[test]
fn test_memory_and_hooks() {
    let mut emu = DeSmuME::init_done(None).unwrap();
    let mut ram = Ram::new(0x2000000, &FIXTURE);

    assert_eq!(register_path(Processor::Arm9, Register::PC), "arm9.r15");

    let at40 = ram.run_read(&emu.memory().u8().index_move(MemIndex::At(0x2000000)));
    assert_eq!(at40, vec![1]);
    ram.run_writes(&emu.memory_mut().u8_mut().index_set(MemIndex::At(0x2000000), &[76]));
    let at40 = ram.run_read(&emu.memory().u8().index_move(MemIndex::At(0x2000000)));
    assert_eq!(at40, vec![76]);
    ram.run_writes(&emu.memory_mut().u8_mut().index_set(MemIndex::At(0x2000000), &[1]));
    let at40 = ram.run_read(&emu.memory().u8().index_move(MemIndex::At(0x2000000)));
    assert_eq!(at40, vec![1]);

    let at40range = MemIndex::Range(0x2000000, 0x2000010);
    let at40slice = ram.run_read(&emu.memory().u8().index_move(at40range));
    assert_eq!(at40slice.len(), 16);
    assert_eq!(
        at40slice,
        vec![1, 3, 160, 227, 8, 2, 128, 229, 156, 17, 159, 229, 193, 15, 128, 226]
    );
    let at40replacement: Vec<u8> = vec![1, 2, 3, 4, 5, 6, 7, 8, 9, 0xA, 0xB, 0xC, 0xD, 0xE, 0xF, 0xF];
    ram.run_writes(&emu.memory_mut().u8_mut().index_set(at40range, &at40replacement));
    let at40slice = ram.run_read(&emu.memory().u8().index_move(at40range));
    assert_eq!(at40slice.len(), 16);
    let expected: Vec<i64> = at40replacement.iter().map(|b| *b as i64).collect();
    assert_eq!(at40slice, expected);

    ram.watch = Some((0x200000E, 2));
    let plan = emu.memory().u16().index_move(at40range);
    let _ = ram.run_read(&plan);
    assert_eq!(ram.fired, vec![(0x200000E, 2)]);
}

#[test]
fn scalar_read_is_one_call_of_the_type_primitive() {
    let emu = DeSmuME::init_done(None).unwrap();
    let mem = emu.memory();
    assert_eq!(mem.u8().index_move(MemIndex::At(7)), ReadPlan { op: ReadOp::Byte, addrs: vec![7] });
    assert_eq!(mem.i8().index_move(MemIndex::At(7)).op, ReadOp::ByteSigned);
    assert_eq!(mem.u16().index_move(MemIndex::At(7)), ReadPlan { op: ReadOp::Short, addrs: vec![7] });
    assert_eq!(mem.i16().index_move(MemIndex::At(7)).op, ReadOp::ShortSigned);
    assert_eq!(mem.u32().index_move(MemIndex::At(9)), ReadPlan { op: ReadOp::Long, addrs: vec![9] });
    assert_eq!(mem.i32().index_move(MemIndex::At(9)).op, ReadOp::LongSigned);
}

#[test]
fn ranged_reads_step_by_element_width() {
    let emu = DeSmuME::init_done(None).unwrap();
    let mem = emu.memory();
    let r = MemIndex::Range(0x2000000, 0x2000010);
    assert_eq!(mem.u8().index_move(r).addrs.len(), 16);
    assert_eq!(
        mem.u16().index_move(r).addrs,
        vec![0x2000000, 0x2000002, 0x2000004, 0x2000006, 0x2000008, 0x200000A, 0x200000C, 0x200000E]
    );
    assert_eq!(mem.i32().index_move(r).addrs, vec![0x2000000, 0x2000004, 0x2000008, 0x200000C]);
    assert_eq!(mem.u32().index_move(MemIndex::RangeInclusive(0x10, 0x17)).addrs, vec![0x10, 0x14]);
}

#[test]
fn exclusive_and_inclusive_shapes_agree() {
    let emu = DeSmuME::init_done(None).unwrap();
    let mem = emu.memory();
    for (a, b) in [(0u32, 4u32), (0x100, 0x110), (0xFFFF_FFF0, 0xFFFF_FFFC)] {
        assert_eq!(
            mem.u16().index_move(MemIndex::Range(a, b)),
            mem.u16().index_move(MemIndex::RangeInclusive(a, b - 1))
        );
        assert_eq!(MemIndex::Range(a, b).resolve(), MemIndex::RangeInclusive(a, b - 1).resolve());
    }
}

#[test]
fn resolve_table() {
    let r = |s: u32, e: u32| Some(AddressRange { start: s, end: e });
    assert_eq!(MemIndex::At(5).resolve(), r(5, 5));
    assert_eq!(MemIndex::Range(5, 9).resolve(), r(5, 8));
    assert_eq!(MemIndex::RangeFrom(5).resolve(), r(5, END_OF_MEMORY));
    assert_eq!(MemIndex::RangeTo(9).resolve(), r(0, 8));
    assert_eq!(MemIndex::RangeToInclusive(9).resolve(), r(0, 9));
    assert_eq!(MemIndex::RangeInclusive(5, 9).resolve(), r(5, 9));
    assert_eq!(MemIndex::Full.resolve(), r(0, 0xFFFF_FFFF));
}

#[test]
fn exclusive_end_zero_and_empty_shapes_are_rejected() {
    assert_eq!(MemIndex::Range(0, 0).resolve(), None);
    assert_eq!(MemIndex::Range(7, 0).resolve(), None);
    assert_eq!(MemIndex::RangeTo(0).resolve(), None);
    assert_eq!(MemIndex::Range(9, 9).resolve(), None);
    assert_eq!(MemIndex::Range(9, 5).resolve(), None);
    assert_eq!(MemIndex::RangeInclusive(9, 5).resolve(), None);
}

#[test]
fn alignment_check() {
    let r = AddressRange { start: 0x10, end: 0x12 };
    assert!(r.is_aligned_to(1));
    assert!(!r.is_aligned_to(2));
    assert!(!r.is_aligned_to(4));
    let r = AddressRange { start: 0x10, end: 0x17 };
    assert!(r.is_aligned_to(4));
    assert_eq!(r.element_addresses(2), vec![0x10, 0x12, 0x14, 0x16]);
    let full = AddressRange { start: 0xFFFF_FFF8, end: END_OF_MEMORY };
    assert_eq!(full.element_addresses(4), vec![0xFFFF_FFF8, 0xFFFF_FFFC]);
}

#[test]
fn range_from_runs_to_end_of_memory() {
    let emu = DeSmuME::init_done(None).unwrap();
    let plan = emu.memory().u32().index_move(MemIndex::RangeFrom(0xFFFF_FFF0));
    assert_eq!(plan.addrs, vec![0xFFFF_FFF0, 0xFFFF_FFF4, 0xFFFF_FFF8, 0xFFFF_FFFC]);
}

#[test]
fn negative_values_are_written_as_their_bit_pattern() {
    let mut emu = DeSmuME::init_done(None).unwrap();
    let mem = emu.memory_mut();
    assert_eq!(
        mem.i8_mut().index_set(MemIndex::At(3), &[-1]),
        vec![WriteCall::Byte { addr: 3, value: 0xFF }]
    );
    assert_eq!(
        mem.i16_mut().index_set(MemIndex::At(4), &[-2]),
        vec![WriteCall::Short { addr: 4, value: 0xFFFE }]
    );
    assert_eq!(
        mem.i32_mut().index_set(MemIndex::Range(8, 16), &[-1, i32::MIN]),
        vec![
            WriteCall::Long { addr: 8, value: 0xFFFF_FFFF },
            WriteCall::Long { addr: 12, value: 0x8000_0000 }
        ]
    );
    assert_eq!(
        mem.u16_mut().index_set(MemIndex::RangeTo(4), &[0xBEEF, 7]),
        vec![WriteCall::Short { addr: 0, value: 0xBEEF }, WriteCall::Short { addr: 2, value: 7 }]
    );
}

#[test]
fn set_then_get_round_trips_for_every_type() {
    let mut emu = DeSmuME::init_done(None).unwrap();
    let mut ram = Ram::new(0, &[]);
    let mem = emu.memory_mut();
    ram.run_writes(&mem.i8_mut().index_set(MemIndex::At(0x40), &[-100]));
    assert_eq!(ram.run_read(&mem.i8().index_move(MemIndex::At(0x40))), vec![-100]);
    ram.run_writes(&mem.u8_mut().index_set(MemIndex::At(0x41), &[200]));
    assert_eq!(ram.run_read(&mem.u8().index_move(MemIndex::At(0x41))), vec![200]);
    ram.run_writes(&mem.i16_mut().index_set(MemIndex::At(0x42), &[-30000]));
    assert_eq!(ram.run_read(&mem.i16().index_move(MemIndex::At(0x42))), vec![-30000]);
    ram.run_writes(&mem.u16_mut().index_set(MemIndex::At(0x44), &[60000]));
    assert_eq!(ram.run_read(&mem.u16().index_move(MemIndex::At(0x44))), vec![60000]);
    ram.run_writes(&mem.i32_mut().index_set(MemIndex::At(0x48), &[-2_000_000_000]));
    assert_eq!(ram.run_read(&mem.i32().index_move(MemIndex::At(0x48))), vec![-2_000_000_000]);
    ram.run_writes(&mem.u32_mut().index_set(MemIndex::At(0x4C), &[4_000_000_000]));
    assert_eq!(ram.run_read(&mem.u32().index_move(MemIndex::At(0x4C))), vec![4_000_000_000]);
}

#[test]
fn element_count_tells_how_many_values_a_write_takes() {
    let mut emu = DeSmuME::init_done(None).unwrap();
    let mem = emu.memory_mut();
    let r = MemIndex::Range(0x2000000, 0x2000010);
    assert_eq!(mem.u8_mut().element_count(r), Some(16));
    assert_eq!(mem.u16_mut().element_count(r), Some(8));
    assert_eq!(mem.i32_mut().element_count(r), Some(4));
    assert_ne!(mem.i32_mut().element_count(r), Some(3));
    assert_eq!(mem.u16().element_count(MemIndex::Range(0, 3)), None);
    assert_eq!(mem.u16().element_count(MemIndex::At(3)), Some(1));
    assert_eq!(mem.u8().element_count(MemIndex::Range(4, 0)), None);
    assert_eq!(mem.u8().element_count(MemIndex::Full), Some(1 << 32));
    assert_eq!(mem.u32().element_count(MemIndex::Full), Some(1 << 30));
}

#[test]
fn cstring_scan_stops_at_nul() {
    let emu = DeSmuME::init_done(None).unwrap();
    let ram = Ram::new(0x100, b"hey\0tail");
    let mut scan = emu.memory().read_cstring(0x100);
    let mut ram = ram;
    let mut reads = 0;
    while let Some(addr) = scan.next_addr() {
        reads += 1;
        scan.feed(ram.load(addr, 1) as u8);
    }
    assert_eq!(scan.bytes, b"hey".to_vec());
    assert!(scan.finished);
    assert_eq!(reads, 4);
}

#[test]
fn cstring_scan_stops_at_end_of_memory() {
    let emu = DeSmuME::init_done(None).unwrap();
    let mut scan = emu.memory().read_cstring(0xFFFF_FFFE);
    assert_eq!(scan.next_addr(), Some(0xFFFF_FFFE));
    scan.feed(b'a');
    assert_eq!(scan.next_addr(), Some(0xFFFF_FFFF));
    scan.feed(b'b');
    assert_eq!(scan.next_addr(), None);
    assert_eq!(scan.bytes, b"ab".to_vec());
    assert!(!scan.finished);
}
