//! Processors and their registers, named as the engine's register
//! interface names them.
use vstd::prelude::*;

verus! {

/// The two processors of the console.
#[derive(Clone, Copy, Debug, PartialEq, Eq, Structural)]
pub enum Processor {
    Arm9,
    Arm7,
}

impl Processor {
    /// The engine's name of the processor.
    pub open spec fn spec_name(self) -> Seq<char> {
        match self {
            Processor::Arm9 => "arm9"@,
            Processor::Arm7 => "arm7"@,
        }
    }

    /// The engine's name of the processor.
    pub fn get_name(&self) -> (r: &'static str)
        ensures
            r@ == self.spec_name(),
    {
        match self {
            Processor::Arm9 => "arm9",
            Processor::Arm7 => "arm7",
        }
    }
}

/// The registers of a processor.
#[derive(Clone, Copy, Debug, PartialEq, Eq, Structural)]
#[non_exhaustive]
pub enum Register {
    R0,
    R1,
    R2,
    R3,
    R4,
    R5,
    R6,
    R7,
    R8,
    R9,
    R10,
    R11,
    R12,
    R13,
    R14,
    R15,
    CPSR,
    SPSR,
    /// Alias of `R13`.
    SP,
    /// Alias of `R14`.
    LR,
    /// Alias of `R15`.
    PC,
}

impl Register {
    /// The engine's name of the register; an alias has the name of the
    /// register it stands for.
    pub open spec fn spec_name(self) -> Seq<char> {
        match self {
            Register::R0 => "r0"@,
            Register::R1 => "r1"@,
            Register::R2 => "r2"@,
            Register::R3 => "r3"@,
            Register::R4 => "r4"@,
            Register::R5 => "r5"@,
            Register::R6 => "r6"@,
            Register::R7 => "r7"@,
            Register::R8 => "r8"@,
            Register::R9 => "r9"@,
            Register::R10 => "r10"@,
            Register::R11 => "r11"@,
            Register::R12 => "r12"@,
            Register::R13 => "r13"@,
            Register::R14 => "r14"@,
            Register::R15 => "r15"@,
            Register::CPSR => "cpsr"@,
            Register::SPSR => "spsr"@,
            Register::SP => "r13"@,
            Register::LR => "r14"@,
            Register::PC => "r15"@,
        }
    }

    /// The engine's name of the register.
    pub fn get_name(&self) -> (r: &'static str)
        ensures
            r@ == self.spec_name(),
    {
        match self {
            Register::R0 => "r0",
            Register::R1 => "r1",
            Register::R2 => "r2",
            Register::R3 => "r3",
            Register::R4 => "r4",
            Register::R5 => "r5",
            Register::R6 => "r6",
            Register::R7 => "r7",
            Register::R8 => "r8",
            Register::R9 => "r9",
            Register::R10 => "r10",
            Register::R11 => "r11",
            Register::R12 => "r12",
            Register::R13 => "r13",
            Register::R14 => "r14",
            Register::R15 => "r15",
            Register::CPSR => "cpsr",
            Register::SPSR => "spsr",
            Register::SP => "r13",
            Register::LR => "r14",
            Register::PC => "r15",
        }
    }

    /// The general-purpose register with the given number, if there is one.
    pub open spec fn spec_from_number(value: u32) -> Result<Register, ()> {
        match value {
            0 => Ok(Register::R0),
            1 => Ok(Register::R1),
            2 => Ok(Register::R2),
            3 => Ok(Register::R3),
            4 => Ok(Register::R4),
            5 => Ok(Register::R5),
            6 => Ok(Register::R6),
            7 => Ok(Register::R7),
            8 => Ok(Register::R8),
            9 => Ok(Register::R9),
            10 => Ok(Register::R10),
            11 => Ok(Register::R11),
            12 => Ok(Register::R12),
            13 => Ok(Register::R13),
            14 => Ok(Register::R14),
            15 => Ok(Register::R15),
            _ => Err(()),
        }
    }
}

/// The engine's path of a register: the processor's name, a dot, and the
/// register's name (`arm9.r15`).
pub open spec fn spec_register_path(processor: Processor, reg: Register) -> Seq<char> {
    processor.spec_name() + "."@ + reg.spec_name()
}

/// Builds the engine's path of a register.
pub fn register_path(processor: Processor, reg: Register) -> (r: String)
    ensures
        r@ == spec_register_path(processor, reg),
{
    let p = String::from_str(processor.get_name());
    let p = p.concat(".");
    p.concat(reg.get_name())
}

/// Registers by number: `0` to `15` give `R0` to `R15`, other numbers fail.
impl TryFrom<u32> for Register {
    type Error = ();

    fn try_from(value: u32) -> (r: Result<Register, ()>) {
        if value < 8 {
            match value {
                0 => Ok(Register::R0),
                1 => Ok(Register::R1),
                2 => Ok(Register::R2),
                3 => Ok(Register::R3),
                4 => Ok(Register::R4),
                5 => Ok(Register::R5),
                6 => Ok(Register::R6),
                _ => Ok(Register::R7),
            }
        } else {
            match value {
                8 => Ok(Register::R8),
                9 => Ok(Register::R9),
                10 => Ok(Register::R10),
                11 => Ok(Register::R11),
                12 => Ok(Register::R12),
                13 => Ok(Register::R13),
                14 => Ok(Register::R14),
                15 => Ok(Register::R15),
                _ => Err(()),
            }
        }
    }
}

impl vstd::std_specs::convert::TryFromSpecImpl<u32> for Register {
    open spec fn obeys_try_from_spec() -> bool {
        true
    }

    open spec fn try_from_spec(v: u32) -> Result<Register, ()> {
        Register::spec_from_number(v)
    }
}

} // verus!
