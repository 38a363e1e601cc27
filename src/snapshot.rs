use vstd::prelude::*;

verus! {

/// Opcode byte that selects the second, prefixed opcode table.
pub const PREFIX_OPCODE: u8 = 0xCB;

/// The CPU registers shown by the debugger.
#[derive(Clone, Copy, Debug, PartialEq, Eq, Structural)]
pub struct Registers {
    pub a: u8,
    pub b: u8,
    pub c: u8,
    pub d: u8,
    pub e: u8,
    pub h: u8,
    pub l: u8,
    pub pc: u16,
    pub sp: u16,
}

/// The memory-mapped I/O registers shown by the debugger.
#[derive(Clone, Copy, Debug, PartialEq, Eq, Structural)]
pub struct IoRegs {
    pub lcdc: u8,
    pub joyp: u8,
    pub scx: u8,
    pub scy: u8,
    pub stat: u8,
    pub lyc: u8,
    pub ly: u8,
}

/// The instruction at the program counter, as opcode table and opcode byte;
/// the core turns it into a mnemonic.
#[derive(Clone, Copy, Debug, PartialEq, Eq, Structural)]
pub struct NextInstruction {
    pub prefixed: bool,
    pub opcode: u8,
}

/// A point-in-time view of the machine for the debugger.
#[derive(Clone, Debug)]
pub struct StateDump {
    pub instruction: NextInstruction,
    /// The next instruction as the core writes it: mnemonic and operands.
    pub mnemonic: String,
    pub regs: Registers,
    pub io_regs: IoRegs,
    pub memory: Vec<u8>,
}

/// The byte at `addr`; an address past the dump reads as zero.
pub open spec fn byte_at(memory: Seq<u8>, addr: int) -> u8 {
    if 0 <= addr < memory.len() {
        memory[addr]
    } else {
        0
    }
}

/// The instruction that starts at `pc`: a prefix byte selects the prefixed
/// table and the byte at the following address, which wraps around the
/// 16-bit address space.
pub open spec fn instruction_at(memory: Seq<u8>, pc: u16) -> NextInstruction {
    if byte_at(memory, pc as int) == PREFIX_OPCODE {
        NextInstruction { prefixed: true, opcode: byte_at(memory, (pc as int + 1) % 0x10000) }
    } else {
        NextInstruction { prefixed: false, opcode: byte_at(memory, pc as int) }
    }
}

fn load_byte(memory: &Vec<u8>, addr: usize) -> (r: u8)
    ensures
        r == byte_at(memory@, addr as int),
{
    if addr < memory.len() {
        memory[addr]
    } else {
        0
    }
}

/// Decodes which instruction starts at `pc` in a memory dump.
pub fn fetch_instruction(memory: &Vec<u8>, pc: u16) -> (r: NextInstruction)
    ensures
        r == instruction_at(memory@, pc),
{
    let first = load_byte(memory, pc as usize);
    if first == PREFIX_OPCODE {
        let next: u16 = if pc == u16::MAX {
            0
        } else {
            pc + 1
        };
        NextInstruction { prefixed: true, opcode: load_byte(memory, next as usize) }
    } else {
        NextInstruction { prefixed: false, opcode: first }
    }
}

impl StateDump {
    /// Builds a snapshot from the registers, a dump of memory and the core's
    /// text for the instruction at the program counter.
    pub fn capture(regs: Registers, io_regs: IoRegs, memory: Vec<u8>, mnemonic: String) -> (r: StateDump)
        ensures
            r.mnemonic@ == mnemonic@,
            r.regs == regs,
            r.io_regs == io_regs,
            r.memory@ == memory@,
            r.instruction == instruction_at(memory@, regs.pc),
    {
        let instruction = fetch_instruction(&memory, regs.pc);
        StateDump { instruction, mnemonic, regs, io_regs, memory }
    }
}

} // verus!
