use vstd::prelude::*;

use vstd::string::StrSliceExecFns;

use crate::snapshot::Registers;

verus! {

/// Succeeds when a register holds the expected value.
pub fn check_reg(reg: u8, value: u8) -> (r: Result<(), ()>)
    ensures
        r is Ok <==> reg == value,
{
    if reg == value {
        Ok(())
    } else {
        Err(())
    }
}

/// Whether a conformance ROM reports success when it reaches its final
/// breakpoint: B, C, D, E, H and L hold 3, 5, 8, 13, 21 and 34.
pub open spec fn rom_passed(regs: Registers) -> bool {
    regs.b == 3 && regs.c == 5 && regs.d == 8 && regs.e == 13 && regs.h == 21 && regs.l == 34
}

/// Checks the registers of a conformance ROM at its final breakpoint.
pub fn check_test_result(regs: &Registers) -> (r: Result<(), ()>)
    ensures
        r is Ok <==> rom_passed(*regs),
{
    check_reg(regs.b, 3)?;
    check_reg(regs.c, 5)?;
    check_reg(regs.d, 8)?;
    check_reg(regs.e, 13)?;
    check_reg(regs.h, 21)?;
    check_reg(regs.l, 34)?;
    Ok(())
}

/// A memory cell of a single-instruction test case.
#[derive(Clone, Copy, Debug, PartialEq, Eq, Structural)]
pub struct MemCell {
    pub addr: u16,
    pub value: u8,
}

/// The machine state that a single-instruction test case expects.
#[derive(Clone, Debug)]
pub struct State {
    pub a: u8,
    pub b: u8,
    pub c: u8,
    pub d: u8,
    pub e: u8,
    pub f: u8,
    pub h: u8,
    pub l: u8,
    pub pc: u16,
    pub sp: u16,
    /// Interrupt master enable, as 1 for enabled.
    pub ime: u8,
    /// Interrupt-enable register, when the case sets it.
    pub ie: Option<u8>,
    pub ram: Vec<MemCell>,
}

/// The CPU state that a core reports after running a test case.
#[derive(Clone, Copy, Debug, PartialEq, Eq, Structural)]
pub struct CpuState {
    pub a: u8,
    pub b: u8,
    pub c: u8,
    pub d: u8,
    pub e: u8,
    pub f: u8,
    pub h: u8,
    pub l: u8,
    pub pc: u16,
    pub sp: u16,
    pub ime: bool,
}

/// A register of a test case.
#[derive(Clone, Copy, Debug, PartialEq, Eq, Structural)]
pub enum RegName {
    A,
    B,
    C,
    D,
    E,
    F,
    H,
    L,
    Pc,
    Sp,
}

/// The first difference between a core's state and the expected one.
#[derive(Clone, Copy, Debug, PartialEq, Eq, Structural)]
pub enum Mismatch {
    Memory { addr: u16, value: u8, expected: u8 },
    Reg { reg: RegName, value: u16, expected: u16 },
    Ime { value: bool, expected: bool },
    Ie { value: u8, expected: u8 },
}

/// Address of the interrupt-enable register.
pub const IE_ADDR: u16 = 0xFFFF;

/// Size of the address space.
pub const ADDRESS_SPACE: usize = 0x10000;

/// The first expected memory cell (from index `i` on) that memory does not
/// hold.
pub open spec fn first_memory_mismatch(memory: Seq<u8>, ram: Seq<MemCell>, i: int) -> Option<Mismatch>
    decreases ram.len() - i,
{
    if i < 0 || i >= ram.len() {
        None
    } else if memory[ram[i].addr as int] != ram[i].value {
        Some(Mismatch::Memory { addr: ram[i].addr, value: memory[ram[i].addr as int], expected: ram[i].value })
    } else {
        first_memory_mismatch(memory, ram, i + 1)
    }
}

/// The first register, in the order A, B, C, D, E, F, H, L, PC, SP, that
/// differs from the expected one.
pub open spec fn first_reg_mismatch(cpu: CpuState, st: State) -> Option<Mismatch> {
    if cpu.a != st.a {
        Some(Mismatch::Reg { reg: RegName::A, value: cpu.a as u16, expected: st.a as u16 })
    } else if cpu.b != st.b {
        Some(Mismatch::Reg { reg: RegName::B, value: cpu.b as u16, expected: st.b as u16 })
    } else if cpu.c != st.c {
        Some(Mismatch::Reg { reg: RegName::C, value: cpu.c as u16, expected: st.c as u16 })
    } else if cpu.d != st.d {
        Some(Mismatch::Reg { reg: RegName::D, value: cpu.d as u16, expected: st.d as u16 })
    } else if cpu.e != st.e {
        Some(Mismatch::Reg { reg: RegName::E, value: cpu.e as u16, expected: st.e as u16 })
    } else if cpu.f != st.f {
        Some(Mismatch::Reg { reg: RegName::F, value: cpu.f as u16, expected: st.f as u16 })
    } else if cpu.h != st.h {
        Some(Mismatch::Reg { reg: RegName::H, value: cpu.h as u16, expected: st.h as u16 })
    } else if cpu.l != st.l {
        Some(Mismatch::Reg { reg: RegName::L, value: cpu.l as u16, expected: st.l as u16 })
    } else if cpu.pc != st.pc {
        Some(Mismatch::Reg { reg: RegName::Pc, value: cpu.pc, expected: st.pc })
    } else if cpu.sp != st.sp {
        Some(Mismatch::Reg { reg: RegName::Sp, value: cpu.sp, expected: st.sp })
    } else {
        None
    }
}

/// The first difference: memory cells in the case's order, then the
/// registers, the interrupt master enable and the interrupt-enable register.
pub open spec fn first_mismatch(cpu: CpuState, memory: Seq<u8>, st: State) -> Option<Mismatch> {
    match first_memory_mismatch(memory, st.ram@, 0) {
        Some(m) => Some(m),
        None => match first_reg_mismatch(cpu, st) {
            Some(m) => Some(m),
            None => if cpu.ime != (st.ime == 1) {
                Some(Mismatch::Ime { value: cpu.ime, expected: st.ime == 1 })
            } else {
                match st.ie {
                    Some(ie) => if memory[IE_ADDR as int] != ie {
                        Some(Mismatch::Ie { value: memory[IE_ADDR as int], expected: ie })
                    } else {
                        None
                    },
                    None => None,
                }
            },
        },
    }
}

fn check_memory(memory: &Vec<u8>, ram: &Vec<MemCell>) -> (r: Result<(), Mismatch>)
    requires
        memory@.len() == ADDRESS_SPACE,
    ensures
        r matches Err(m) ==> first_memory_mismatch(memory@, ram@, 0) == Some(m),
        r is Ok ==> first_memory_mismatch(memory@, ram@, 0) is None,
{
    let mut i: usize = 0;
    while i < ram.len()
        invariant
            memory@.len() == ADDRESS_SPACE,
            i <= ram@.len(),
            first_memory_mismatch(memory@, ram@, 0) == first_memory_mismatch(memory@, ram@, i as int),
        decreases ram.len() - i,
    {
        let cell = ram[i];
        let value = memory[cell.addr as usize];
        if value != cell.value {
            return Err(Mismatch::Memory { addr: cell.addr, value, expected: cell.value });
        }
        i += 1;
    }
    Ok(())
}

fn check_regs(cpu: &CpuState, st: &State) -> (r: Result<(), Mismatch>)
    ensures
        r matches Err(m) ==> first_reg_mismatch(*cpu, *st) == Some(m),
        r is Ok ==> first_reg_mismatch(*cpu, *st) is None,
{
    if cpu.a != st.a {
        Err(Mismatch::Reg { reg: RegName::A, value: cpu.a as u16, expected: st.a as u16 })
    } else if cpu.b != st.b {
        Err(Mismatch::Reg { reg: RegName::B, value: cpu.b as u16, expected: st.b as u16 })
    } else if cpu.c != st.c {
        Err(Mismatch::Reg { reg: RegName::C, value: cpu.c as u16, expected: st.c as u16 })
    } else if cpu.d != st.d {
        Err(Mismatch::Reg { reg: RegName::D, value: cpu.d as u16, expected: st.d as u16 })
    } else if cpu.e != st.e {
        Err(Mismatch::Reg { reg: RegName::E, value: cpu.e as u16, expected: st.e as u16 })
    } else if cpu.f != st.f {
        Err(Mismatch::Reg { reg: RegName::F, value: cpu.f as u16, expected: st.f as u16 })
    } else if cpu.h != st.h {
        Err(Mismatch::Reg { reg: RegName::H, value: cpu.h as u16, expected: st.h as u16 })
    } else if cpu.l != st.l {
        Err(Mismatch::Reg { reg: RegName::L, value: cpu.l as u16, expected: st.l as u16 })
    } else if cpu.pc != st.pc {
        Err(Mismatch::Reg { reg: RegName::Pc, value: cpu.pc, expected: st.pc })
    } else if cpu.sp != st.sp {
        Err(Mismatch::Reg { reg: RegName::Sp, value: cpu.sp, expected: st.sp })
    } else {
        Ok(())
    }
}

/// Compares a core's state after a test case with the expected one, given
/// the core's whole address space, and reports the first difference.
pub fn assert_state(cpu: &CpuState, memory: &Vec<u8>, st: &State) -> (r: Result<(), Mismatch>)
    requires
        memory@.len() == ADDRESS_SPACE,
    ensures
        r matches Err(m) ==> first_mismatch(*cpu, memory@, *st) == Some(m),
        r is Ok ==> first_mismatch(*cpu, memory@, *st) is None,
{
    check_memory(memory, &st.ram)?;
    check_regs(cpu, st)?;
    let expected_ime = st.ime == 1;
    if cpu.ime != expected_ime {
        return Err(Mismatch::Ime { value: cpu.ime, expected: expected_ime });
    }
    match st.ie {
        Some(ie) => {
            let value = memory[IE_ADDR as usize];
            if value != ie {
                Err(Mismatch::Ie { value, expected: ie })
            } else {
                Ok(())
            }
        },
        None => Ok(()),
    }
}

/// Bus activity of one machine cycle of a test case.
#[derive(Clone, Copy, Debug, PartialEq, Eq, Structural)]
pub struct MemoryMode {
    pub read: bool,
    pub write: bool,
    pub request: bool,
}

/// A bus-activity string `rwm`, where each position is `-` when that
/// activity is absent and any other character when present. The error is
/// the position of the first missing character.
pub open spec fn memory_mode_of(v: Seq<char>) -> Result<MemoryMode, usize> {
    if v.len() < 1 {
        Err(0)
    } else if v.len() < 2 {
        Err(1)
    } else if v.len() < 3 {
        Err(2)
    } else {
        Ok(MemoryMode { read: v[0] != '-', write: v[1] != '-', request: v[2] != '-' })
    }
}

/// Reads a bus-activity string of a test case.
pub fn parse_memory_mode(v: &str) -> (r: Result<MemoryMode, usize>)
    ensures
        r == memory_mode_of(v@),
{
    let len = v.unicode_len();
    if len < 1 {
        Err(0)
    } else if len < 2 {
        Err(1)
    } else if len < 3 {
        Err(2)
    } else {
        Ok(MemoryMode {
            read: v.get_char(0) != '-',
            write: v.get_char(1) != '-',
            request: v.get_char(2) != '-',
        })
    }
}

} // verus!
