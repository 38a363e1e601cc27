use vstd::prelude::*;

use crate::command::EmuMsgIn;

verus! {

/// A breakpoint as the observer names it.
#[derive(Clone, Copy, Debug, PartialEq, Eq, Structural)]
pub enum Breakpoint {
    A,
    B,
    C,
    D,
    H,
    L,
    Zero,
    Subtract,
    HalfCarry,
    Carry,
    MemoryWrite(u16),
    Pc(u16),
}

/// An 8-bit register whose change the core can trap.
#[derive(Clone, Copy, Debug, PartialEq, Eq, Structural)]
pub enum CpuReg {
    A,
    B,
    C,
    D,
    H,
    L,
}

/// A flag whose change the core can trap.
#[derive(Clone, Copy, Debug, PartialEq, Eq, Structural)]
pub enum CpuFlag {
    Zero,
    Subtract,
    HalfCarry,
    Carry,
}

/// A trigger condition in the core's own terms.
#[derive(Clone, Copy, Debug, PartialEq, Eq, Structural)]
pub enum CpuEvent {
    Reg(CpuReg),
    Flag(CpuFlag),
    MemoryWrite(u16),
    Pc(u16),
}

/// The core-level trigger that a breakpoint stands for.
pub open spec fn event_of(b: Breakpoint) -> CpuEvent {
    match b {
        Breakpoint::A => CpuEvent::Reg(CpuReg::A),
        Breakpoint::B => CpuEvent::Reg(CpuReg::B),
        Breakpoint::C => CpuEvent::Reg(CpuReg::C),
        Breakpoint::D => CpuEvent::Reg(CpuReg::D),
        Breakpoint::H => CpuEvent::Reg(CpuReg::H),
        Breakpoint::L => CpuEvent::Reg(CpuReg::L),
        Breakpoint::Zero => CpuEvent::Flag(CpuFlag::Zero),
        Breakpoint::Subtract => CpuEvent::Flag(CpuFlag::Subtract),
        Breakpoint::HalfCarry => CpuEvent::Flag(CpuFlag::HalfCarry),
        Breakpoint::Carry => CpuEvent::Flag(CpuFlag::Carry),
        Breakpoint::MemoryWrite(addr) => CpuEvent::MemoryWrite(addr),
        Breakpoint::Pc(addr) => CpuEvent::Pc(addr),
    }
}

impl From<Breakpoint> for CpuEvent {
    fn from(value: Breakpoint) -> (r: Self) {
        match value {
            Breakpoint::A => CpuEvent::Reg(CpuReg::A),
            Breakpoint::B => CpuEvent::Reg(CpuReg::B),
            Breakpoint::C => CpuEvent::Reg(CpuReg::C),
            Breakpoint::D => CpuEvent::Reg(CpuReg::D),
            Breakpoint::H => CpuEvent::Reg(CpuReg::H),
            Breakpoint::L => CpuEvent::Reg(CpuReg::L),
            Breakpoint::Zero => CpuEvent::Flag(CpuFlag::Zero),
            Breakpoint::Subtract => CpuEvent::Flag(CpuFlag::Subtract),
            Breakpoint::HalfCarry => CpuEvent::Flag(CpuFlag::HalfCarry),
            Breakpoint::Carry => CpuEvent::Flag(CpuFlag::Carry),
            Breakpoint::MemoryWrite(addr) => CpuEvent::MemoryWrite(addr),
            Breakpoint::Pc(addr) => CpuEvent::Pc(addr),
        }
    }
}

impl vstd::std_specs::convert::FromSpecImpl<Breakpoint> for CpuEvent {
    open spec fn obeys_from_spec() -> bool {
        true
    }

    open spec fn from_spec(v: Breakpoint) -> CpuEvent {
        event_of(v)
    }
}

/// The command that a breakpoint checkbox sends once the user changed it to
/// `value`.
pub open spec fn toggle_command(value: bool, breakpoint: Breakpoint) -> EmuMsgIn {
    if value {
        EmuMsgIn::SetBreakpoint(breakpoint)
    } else {
        EmuMsgIn::UnsetBreakpoint(breakpoint)
    }
}

/// The command for a breakpoint checkbox that the user changed to `value`.
pub fn breakpoint_toggle(value: bool, breakpoint: Breakpoint) -> (r: EmuMsgIn)
    ensures
        r == toggle_command(value, breakpoint),
{
    if value {
        EmuMsgIn::SetBreakpoint(breakpoint)
    } else {
        EmuMsgIn::UnsetBreakpoint(breakpoint)
    }
}

/// Value of a hexadecimal digit of either case.
pub open spec fn hex_digit_value(c: char) -> Option<nat> {
    if '0' <= c && c <= '9' {
        Some((c as nat - '0' as nat) as nat)
    } else if 'a' <= c && c <= 'f' {
        Some((c as nat - 'a' as nat + 10) as nat)
    } else if 'A' <= c && c <= 'F' {
        Some((c as nat - 'A' as nat + 10) as nat)
    } else {
        None
    }
}

/// Value of a string of hexadecimal digits; none if a character is not one.
pub open spec fn hex_digits_value(s: Seq<char>) -> Option<nat>
    decreases s.len(),
{
    if s.len() == 0 {
        Some(0)
    } else {
        match (hex_digits_value(s.drop_last()), hex_digit_value(s.last())) {
            (Some(high), Some(low)) => Some(high * 16 + low),
            _ => None,
        }
    }
}

/// A 16-bit number written in hexadecimal: an optional `+`, then at least
/// one digit, with a value that fits.
pub open spec fn hex_u16_of(s: Seq<char>) -> Option<u16> {
    let digits = if s.len() > 0 && s[0] == '+' {
        s.drop_first()
    } else {
        s
    };
    if digits.len() == 0 {
        None
    } else {
        match hex_digits_value(digits) {
            Some(v) => if v <= u16::MAX {
                Some(v as u16)
            } else {
                None
            },
            None => None,
        }
    }
}

/// Relies on `u16::from_str_radix` with radix 16, which accepts an optional
/// `+` followed by digits of the radix of either case, and fails on an empty
/// string, any other character and a value that does not fit.
#[verifier::external_body]
fn parse_hex_u16(s: &str) -> (r: Option<u16>)
    ensures
        r == hex_u16_of(s@),
{
    u16::from_str_radix(s, 16).ok()
}

/// The address typed into a breakpoint field, if it is a valid one.
pub fn parse_address(text: &str) -> (r: Option<u16>)
    ensures
        r == hex_u16_of(text@),
{
    parse_hex_u16(text)
}

/// What the debugger's breakpoint panel shows: a checkbox per register and
/// flag, and for the two address breakpoints the text typed and whether the
/// checkbox is ticked.
#[derive(Debug)]
pub struct Breakpoints {
    pub zero_flag: bool,
    pub subtract_flag: bool,
    pub half_carry_flag: bool,
    pub carry_flag: bool,
    pub a_reg: bool,
    pub b_reg: bool,
    pub c_reg: bool,
    pub d_reg: bool,
    pub h_reg: bool,
    pub l_reg: bool,
    pub mem_write: (String, bool),
    pub pc: (String, bool),
}

/// The command for an address breakpoint whose checkbox changed to `set`,
/// when the text is a valid address; none otherwise.
pub open spec fn address_command(
    text: Seq<char>,
    set: bool,
    kind: spec_fn(u16) -> Breakpoint,
) -> Option<EmuMsgIn> {
    match hex_u16_of(text) {
        Some(addr) => Some(toggle_command(set, kind(addr))),
        None => None,
    }
}

impl Default for Breakpoints {
    fn default() -> (r: Self)
        ensures
            !r.zero_flag && !r.subtract_flag && !r.half_carry_flag && !r.carry_flag,
            !r.a_reg && !r.b_reg && !r.c_reg && !r.d_reg && !r.h_reg && !r.l_reg,
            r.mem_write.0@.len() == 0 && !r.mem_write.1,
            r.pc.0@.len() == 0 && !r.pc.1,
    {
        Breakpoints {
            zero_flag: false,
            subtract_flag: false,
            half_carry_flag: false,
            carry_flag: false,
            a_reg: false,
            b_reg: false,
            c_reg: false,
            d_reg: false,
            h_reg: false,
            l_reg: false,
            mem_write: (String::new(), false),
            pc: (String::new(), false),
        }
    }
}

impl Breakpoints {
    /// The command to send after the memory-write checkbox changed; none
    /// when the typed address is not valid.
    pub fn memory_write_command(&self) -> (r: Option<EmuMsgIn>)
        ensures
            r == address_command(
                self.mem_write.0@,
                self.mem_write.1,
                |a: u16| Breakpoint::MemoryWrite(a),
            ),
    {
        match parse_address(self.mem_write.0.as_str()) {
            Some(addr) => Some(breakpoint_toggle(self.mem_write.1, Breakpoint::MemoryWrite(addr))),
            None => None,
        }
    }

    /// The command to send after the program-counter checkbox changed;
    /// none when the typed address is not valid.
    pub fn pc_command(&self) -> (r: Option<EmuMsgIn>)
        ensures
            r == address_command(self.pc.0@, self.pc.1, |a: u16| Breakpoint::Pc(a)),
    {
        match parse_address(self.pc.0.as_str()) {
            Some(addr) => Some(breakpoint_toggle(self.pc.1, Breakpoint::Pc(addr))),
            None => None,
        }
    }
}

} // verus!
