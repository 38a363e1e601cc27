use gamboye::harness::{
    assert_state, parse_memory_mode, CpuState, MemCell, MemoryMode, Mismatch, RegName, State, ADDRESS_SPACE, IE_ADDR,
};

fn expected() -> State {
    State {
        a: 0x12,
        b: 0,
        c: 0,
        d: 0,
        e: 0,
        f: 0x80,
        h: 0xC0,
        l: 0x00,
        pc: 0x0101,
        sp: 0xFFFE,
        ime: 1,
        ie: Some(0x1F),
        ram: vec![MemCell { addr: 0xC000, value: 0x3E }, MemCell { addr: 0x0100, value: 0x00 }],
    }
}

fn cpu() -> CpuState {
    CpuState { a: 0x12, b: 0, c: 0, d: 0, e: 0, f: 0x80, h: 0xC0, l: 0, pc: 0x0101, sp: 0xFFFE, ime: true }
}

fn memory() -> Vec<u8> {
    let mut m = vec![0u8; ADDRESS_SPACE];
    m[0xC000] = 0x3E;
    m[IE_ADDR as usize] = 0x1F;
    m
}

#[test]
fn matching_state_passes() {
    assert_eq!(assert_state(&cpu(), &memory(), &expected()), Ok(()));
}

#[test]
fn memory_is_compared_first() {
    let mut c = cpu();
    c.a = 0;
    let mut m = memory();
    m[0xC000] = 0x3F;
    assert_eq!(
        assert_state(&c, &m, &expected()),
        Err(Mismatch::Memory { addr: 0xC000, value: 0x3F, expected: 0x3E })
    );
}

#[test]
fn registers_in_order() {
    let mut c = cpu();
    c.sp = 0x1234;
    c.f = 0x10;
    assert_eq!(
        assert_state(&c, &memory(), &expected()),
        Err(Mismatch::Reg { reg: RegName::F, value: 0x10, expected: 0x80 })
    );
    c.f = 0x80;
    assert_eq!(
        assert_state(&c, &memory(), &expected()),
        Err(Mismatch::Reg { reg: RegName::Sp, value: 0x1234, expected: 0xFFFE })
    );
}

#[test]
fn interrupt_flags_last() {
    let mut c = cpu();
    c.ime = false;
    assert_eq!(assert_state(&c, &memory(), &expected()), Err(Mismatch::Ime { value: false, expected: true }));
    let mut m = memory();
    m[IE_ADDR as usize] = 0;
    assert_eq!(assert_state(&cpu(), &m, &expected()), Err(Mismatch::Ie { value: 0, expected: 0x1F }));
    let mut st = expected();
    st.ie = None;
    assert_eq!(assert_state(&cpu(), &m, &st), Ok(()));
}

#[test]
fn bus_activity_strings() {
    assert_eq!(parse_memory_mode("r-m"), Ok(MemoryMode { read: true, write: false, request: true }));
    assert_eq!(parse_memory_mode("---"), Ok(MemoryMode { read: false, write: false, request: false }));
    assert_eq!(parse_memory_mode("rwmx"), Ok(MemoryMode { read: true, write: true, request: true }));
    assert_eq!(parse_memory_mode(""), Err(0));
    assert_eq!(parse_memory_mode("r"), Err(1));
    assert_eq!(parse_memory_mode("r-"), Err(2));
}
