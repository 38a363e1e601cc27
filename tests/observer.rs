use gamboye::breakpoint::{breakpoint_toggle, parse_address, Breakpoint, Breakpoints, CpuEvent, CpuFlag, CpuReg};
use gamboye::command::{run_button_label, run_toggle, EmuMsgIn};
use gamboye::governor::FrameGovernor;
use gamboye::harness::{check_reg, check_test_result};
use gamboye::perf::{ratelimit, record_frame, show, FpsSummary, PerfState, MIN_FRAMETIME_US};
use gamboye::snapshot::{fetch_instruction, IoRegs, NextInstruction, Registers, StateDump};
use gamboye::state::{InnerEmuState, SharedFrame, FRAME_LEN, VRAM_LEN};
use gamboye::status::EmuStatus;

fn regs(pc: u16) -> Registers {
    Registers { a: 1, b: 3, c: 5, d: 8, e: 13, h: 21, l: 34, pc, sp: 0xFFFE }
}

fn io() -> IoRegs {
    IoRegs { lcdc: 0x91, joyp: 0xCF, scx: 0, scy: 0, stat: 0x85, lyc: 0, ly: 0x90 }
}

#[test]
fn shared_frame_pending_follows_publish_and_consume() {
    let mut f = SharedFrame::new();
    assert_eq!(f.len(), FRAME_LEN);
    assert_eq!(FRAME_LEN, 160 * 144 * 4);
    assert!(!f.is_pending());
    assert_eq!(f.consume(), None);
    let frame: Vec<u8> = (0..FRAME_LEN).map(|i| (i % 251) as u8).collect();
    f.publish(&frame);
    assert!(f.is_pending());
    assert_eq!(f.len(), FRAME_LEN);
    assert_eq!(f.consume(), Some(frame.clone()));
    assert!(!f.is_pending());
    assert_eq!(f.consume(), None);
    assert_eq!(f.bytes(), &frame);
}

#[test]
fn inner_state_cells() {
    let s = InnerEmuState::new();
    assert_eq!(s.status(), EmuStatus::Fresh);
    assert!(!s.frame_pending());
    assert_eq!(s.take_frame(), None);
    assert!(!s.publish_frame(&vec![1u8; FRAME_LEN - 1]));
    assert!(!s.frame_pending());
    let frame = vec![7u8; FRAME_LEN];
    assert!(s.publish_frame(&frame));
    assert!(s.frame_pending());
    assert_eq!(s.take_frame(), Some(frame));
    assert!(!s.frame_pending());
    s.set_status(EmuStatus::Break);
    assert_eq!(s.status(), EmuStatus::Break);
    assert_eq!(s.vram().len(), VRAM_LEN);
    assert!(!s.set_vram(vec![3u8; 5]));
    assert!(s.set_vram(vec![3u8; VRAM_LEN]));
    assert_eq!(s.vram()[10], 3);
}

#[test]
fn governor_schedules_one_wake_per_window() {
    let mut g = FrameGovernor::new(3);
    assert_eq!(g.on_frame(5_000), None);
    assert_eq!(g.on_frame(10_000), None);
    assert_eq!(g.on_frame(20_000), Some(1_005_000));
    assert_eq!(g.on_frame(30_000), None);
    assert_eq!(g.on_frame(40_000), None);
    assert_eq!(g.on_frame(1_005_000), None);
    assert_eq!(g.window_start, Some(1_005_000));
    assert_eq!(g.frames, 1);
}

#[test]
fn ratelimit_holds_fast_frames() {
    let mut p = PerfState::default();
    assert_eq!(ratelimit(&mut p, 1_000), None);
    assert_eq!(ratelimit(&mut p, 2_000), Some(1_000 + MIN_FRAMETIME_US));
    assert_eq!(ratelimit(&mut p, 40_000), None);
    assert_eq!(p.last_frame, Some(40_000));
    assert_eq!(MIN_FRAMETIME_US, 16_666);
}

#[test]
fn frame_statistics() {
    let mut p = PerfState::default();
    assert_eq!(show(&mut p), None);
    record_frame(&mut p, 0);
    assert_eq!(p.last_second, Some(0));
    assert_eq!(p.frames, 1);
    for i in 1..60u64 {
        record_frame(&mut p, i * 16_000);
    }
    assert_eq!(p.frames, 60);
    record_frame(&mut p, 1_000_000);
    assert_eq!(p.fps_history, vec![61]);
    assert_eq!(p.frames, 0);
    for i in 1..30u64 {
        record_frame(&mut p, 1_000_000 + i * 30_000);
    }
    record_frame(&mut p, 2_000_000);
    assert_eq!(p.fps_history, vec![61, 30]);
    assert_eq!(show(&mut p), Some(FpsSummary { current: 30, average: 45, min: 30, max: 30 }));
    assert_eq!(p.min_fps, 30);
}

#[test]
fn record_frame_appends_and_show_trims() {
    let mut p = PerfState::default();
    record_frame(&mut p, 0);
    for w in 1..=12u64 {
        record_frame(&mut p, w * 1_000_000);
    }
    assert_eq!(p.fps_history.len(), 12);
    assert_eq!(p.fps_history[0], 2);
    assert!(show(&mut p).is_some());
    assert_eq!(p.fps_history.len(), 11);
    assert_eq!(show(&mut p), Some(FpsSummary { current: 1, average: 1, min: 1, max: 1 }));
    assert_eq!(p.fps_history.len(), 10);
    assert!(show(&mut p).is_some());
    assert_eq!(p.fps_history.len(), 10);
}

#[test]
fn next_instruction_decoding() {
    let mut memory = vec![0u8; 0x10000];
    memory[0x100] = 0xE0;
    memory[0x101] = 0x40;
    memory[0x102] = 0x3E;
    memory[0x200] = 0xCB;
    memory[0x201] = 0x37;
    memory[0xFFFF] = 0xCB;
    memory[0x0000] = 0x11;
    assert_eq!(fetch_instruction(&memory, 0x102), NextInstruction { prefixed: false, opcode: 0x3E });
    assert_eq!(fetch_instruction(&memory, 0x200), NextInstruction { prefixed: true, opcode: 0x37 });
    assert_eq!(fetch_instruction(&memory, 0xFFFF), NextInstruction { prefixed: true, opcode: 0x11 });
    assert_eq!(fetch_instruction(&Vec::new(), 0x10), NextInstruction { prefixed: false, opcode: 0 });
}

#[test]
fn snapshot_after_write_shows_following_instruction() {
    let mut memory = vec![0u8; 0x10000];
    memory[0x100] = 0xE0;
    memory[0x101] = 0x40;
    memory[0x102] = 0x3E;
    let dump = StateDump::capture(regs(0x102), io(), memory, "LD A, n8".to_string());
    assert_eq!(dump.mnemonic, "LD A, n8");
    assert_eq!(dump.instruction, NextInstruction { prefixed: false, opcode: 0x3E });
    assert_eq!(dump.regs, regs(0x102));
    assert_eq!(dump.io_regs, io());
    assert_eq!(dump.memory.len(), 0x10000);
}

#[test]
fn breakpoint_to_core_event() {
    assert_eq!(CpuEvent::from(Breakpoint::H), CpuEvent::Reg(CpuReg::H));
    assert_eq!(CpuEvent::from(Breakpoint::HalfCarry), CpuEvent::Flag(CpuFlag::HalfCarry));
    assert_eq!(CpuEvent::from(Breakpoint::Pc(0x1234)), CpuEvent::Pc(0x1234));
    assert_eq!(CpuEvent::from(Breakpoint::MemoryWrite(0xFF40)), CpuEvent::MemoryWrite(0xFF40));
}

#[test]
fn checkbox_commands() {
    assert_eq!(breakpoint_toggle(true, Breakpoint::C), EmuMsgIn::SetBreakpoint(Breakpoint::C));
    assert_eq!(breakpoint_toggle(false, Breakpoint::C), EmuMsgIn::UnsetBreakpoint(Breakpoint::C));
}

#[test]
fn address_parsing() {
    assert_eq!(parse_address("ff40"), Some(0xFF40));
    assert_eq!(parse_address("FF40"), Some(0xFF40));
    assert_eq!(parse_address("+1a"), Some(0x1A));
    assert_eq!(parse_address("0"), Some(0));
    assert_eq!(parse_address(""), None);
    assert_eq!(parse_address("+"), None);
    assert_eq!(parse_address("-1"), None);
    assert_eq!(parse_address("10000"), None);
    assert_eq!(parse_address("12g4"), None);
    assert_eq!(parse_address(" 12"), None);
}

#[test]
fn address_breakpoint_commands() {
    let mut b = Breakpoints::default();
    assert_eq!(b.memory_write_command(), None);
    b.mem_write = ("ff40".to_string(), true);
    assert_eq!(b.memory_write_command(), Some(EmuMsgIn::SetBreakpoint(Breakpoint::MemoryWrite(0xFF40))));
    b.mem_write.1 = false;
    assert_eq!(b.memory_write_command(), Some(EmuMsgIn::UnsetBreakpoint(Breakpoint::MemoryWrite(0xFF40))));
    b.pc = ("0150".to_string(), true);
    assert_eq!(b.pc_command(), Some(EmuMsgIn::SetBreakpoint(Breakpoint::Pc(0x150))));
    b.pc.0 = "zz".to_string();
    assert_eq!(b.pc_command(), None);
}

#[test]
fn conformance_register_check() {
    assert_eq!(check_reg(5, 5), Ok(()));
    assert_eq!(check_reg(5, 6), Err(()));
    assert_eq!(check_test_result(&regs(0)), Ok(()));
    let mut bad = regs(0);
    bad.h = 20;
    assert_eq!(check_test_result(&bad), Err(()));
}

#[test]
fn run_button_flips() {
    let mut stopped = false;
    assert_eq!(run_button_label(stopped), "Stop");
    assert_eq!(run_toggle(&mut stopped), EmuMsgIn::Pause);
    assert!(stopped);
    assert_eq!(run_button_label(stopped), "Resume");
    assert_eq!(run_toggle(&mut stopped), EmuMsgIn::Resume);
    assert!(!stopped);
}
