use chip8::cpu::Chip8;
use chip8::decode::Instr;
use chip8::decode::decode;
use chip8::semantics::Chip8Error;

/// A font-seeded machine ready to run.
fn boot() -> Chip8 {
    let mut m = Chip8::new();
    m.initialize();
    m
}

#[test]
fn decode_total_and_deterministic() {
    let mut words: u32 = 0;
    for w in 0u32..=0xFFFF {
        let a = decode(w as u16);
        let b = decode(w as u16);
        assert_eq!(a, b);
        words += 1;
    }
    assert_eq!(words, 65536);
}

#[test]
fn decode_families() {
    assert_eq!(decode(0x00E0), Instr::Cls);
    assert_eq!(decode(0x00EE), Instr::Ret);
    assert_eq!(decode(0x1ABC), Instr::Jump(0xABC));
    assert_eq!(decode(0x2123), Instr::Call(0x123));
    assert_eq!(decode(0x3A42), Instr::SkipEqImm(0xA, 0x42));
    assert_eq!(decode(0x4A42), Instr::SkipNeImm(0xA, 0x42));
    assert_eq!(decode(0x5AB0), Instr::SkipEqReg(0xA, 0xB));
    assert_eq!(decode(0x6C99), Instr::SetImm(0xC, 0x99));
    assert_eq!(decode(0x7C01), Instr::AddImm(0xC, 0x01));
    assert_eq!(decode(0x8120), Instr::Mov(1, 2));
    assert_eq!(decode(0x8121), Instr::Or(1, 2));
    assert_eq!(decode(0x8122), Instr::And(1, 2));
    assert_eq!(decode(0x8123), Instr::Xor(1, 2));
    assert_eq!(decode(0x8124), Instr::AddReg(1, 2));
    assert_eq!(decode(0x8125), Instr::SubReg(1, 2));
    assert_eq!(decode(0x8126), Instr::Shr(1));
    assert_eq!(decode(0x8127), Instr::SubN(1, 2));
    assert_eq!(decode(0x812E), Instr::Shl(1));
    assert_eq!(decode(0x9AB0), Instr::SkipNeReg(0xA, 0xB));
    assert_eq!(decode(0xA321), Instr::SetIndex(0x321));
    assert_eq!(decode(0xB321), Instr::JumpV0(0x321));
    assert_eq!(decode(0xC2F0), Instr::RandMask(2, 0xF0));
    assert_eq!(decode(0xD125), Instr::Draw(1, 2, 5));
    assert_eq!(decode(0xE29E), Instr::SkipKey(2));
    assert_eq!(decode(0xE2A1), Instr::SkipNoKey(2));
    assert_eq!(decode(0xF307), Instr::GetDelay(3));
    assert_eq!(decode(0xF30A), Instr::WaitKey(3));
    assert_eq!(decode(0xF315), Instr::SetDelay(3));
    assert_eq!(decode(0xF318), Instr::SetSound(3));
    assert_eq!(decode(0xF31E), Instr::AddIndex(3));
    assert_eq!(decode(0xF329), Instr::FontAddr(3));
    assert_eq!(decode(0xF333), Instr::StoreBcd(3));
    assert_eq!(decode(0xF355), Instr::DumpRegs(3));
    assert_eq!(decode(0xF365), Instr::LoadRegs(3));
    assert_eq!(decode(0x8128), Instr::Unrecognized(0x8128));
    assert_eq!(decode(0x0123), Instr::Unrecognized(0x0123));
    assert_eq!(decode(0xE2FF), Instr::Unrecognized(0xE2FF));
    assert_eq!(decode(0xF3FF), Instr::Unrecognized(0xF3FF));
}

#[test]
fn addition_sets_carry() {
    let mut m = boot();
    m.execute(0x60FF, None).unwrap();
    m.execute(0x6102, None).unwrap();
    m.execute(0x8014, None).unwrap();
    assert_eq!(m.reg(0), 0x01);
    assert_eq!(m.reg(0xF), 1);

    let mut m = boot();
    m.execute(0x6001, None).unwrap();
    m.execute(0x6101, None).unwrap();
    m.execute(0x8014, None).unwrap();
    assert_eq!(m.reg(0), 0x02);
    assert_eq!(m.reg(0xF), 0);
}

#[test]
fn subtraction_sets_borrow_flag() {
    let mut m = boot();
    m.execute(0x6005, None).unwrap();
    m.execute(0x6109, None).unwrap();
    m.execute(0x8015, None).unwrap();
    assert_eq!(m.reg(0), 0xFC);
    assert_eq!(m.reg(0xF), 0);

    let mut m = boot();
    m.execute(0x6009, None).unwrap();
    m.execute(0x6105, None).unwrap();
    m.execute(0x8015, None).unwrap();
    assert_eq!(m.reg(0), 0x04);
    assert_eq!(m.reg(0xF), 1);
}

#[test]
fn subn_reverses_operands() {
    let mut m = boot();
    m.execute(0x6005, None).unwrap();
    m.execute(0x6109, None).unwrap();
    m.execute(0x8017, None).unwrap();
    assert_eq!(m.reg(0), 0x04);
    assert_eq!(m.reg(0xF), 1);
}

#[test]
fn shifts_report_ejected_bit() {
    let mut m = boot();
    m.execute(0x6093, None).unwrap();
    m.execute(0x8006, None).unwrap();
    assert_eq!(m.reg(0), 0x49);
    assert_eq!(m.reg(0xF), 1);

    let mut m = boot();
    m.execute(0x6093, None).unwrap();
    m.execute(0x800E, None).unwrap();
    assert_eq!(m.reg(0), 0x26);
    assert_eq!(m.reg(0xF), 1);

    let mut m = boot();
    m.execute(0x6070, None).unwrap();
    m.execute(0x800E, None).unwrap();
    assert_eq!(m.reg(0), 0xE0);
    assert_eq!(m.reg(0xF), 0);
}

#[test]
fn add_immediate_leaves_flag_alone() {
    let mut m = boot();
    m.execute(0x60FF, None).unwrap();
    m.execute(0x70FF, None).unwrap();
    assert_eq!(m.reg(0), 0xFE);
    assert_eq!(m.reg(0xF), 0);
}

#[test]
fn logic_ops() {
    let mut m = boot();
    m.execute(0x60F0, None).unwrap();
    m.execute(0x613C, None).unwrap();
    m.execute(0x8011, None).unwrap();
    assert_eq!(m.reg(0), 0xFC);
    m.execute(0x60F0, None).unwrap();
    m.execute(0x8012, None).unwrap();
    assert_eq!(m.reg(0), 0x30);
    m.execute(0x60F0, None).unwrap();
    m.execute(0x8013, None).unwrap();
    assert_eq!(m.reg(0), 0xCC);
    m.execute(0x8010, None).unwrap();
    assert_eq!(m.reg(0), 0x3C);
}

#[test]
fn bcd_store() {
    let mut m = boot();
    m.execute(0x609D, None).unwrap();
    m.execute(0xA300, None).unwrap();
    m.execute(0xF033, None).unwrap();
    assert_eq!(m.ram_at(0x300), 1);
    assert_eq!(m.ram_at(0x301), 5);
    assert_eq!(m.ram_at(0x302), 7);
}

#[test]
fn dump_then_load_roundtrip_all_registers() {
    let mut m = boot();
    for x in 0u16..16 {
        // VX = 3 * X + 7
        let nn = (3 * x + 7) as u16;
        m.execute(0x6000 | (x << 8) | nn, None).unwrap();
    }
    m.execute(0xA400, None).unwrap();
    m.execute(0xFF55, None).unwrap();
    for x in 0u16..16 {
        m.execute(0x6000 | (x << 8), None).unwrap();
        assert_eq!(m.reg(x as usize), 0);
    }
    m.execute(0xFF65, None).unwrap();
    for x in 0u16..16 {
        assert_eq!(m.reg(x as usize), (3 * x + 7) as u8);
    }
}

#[test]
fn call_then_ret_restores_pc_and_sp() {
    let mut m = boot();
    assert_eq!(m.pc(), 0x200);
    m.execute(0x2300, None).unwrap();
    assert_eq!(m.pc(), 0x300);
    assert_eq!(m.sp(), 1);
    m.execute(0x00EE, None).unwrap();
    assert_eq!(m.pc(), 0x202);
    assert_eq!(m.sp(), 0);
}

#[test]
fn call_depth_sixteen_ok_seventeen_overflows() {
    let mut m = boot();
    for depth in 1..=16 {
        m.execute(0x2300, None).unwrap();
        assert_eq!(m.sp(), depth);
    }
    let pc_before = m.pc();
    let r = m.execute(0x2300, None);
    assert_eq!(r, Err(Chip8Error::StackOverflow));
    assert_eq!(m.sp(), 16);
    assert_eq!(m.pc(), pc_before);
}

#[test]
fn ret_on_empty_stack_underflows() {
    let mut m = boot();
    let r = m.execute(0x00EE, None);
    assert_eq!(r, Err(Chip8Error::StackUnderflow));
    assert_eq!(m.pc(), 0x200);
    assert_eq!(m.sp(), 0);
}

#[test]
fn skip_if_equal_bypasses_exactly_one_instruction() {
    let mut m = boot();
    m.execute(0x6042, None).unwrap();
    assert_eq!(m.pc(), 0x202);
    m.execute(0x3042, None).unwrap();
    assert_eq!(m.pc(), 0x206);

    let mut m = boot();
    m.execute(0x3042, None).unwrap();
    assert_eq!(m.pc(), 0x202);
}

#[test]
fn skip_if_not_equal_and_register_skips() {
    let mut m = boot();
    m.execute(0x4042, None).unwrap();
    assert_eq!(m.pc(), 0x204);
    m.execute(0x6107, None).unwrap();
    m.execute(0x6207, None).unwrap();
    let pc = m.pc();
    m.execute(0x5120, None).unwrap();
    assert_eq!(m.pc(), pc + 4);
    let pc = m.pc();
    m.execute(0x9120, None).unwrap();
    assert_eq!(m.pc(), pc + 2);
}

#[test]
fn delay_timer_counts_down_and_stops_at_zero() {
    let mut m = boot();
    m.execute(0x6005, None).unwrap();
    m.execute(0xF015, None).unwrap();
    assert_eq!(m.delay(), 5);
    for _ in 0..5 {
        m.tick_timers();
    }
    assert_eq!(m.delay(), 0);
    m.tick_timers();
    assert_eq!(m.delay(), 0);
}

#[test]
fn sound_timer_beeps_once_on_one_to_zero() {
    let mut m = boot();
    m.execute(0x6002, None).unwrap();
    m.execute(0xF018, None).unwrap();
    assert_eq!(m.sound(), 2);
    assert!(!m.tick_timers());
    assert!(m.tick_timers());
    assert!(!m.tick_timers());
    assert_eq!(m.sound(), 0);
}

#[test]
fn get_delay_reads_timer() {
    let mut m = boot();
    m.execute(0x6207, None).unwrap();
    m.execute(0xF215, None).unwrap();
    m.execute(0xF107, None).unwrap();
    assert_eq!(m.reg(1), 7);
}

#[test]
fn unrecognized_word_changes_nothing() {
    let mut m = boot();
    m.execute(0x6042, None).unwrap();
    m.execute(0xA123, None).unwrap();
    let pc = m.pc();
    let sp = m.sp();
    let i = m.index();
    let v0 = m.reg(0);
    let ram0 = m.ram_at(0);
    let ram512 = m.ram_at(0x200);
    let sig = m.execute(0xFFFF, None).unwrap();
    assert!(sig.unrecognized);
    assert!(!sig.redraw);
    assert!(!sig.awaiting_input);
    assert_eq!(m.pc(), pc);
    assert_eq!(m.sp(), sp);
    assert_eq!(m.index(), i);
    assert_eq!(m.reg(0), v0);
    assert_eq!(m.ram_at(0), ram0);
    assert_eq!(m.ram_at(0x200), ram512);
}

#[test]
fn load_game_copies_verbatim() {
    let mut m = boot();
    m.load_game(&[0xDE, 0xAD, 0xBE]).unwrap();
    assert_eq!(m.ram_at(0x200), 0xDE);
    assert_eq!(m.ram_at(0x201), 0xAD);
    assert_eq!(m.ram_at(0x202), 0xBE);
    assert_eq!(m.ram_at(0x203), 0);
}

#[test]
fn load_game_rejects_oversize_image() {
    let mut m = boot();
    let big = vec![0u8; 3585];
    assert_eq!(m.load_game(&big), Err(Chip8Error::OversizeProgram));
    assert_eq!(m.ram_at(0x200), 0);
    let exact = vec![7u8; 3584];
    assert!(m.load_game(&exact).is_ok());
    assert_eq!(m.ram_at(0xFFF), 7);
}

#[test]
fn initialize_seeds_font_and_resets_pc() {
    let mut m = Chip8::new();
    m.initialize();
    assert_eq!(m.pc(), 0x200);
    assert_eq!(m.ram_at(0), 0xF0);
    assert_eq!(m.ram_at(4), 0xF0);
    assert_eq!(m.ram_at(5), 0x20);
    assert_eq!(m.ram_at(79), 0x80);
    assert_eq!(m.ram_at(80), 0);
}

#[test]
fn font_addr_points_at_glyph() {
    let mut m = boot();
    m.execute(0x600A, None).unwrap();
    m.execute(0xF029, None).unwrap();
    assert_eq!(m.index(), 50);
}

#[test]
fn random_masks_drawn_byte() {
    let mut m = boot();
    m.execute(0xC0FF, Some(0xAB)).unwrap();
    assert_eq!(m.reg(0), 0xAB);
    m.execute(0xC10F, Some(0xAB)).unwrap();
    assert_eq!(m.reg(1), 0x0B);
    m.execute(0xC200, Some(0xAB)).unwrap();
    assert_eq!(m.reg(2), 0x00);
}

#[test]
fn entropy_provider_replays_fixed_sequence() {
    let mut r = chip8::rand::Rand::new(vec![1, 2]);
    assert_eq!(r.remaining(), 2);
    assert_eq!(r.random_u8(), Some(1));
    assert_eq!(r.random_u8(), Some(2));
    assert_eq!(r.random_u8(), None);
    assert_eq!(r.remaining(), 0);
}

#[test]
fn random_draws_through_injected_provider() {
    let mut r = chip8::rand::Rand::new(vec![0xAB]);
    let mut m = boot();
    m.execute(0xC00F, r.random_u8()).unwrap();
    assert_eq!(m.reg(0), 0x0B);
    assert_eq!(m.execute(0xC00F, r.random_u8()), Err(Chip8Error::EntropyUnavailable));
}

#[test]
fn random_without_entropy_is_reported() {
    let mut m = boot();
    let pc = m.pc();
    assert_eq!(m.execute(0xC0FF, None), Err(Chip8Error::EntropyUnavailable));
    assert_eq!(m.pc(), pc);
    assert_eq!(m.reg(0), 0);
}

#[test]
fn wait_key_suspends_until_key_down() {
    let mut m = boot();
    let sig = m.execute(0xF00A, None).unwrap();
    assert!(sig.awaiting_input);
    assert_eq!(m.pc(), 0x200);
    let sig = m.execute(0xF00A, None).unwrap();
    assert!(sig.awaiting_input);
    assert_eq!(m.pc(), 0x200);
    m.set_keys(7, true);
    let sig = m.execute(0xF00A, None).unwrap();
    assert!(!sig.awaiting_input);
    assert_eq!(m.reg(0), 7);
    assert_eq!(m.pc(), 0x202);
}

#[test]
fn keymask_tracks_host_updates() {
    let mut m = boot();
    m.set_keys(4, true);
    m.set_keys(9, true);
    assert_eq!(m.keys(), (1 << 4) | (1 << 9));
    m.set_keys(4, false);
    assert_eq!(m.keys(), 1 << 9);
}

#[test]
fn skip_key_follows_keymask() {
    let mut m = boot();
    m.set_keys(4, true);
    m.execute(0x6004, None).unwrap();
    let pc = m.pc();
    m.execute(0xE09E, None).unwrap();
    assert_eq!(m.pc(), pc + 4);
    let pc = m.pc();
    m.execute(0xE0A1, None).unwrap();
    assert_eq!(m.pc(), pc + 2);
    m.set_keys(4, false);
    let pc = m.pc();
    m.execute(0xE09E, None).unwrap();
    assert_eq!(m.pc(), pc + 2);
    let pc = m.pc();
    m.execute(0xE0A1, None).unwrap();
    assert_eq!(m.pc(), pc + 4);
}

#[test]
fn jumps_set_pc_directly() {
    let mut m = boot();
    m.execute(0x1234, None).unwrap();
    assert_eq!(m.pc(), 0x234);
    m.execute(0x6010, None).unwrap();
    m.execute(0xB234, None).unwrap();
    assert_eq!(m.pc(), 0x244);
}

#[test]
fn add_index_wraps_without_carry_report() {
    let mut m = boot();
    m.execute(0xAFFF, None).unwrap();
    m.execute(0x60FF, None).unwrap();
    m.execute(0xF01E, None).unwrap();
    assert_eq!(m.index(), 0x10FE);
    assert_eq!(m.reg(0xF), 0);
}

#[test]
fn draw_blits_glyph_and_reports_collision_on_redraw() {
    let mut m = boot();
    m.execute(0xA000, None).unwrap();
    let sig = m.execute(0xD014, None).unwrap();
    assert!(sig.redraw);
    assert!(m.take_dirty());
    assert!(!m.take_dirty());
    // glyph 0 row 0 is 0xF0: leftmost four pixels set
    assert_eq!(m.pixel(0, 0), 1);
    assert_eq!(m.pixel(3, 0), 1);
    assert_eq!(m.pixel(4, 0), 0);
    // row 1 is 0x90
    assert_eq!(m.pixel(0, 1), 1);
    assert_eq!(m.pixel(1, 1), 0);
    assert_eq!(m.pixel(3, 1), 1);
    assert_eq!(m.reg(0xF), 0);
    // drawing the same glyph again erases it and reports the collision
    m.execute(0xD014, None).unwrap();
    assert_eq!(m.reg(0xF), 1);
    for col in 0..8 {
        for row in 0..5 {
            assert_eq!(m.pixel(col, row), 0);
        }
    }
}

#[test]
fn draw_wraps_on_both_axes() {
    let mut m = boot();
    m.load_game(&[0xFF, 0xFF]).unwrap();
    m.execute(0xA200, None).unwrap();
    m.execute(0x603E, None).unwrap();
    m.execute(0x611E, None).unwrap();
    m.execute(0xD011, None).unwrap();
    assert_eq!(m.pixel(62, 30), 1);
    assert_eq!(m.pixel(63, 31), 1);
    assert_eq!(m.pixel(0, 30), 1);
    assert_eq!(m.pixel(5, 31), 1);
    assert_eq!(m.pixel(6, 30), 0);
    assert_eq!(m.pixel(62, 0), 0);
}

#[test]
fn clear_screen_wipes_buffer() {
    let mut m = boot();
    m.execute(0xA000, None).unwrap();
    m.execute(0xD014, None).unwrap();
    assert_eq!(m.pixel(0, 0), 1);
    let sig = m.execute(0x00E0, None).unwrap();
    assert!(sig.redraw);
    assert_eq!(m.pixel(0, 0), 0);
    assert_eq!(m.pixel(3, 4), 0);
}

#[test]
fn fetch_opcode_reads_big_endian() {
    let mut m = boot();
    m.load_game(&[0xAB, 0xCD]).unwrap();
    assert_eq!(m.fetch_opcode(), 0xABCD);
}

#[test]
fn step_fetches_decodes_and_executes() {
    let mut m = boot();
    m.load_game(&[0x60, 0x2A, 0x70, 0x01]).unwrap();
    m.step(None).unwrap();
    assert_eq!(m.reg(0), 0x2A);
    assert_eq!(m.pc(), 0x202);
    m.step(None).unwrap();
    assert_eq!(m.reg(0), 0x2B);
    assert_eq!(m.pc(), 0x204);
}

#[test]
fn next_advances_pc_by_two() {
    let mut m = boot();
    m.next();
    assert_eq!(m.pc(), 0x202);
}

#[test]
fn mov_and_set_index() {
    let mut m = boot();
    m.execute(0x6399, None).unwrap();
    m.execute(0x8430, None).unwrap();
    assert_eq!(m.reg(4), 0x99);
    m.execute(0xA7D4, None).unwrap();
    assert_eq!(m.index(), 0x7D4);
}
