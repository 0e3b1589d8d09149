use chip8emu::opcode::{DecodeError, OpcodeKind};
use chip8emu::timer::{DelayTimer, SoundTimer, WAIT_TIME_NS};
use chip8emu::{Cpu, CpuState, Fault, KeyCode, Mode, DISPLAY_WIDTH};

fn program(words: &[u16]) -> Vec<u8> {
    words.iter().flat_map(|w| w.to_be_bytes()).collect()
}

fn loaded(mode: Mode, words: &[u16]) -> Cpu {
    let mut cpu = Cpu::with_mode(mode);
    cpu.load_game(&program(words)).unwrap();
    cpu
}

fn run(cpu: &mut Cpu, cycles: usize) {
    for _ in 0..cycles {
        cpu.execute_cycle().unwrap();
    }
}

#[test]
fn power_on_state() {
    let cpu = Cpu::new();
    assert_eq!(cpu.pc(), 0x200);
    assert_eq!(cpu.index(), 0x50);
    assert_eq!(cpu.state(), CpuState::Running);
    assert_eq!(cpu.mode(), Mode::Modern);
    assert!(cpu.get_vram().iter().all(|&p| !p));
    for x in 0..16 {
        assert_eq!(cpu.register(x), 0);
    }
}

#[test]
fn add_sets_flag_on_overflow() {
    // V0 = 0xF0, V1 = 0x20, V0 += V1
    let mut cpu = loaded(Mode::Modern, &[0x60F0, 0x6120, 0x8014]);
    run(&mut cpu, 3);
    assert_eq!(cpu.register(0), 0x10);
    assert_eq!(cpu.register(0xF), 1);
}

#[test]
fn add_clears_flag_without_overflow() {
    let mut cpu = loaded(Mode::Modern, &[0x6F01, 0x6010, 0x6120, 0x8014]);
    run(&mut cpu, 4);
    assert_eq!(cpu.register(0), 0x30);
    assert_eq!(cpu.register(0xF), 0);
}

#[test]
fn add_byte_wraps_without_flag() {
    let mut cpu = loaded(Mode::Modern, &[0x60FF, 0x7002]);
    run(&mut cpu, 2);
    assert_eq!(cpu.register(0), 1);
    assert_eq!(cpu.register(0xF), 0);
}

#[test]
fn subtract_flag_both_orders() {
    // SUB V0, V1 with V0 = 5, V1 = 3: no borrow.
    let mut cpu = loaded(Mode::Modern, &[0x6005, 0x6103, 0x8015]);
    run(&mut cpu, 3);
    assert_eq!(cpu.register(0), 2);
    assert_eq!(cpu.register(0xF), 1);

    // SUB V0, V1 with V0 = 3, V1 = 5: borrow.
    let mut cpu = loaded(Mode::Modern, &[0x6003, 0x6105, 0x8015]);
    run(&mut cpu, 3);
    assert_eq!(cpu.register(0), 0xFE);
    assert_eq!(cpu.register(0xF), 0);

    // SUBN V0, V1 (V1 - V0) with V0 = 3, V1 = 5: no borrow.
    let mut cpu = loaded(Mode::Modern, &[0x6003, 0x6105, 0x8017]);
    run(&mut cpu, 3);
    assert_eq!(cpu.register(0), 2);
    assert_eq!(cpu.register(0xF), 1);

    // SUBN V0, V1 with V0 = 5, V1 = 3: borrow.
    let mut cpu = loaded(Mode::Modern, &[0x6005, 0x6103, 0x8017]);
    run(&mut cpu, 3);
    assert_eq!(cpu.register(0), 0xFE);
    assert_eq!(cpu.register(0xF), 0);
}

#[test]
fn shift_reads_vx_in_modern_mode() {
    // V0 = 0x03, V1 = 0x80, SHR V0 {, V1}
    let mut cpu = loaded(Mode::Modern, &[0x6003, 0x6180, 0x8016]);
    run(&mut cpu, 3);
    assert_eq!(cpu.register(0), 0x01);
    assert_eq!(cpu.register(0xF), 1);

    let mut cpu = loaded(Mode::Modern, &[0x6081, 0x6101, 0x801E]);
    run(&mut cpu, 3);
    assert_eq!(cpu.register(0), 0x02);
    assert_eq!(cpu.register(0xF), 1);
}

#[test]
fn shift_reads_vy_in_classic_mode() {
    let mut cpu = loaded(Mode::Classic, &[0x6003, 0x6180, 0x8016]);
    run(&mut cpu, 3);
    assert_eq!(cpu.register(0), 0x40);
    assert_eq!(cpu.register(0xF), 0);

    let mut cpu = loaded(Mode::Classic, &[0x6001, 0x6181, 0x801E]);
    run(&mut cpu, 3);
    assert_eq!(cpu.register(0), 0x02);
    assert_eq!(cpu.register(0xF), 1);
}

#[test]
fn key_wait_pauses_then_resumes() {
    // LD V3, K ; LD V4, 0x11
    let mut cpu = loaded(Mode::Modern, &[0xF30A, 0x6411]);
    assert_eq!(cpu.execute_cycle(), Ok(false));
    assert_eq!(cpu.state(), CpuState::Paused);
    assert_eq!(cpu.pc(), 0x200);

    cpu.set_key_state(KeyCode::K7, true);
    cpu.set_state(CpuState::Running);
    assert_eq!(cpu.execute_cycle(), Ok(false));
    assert_eq!(cpu.state(), CpuState::Running);
    assert_eq!(cpu.register(3), 7);
    assert_eq!(cpu.pc(), 0x202);
    run(&mut cpu, 1);
    assert_eq!(cpu.register(4), 0x11);
}

#[test]
fn key_wait_takes_lowest_key() {
    let mut cpu = loaded(Mode::Modern, &[0xF00A]);
    cpu.set_key_state(KeyCode::KC, true);
    cpu.set_key_state(KeyCode::K2, true);
    run(&mut cpu, 1);
    assert_eq!(cpu.register(0), 2);
}

#[test]
fn default_program_draws_glyph_on_first_redraw() {
    // LD I, 0x050 ; LD V0, 0 ; DRW V0, V0, 5 ; JP 0x206
    let mut cpu = loaded(Mode::Modern, &[0xA050, 0x6000, 0xD005, 0x1206]);
    let mut redraws = 0;
    let mut first = None;
    for _ in 0..10 {
        if cpu.execute_cycle().unwrap() {
            redraws += 1;
            if first.is_none() {
                first = Some(cpu.get_vram().to_vec());
            }
        }
    }
    assert_eq!(redraws, 1);
    let vram = first.unwrap();
    let rows = [0xF0u8, 0x90, 0x90, 0x90, 0xF0];
    let w = usize::from(DISPLAY_WIDTH);
    for (y, row) in rows.iter().enumerate() {
        for x in 0..8 {
            assert_eq!(vram[x + y * w], row & (0x80 >> x) != 0);
        }
    }
    assert_eq!(vram.iter().filter(|&&p| p).count(), 4 + 2 + 2 + 2 + 4);
    assert_eq!(cpu.register(0xF), 0);
}

#[test]
fn draw_twice_collides_and_clears() {
    let mut cpu = loaded(Mode::Modern, &[0xA050, 0xD005, 0xD005]);
    run(&mut cpu, 2);
    assert_eq!(cpu.register(0xF), 0);
    assert_eq!(cpu.execute_cycle(), Ok(true));
    assert_eq!(cpu.register(0xF), 1);
    assert!(cpu.get_vram().iter().all(|&p| !p));
}

#[test]
fn call_and_return() {
    // CALL 0x206 ; LD V1, 1 ; JP 0x204 ; (0x206) LD V0, 9 ; RET
    let mut cpu = loaded(Mode::Modern, &[0x2206, 0x6101, 0x1204, 0x6009, 0x00EE]);
    run(&mut cpu, 1);
    assert_eq!(cpu.pc(), 0x206);
    run(&mut cpu, 2);
    assert_eq!(cpu.pc(), 0x202);
    run(&mut cpu, 1);
    assert_eq!(cpu.register(0), 9);
    assert_eq!(cpu.register(1), 1);
}

#[test]
fn skips_follow_equality() {
    // V0 = 5 ; SE V0, 5 (skips) ; LD V1, 1 (skipped) ; SNE V0, 5 (no skip) ; LD V2, 2
    let mut cpu = loaded(Mode::Modern, &[0x6005, 0x3005, 0x6101, 0x4005, 0x6202]);
    run(&mut cpu, 4);
    assert_eq!(cpu.register(1), 0);
    assert_eq!(cpu.register(2), 2);
}

#[test]
fn skip_on_key_state() {
    // V0 = 4 ; SKP V0 ; LD V1, 1 ; SKNP V0 ; LD V2, 2
    let mut cpu = loaded(Mode::Modern, &[0x6004, 0xE09E, 0x6101, 0xE0A1, 0x6202]);
    cpu.set_key_state(KeyCode::K4, true);
    run(&mut cpu, 4);
    assert_eq!(cpu.register(1), 0);
    assert_eq!(cpu.register(2), 2);
}

#[test]
fn jump_with_offset_depends_on_mode() {
    // V0 = 4, V3 = 8, then B300: from V3 in modern mode, from V0 in classic.
    let mut cpu = loaded(Mode::Modern, &[0x6004, 0x6308, 0xB300]);
    run(&mut cpu, 3);
    assert_eq!(cpu.pc(), 0x308);
    let mut cpu = loaded(Mode::Classic, &[0x6004, 0x6308, 0xB300]);
    run(&mut cpu, 3);
    assert_eq!(cpu.pc(), 0x304);
}

#[test]
fn bitwise_ops() {
    let mut cpu = loaded(Mode::Modern, &[0x600C, 0x610A, 0x8011, 0x620C, 0x8212, 0x630C, 0x8313, 0x6477, 0x8540]);
    run(&mut cpu, 9);
    assert_eq!(cpu.register(0), 0x0E);
    assert_eq!(cpu.register(2), 0x08);
    assert_eq!(cpu.register(3), 0x06);
    assert_eq!(cpu.register(5), 0x77);
}

#[test]
fn bcd_and_register_dump_and_load() {
    // V0 = 254 ; I = 0x300 ; LD B, V0 ; LD V2, [I]
    let mut cpu = loaded(Mode::Modern, &[0x60FE, 0xA300, 0xF033, 0xF265]);
    run(&mut cpu, 4);
    assert_eq!(cpu.register(0), 2);
    assert_eq!(cpu.register(1), 5);
    assert_eq!(cpu.register(2), 4);
    assert_eq!(cpu.index(), 0x300);

    // Classic mode advances I past the block.
    let mut cpu = loaded(Mode::Classic, &[0x6011, 0x6122, 0xA300, 0xF155, 0xA300, 0x6000, 0x6100, 0xF165]);
    run(&mut cpu, 4);
    assert_eq!(cpu.index(), 0x302);
    run(&mut cpu, 4);
    assert_eq!(cpu.register(0), 0x11);
    assert_eq!(cpu.register(1), 0x22);
    assert_eq!(cpu.index(), 0x302);
}

#[test]
fn font_and_index_add() {
    let mut cpu = loaded(Mode::Modern, &[0x600B, 0xF029, 0x6104, 0xF11E]);
    run(&mut cpu, 2);
    assert_eq!(cpu.index(), 0x50 + 5 * 0xB);
    run(&mut cpu, 2);
    assert_eq!(cpu.index(), 0x50 + 5 * 0xB + 4);
    assert_eq!(cpu.register(0xF), 0);

    // Modern mode wraps I round memory and flags it.
    let mut cpu = loaded(Mode::Modern, &[0xAFFF, 0x6002, 0xF01E]);
    run(&mut cpu, 3);
    assert_eq!(cpu.index(), 1);
    assert_eq!(cpu.register(0xF), 1);

    // Classic mode masks the font digit.
    let mut cpu = loaded(Mode::Classic, &[0x601B, 0xF029]);
    run(&mut cpu, 2);
    assert_eq!(cpu.index(), 0x50 + 5 * 0xB);
}

#[test]
fn timers_are_set_from_registers() {
    let mut cpu = loaded(Mode::Modern, &[0x6003, 0xF018]);
    run(&mut cpu, 2);
    // Set to 3, then counted down once at the end of that cycle.
    assert!(cpu.is_sounding());

    let mut cpu = loaded(Mode::Modern, &[0x6000, 0xF015, 0xF107]);
    run(&mut cpu, 3);
    assert_eq!(cpu.register(1), 0);
}

#[test]
fn random_is_masked() {
    let mut cpu = loaded(Mode::Modern, &[0x6577, 0xC500, 0xC60F]);
    run(&mut cpu, 3);
    assert_eq!(cpu.register(5), 0);
    assert!(cpu.register(6) <= 0x0F);
}

#[test]
fn execute_is_exact_for_given_random_byte() {
    let mut cpu = Cpu::new();
    cpu.execute(OpcodeKind::Random { x: 2, byte: 0x3C }, 0xA5, 0).unwrap();
    assert_eq!(cpu.register(2), 0x24);
}

#[test]
fn execute_reads_delay_after_elapsed_time() {
    let mut cpu = Cpu::new();
    cpu.execute(OpcodeKind::LoadVxByte { x: 0, byte: 10 }, 0, 0).unwrap();
    cpu.execute(OpcodeKind::StoreDT { x: 0 }, 0, 0).unwrap();
    cpu.execute(OpcodeKind::LoadDT { x: 1 }, 0, 3 * u128::from(WAIT_TIME_NS) + 5).unwrap();
    assert_eq!(cpu.register(1), 7);
    cpu.execute(OpcodeKind::LoadDT { x: 1 }, 0, 100 * u128::from(WAIT_TIME_NS)).unwrap();
    assert_eq!(cpu.register(1), 0);
}

#[test]
fn delay_timer_counts_whole_units() {
    let mut t = DelayTimer::new();
    t.store(5);
    assert_eq!(t.advance(u128::from(WAIT_TIME_NS) - 1), 5);
    assert_eq!(t.advance(2 * u128::from(WAIT_TIME_NS)), 3);
    assert_eq!(t.advance(u128::MAX), 0);
    t.store(0);
    assert_eq!(t.load(), 0);
}

#[test]
fn sound_timer_saturates() {
    let mut s = SoundTimer::new();
    s.store(2);
    s.decrease();
    assert!(s.is_sounding());
    s.decrease();
    assert!(!s.is_sounding());
    s.decrease();
    assert!(!s.is_sounding());
}

#[test]
fn fault_on_legacy_and_unknown_words() {
    let mut cpu = loaded(Mode::Modern, &[0x0123]);
    assert_eq!(cpu.execute_cycle(), Err(Fault::Decode(DecodeError::Sys(0x0123))));
    let mut cpu = loaded(Mode::Modern, &[0x5121]);
    assert_eq!(cpu.execute_cycle(), Err(Fault::Decode(DecodeError::Unknown(0x5121))));
    let mut cpu = loaded(Mode::Modern, &[0xF0FF]);
    assert_eq!(cpu.execute_cycle(), Err(Fault::Decode(DecodeError::Unknown(0xF0FF))));
}

#[test]
fn fault_on_stack_misuse() {
    let mut cpu = loaded(Mode::Modern, &[0x00EE]);
    assert_eq!(cpu.execute_cycle(), Err(Fault::StackUnderflow));
    let mut cpu = loaded(Mode::Modern, &[0x2200]);
    run(&mut cpu, 16);
    assert_eq!(cpu.execute_cycle(), Err(Fault::StackOverflow));
}

#[test]
fn fault_on_jump_out_of_program_area() {
    let mut cpu = loaded(Mode::Modern, &[0x1100]);
    assert_eq!(cpu.execute_cycle(), Err(Fault::PcOutOfRange(0x100)));
    let mut cpu = loaded(Mode::Modern, &[0x1F00]);
    assert_eq!(cpu.execute_cycle(), Err(Fault::PcOutOfRange(0xF00)));
}

#[test]
fn fault_on_index_and_memory_range() {
    let mut cpu = loaded(Mode::Classic, &[0xAFFF, 0x6001, 0xF01E]);
    run(&mut cpu, 2);
    assert_eq!(cpu.execute_cycle(), Err(Fault::IndexOutOfRange(0x1000)));
    let mut cpu = loaded(Mode::Modern, &[0xAFFF, 0xF033]);
    run(&mut cpu, 1);
    assert_eq!(cpu.execute_cycle(), Err(Fault::MemoryOutOfRange(0xFFF)));
    let mut cpu = loaded(Mode::Modern, &[0xAFFE, 0xD005]);
    run(&mut cpu, 1);
    assert_eq!(cpu.execute_cycle(), Err(Fault::MemoryOutOfRange(0xFFE)));
}

#[test]
fn fault_on_bad_operands() {
    let mut cpu = loaded(Mode::Modern, &[0x6010, 0xF029]);
    run(&mut cpu, 1);
    assert_eq!(cpu.execute_cycle(), Err(Fault::FontDigit(0x10)));
    let mut cpu = loaded(Mode::Modern, &[0x6001, 0xF018]);
    run(&mut cpu, 1);
    assert_eq!(cpu.execute_cycle(), Err(Fault::SoundTooShort(1)));
    let mut cpu = loaded(Mode::Modern, &[0x6010, 0xE09E]);
    run(&mut cpu, 1);
    assert_eq!(cpu.execute_cycle(), Err(Fault::BadKey(0x10)));
}

#[test]
fn extended_mode_has_large_screen() {
    let mut cpu = loaded(Mode::Extended, &[0x607F, 0x6100, 0xA050, 0xD011]);
    assert_eq!(cpu.display_width(), 128);
    assert_eq!(cpu.display_height(), 64);
    run(&mut cpu, 4);
    // Column 127 of row 0 is lit; the rest of the glyph row is clipped.
    assert!(cpu.get_vram()[127]);
    assert_eq!(cpu.get_vram().iter().filter(|&&p| p).count(), 1);
}

#[test]
fn reset_returns_to_power_on() {
    let mut cpu = loaded(Mode::Modern, &[0x6042, 0xA050, 0xD005]);
    run(&mut cpu, 3);
    cpu.reset();
    assert_eq!(cpu.register(0), 0);
    assert_eq!(cpu.pc(), 0x200);
    assert_eq!(cpu.index(), 0x50);
    assert!(cpu.get_vram().iter().all(|&p| !p));
}

#[test]
fn load_game_boundary() {
    let mut cpu = Cpu::new();
    assert!(cpu.load_game(&vec![0u8; 0xEA0 - 0x200]).is_err());
    assert!(cpu.load_game(&vec![0u8; 0xEA0 - 0x200 - 1]).is_ok());
}

#[test]
fn fault_leaves_state_unchanged() {
    // Sixteen calls fill the stack; the seventeenth faults and changes nothing.
    let mut cpu = loaded(Mode::Modern, &[0x2200]);
    run(&mut cpu, 16);
    assert_eq!(cpu.pc(), 0x200);
    assert_eq!(cpu.execute_cycle(), Err(Fault::StackOverflow));
    assert_eq!(cpu.pc(), 0x200);
    assert_eq!(cpu.execute_cycle(), Err(Fault::StackOverflow));

    // A word that does not decode leaves pc on it.
    let mut cpu = loaded(Mode::Modern, &[0x6001, 0x5121]);
    run(&mut cpu, 1);
    assert_eq!(cpu.execute_cycle(), Err(Fault::Decode(DecodeError::Unknown(0x5121))));
    assert_eq!(cpu.pc(), 0x202);
    assert_eq!(cpu.register(0), 1);
}

#[test]
fn call_out_of_range_keeps_stack() {
    // A call to an address outside the program area pushes nothing:
    // the following return still underflows.
    let mut cpu = Cpu::new();
    assert_eq!(cpu.execute(OpcodeKind::Call { addr: 0x100 }, 0, 0), Err(Fault::PcOutOfRange(0x100)));
    assert_eq!(cpu.execute(OpcodeKind::Ret, 0, 0), Err(Fault::StackUnderflow));
    assert_eq!(cpu.pc(), 0x200);
}

#[test]
fn delay_read_of_zero_timer_is_zero() {
    let mut cpu = Cpu::new();
    cpu.execute(OpcodeKind::LoadVxByte { x: 1, byte: 9 }, 0, 0).unwrap();
    cpu.execute(OpcodeKind::LoadDT { x: 1 }, 0, 1_000 * u128::from(WAIT_TIME_NS)).unwrap();
    assert_eq!(cpu.register(1), 0);
}

#[test]
fn same_program_redraws_the_same_way() {
    // LD I, 0x05A (glyph 2) ; LD V0, 3 ; LD V1, 4 ; DRW V0, V1, 5 ; JP 0x208
    let words = [0xA05A, 0x6003, 0x6104, 0xD015, 0x1208];
    let first_redraw = |cpu: &mut Cpu| -> (usize, Vec<bool>) {
        for n in 1..20 {
            if cpu.execute_cycle().unwrap() {
                return (n, cpu.get_vram().to_vec());
            }
        }
        panic!("no redraw");
    };
    let a = first_redraw(&mut loaded(Mode::Modern, &words));
    let b = first_redraw(&mut loaded(Mode::Modern, &words));
    assert_eq!(a.0, 4);
    assert_eq!(a, b);
    let w = usize::from(DISPLAY_WIDTH);
    // Top row of the glyph 2 (0xF0) starts at column 3 of row 4.
    assert!(a.1[3 + 4 * w] && a.1[6 + 4 * w] && !a.1[7 + 4 * w]);
}

#[test]
fn classic_font_masks_high_digits() {
    let mut cpu = Cpu::with_mode(Mode::Classic);
    cpu.execute(OpcodeKind::LoadVxByte { x: 0, byte: 0x2F }, 0, 0).unwrap();
    cpu.execute(OpcodeKind::LoadFont { x: 0 }, 0, 0).unwrap();
    assert_eq!(cpu.index(), 0x50 + 5 * 0xF);
}
