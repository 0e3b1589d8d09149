use chip8emu::memory::{bcd, fonts_set, LoadError, Memory, AVAILABLE_STORAGE, FONTS_SET_ADDR, ROM_START_ADDR};
use chip8emu::opcode::{OpcodeKind, Opcode};

#[test]
fn test_bcd() {
    assert_eq!(bcd(0), [0, 0, 0]);
    assert_eq!(bcd(5), [0, 0, 5]);
    assert_eq!(bcd(12), [0, 1, 2]);
    assert_eq!(bcd(123), [1, 2, 3]);
}

#[test]
fn bcd_of_largest_byte() {
    assert_eq!(bcd(255), [2, 5, 5]);
    assert_eq!(bcd(100), [1, 0, 0]);
}

#[test]
fn load_program_of_available_size_is_refused() {
    let mut memory = Memory::new();
    let text = vec![0xAAu8; AVAILABLE_STORAGE as usize];
    assert_eq!(memory.load_program(&text), Err(LoadError::RomTooBig(AVAILABLE_STORAGE as usize)));
    // Nothing was written.
    assert_eq!(memory.read_bytes_from_i(1), vec![0xF0]);
}

#[test]
fn load_program_one_byte_smaller_succeeds() {
    let mut memory = Memory::new();
    let text = vec![0xAAu8; AVAILABLE_STORAGE as usize - 1];
    assert_eq!(memory.load_program(&text), Ok(()));
    memory.store_i(ROM_START_ADDR + AVAILABLE_STORAGE - 2);
    assert_eq!(memory.read_bytes_from_i(2), vec![0xAA, 0x00]);
}

#[test]
fn fetch_reads_big_endian_and_advances() {
    let mut memory = Memory::new();
    memory.load_program(&[0x12, 0x34, 0xF0, 0x0A]).unwrap();
    let op = memory.fetch().unwrap();
    assert_eq!(op.as_u16(), 0x1234);
    assert_eq!(memory.pc(), ROM_START_ADDR + 2);
    let op = memory.fetch().unwrap();
    assert_eq!(op.decode(), Ok(OpcodeKind::LoadK { x: 0 }));
}

#[test]
fn store_bcd_writes_at_index() {
    let mut memory = Memory::new();
    memory.store_i(0x300);
    memory.store_bcd(204);
    assert_eq!(memory.read_bytes_from_i(3), vec![2, 0, 4]);
    assert_eq!(memory.i(), 0x300);
}

#[test]
fn font_is_in_place_at_power_on() {
    let memory = Memory::new();
    assert_eq!(memory.i(), FONTS_SET_ADDR);
    assert_eq!(memory.read_bytes_from_i(80), fonts_set().to_vec());
}

#[test]
fn index_wraps_and_flags() {
    let mut memory = Memory::new();
    memory.store_i(0xFFE);
    assert!(memory.add_to_i(3, true));
    assert_eq!(memory.i(), 1);
    assert!(!memory.add_to_i(3, true));
    assert_eq!(memory.i(), 4);
    assert!(!memory.add_to_i(0xFF, false));
    assert_eq!(memory.i(), 4 + 0xFF);
    memory.point_to_font(0xA, false);
    assert_eq!(memory.i(), FONTS_SET_ADDR + 50);
    memory.point_to_font(0x1A, true);
    assert_eq!(memory.i(), FONTS_SET_ADDR + 50);
}

#[test]
fn opcode_round_trips_its_word() {
    assert_eq!(Opcode::new(0xD123).as_u16(), 0xD123);
}
