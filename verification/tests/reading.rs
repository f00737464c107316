use nes_mouse::reader::{ShiftRegisterReader, FRAME_BITS};

fn read(levels: [bool; 8]) -> u8 {
    let mut reader = ShiftRegisterReader::new();
    for low in levels {
        assert!(!reader.is_complete());
        reader.shift_in(low);
    }
    assert!(reader.is_complete());
    reader.frame()
}

#[test]
fn new_reader_has_read_nothing() {
    let reader = ShiftRegisterReader::new();
    assert_eq!(reader.position(), 0);
    assert_eq!(reader.frame(), 0);
    assert!(!reader.is_complete());
}

#[test]
fn first_level_lands_in_the_lowest_position() {
    let mut reader = ShiftRegisterReader::new();
    reader.shift_in(true);
    assert_eq!(reader.position(), 1);
    assert_eq!(reader.frame(), 0b0000_0001);
    reader.shift_in(false);
    reader.shift_in(true);
    assert_eq!(reader.position(), 3);
    assert_eq!(reader.frame(), 0b0000_0101);
}

#[test]
fn eight_levels_make_a_frame() {
    assert_eq!(read([true, false, false, false, true, false, false, false]), 0b0001_0001);
    assert_eq!(read([false; 8]), 0x00);
    assert_eq!(read([true; 8]), 0xFF);
    assert_eq!(read([false, false, false, false, false, false, false, true]), 0x80);
}

#[test]
fn every_frame_is_read_back() {
    for frame in 0u8..=255 {
        let mut levels = [false; 8];
        for i in 0..8 {
            levels[i] = frame >> i & 1 == 1;
        }
        assert_eq!(read(levels), frame);
    }
}

#[test]
fn a_frame_has_eight_positions() {
    assert_eq!(FRAME_BITS, 8);
    let mut reader = ShiftRegisterReader::new();
    for i in 0..FRAME_BITS {
        assert_eq!(reader.position(), i);
        reader.shift_in(false);
    }
    assert_eq!(reader.position(), FRAME_BITS);
}
