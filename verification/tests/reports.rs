use nes_mouse::acceleration::AxisVelocity;
use nes_mouse::decoder::ButtonState;
use nes_mouse::report::{build, signed_byte, MouseReport, BUTTON_A, BUTTON_B, BUTTON_START};

fn velocity(value: i8) -> AxisVelocity {
    AxisVelocity::new(value).expect("a velocity")
}

#[test]
fn build_packs_buttons_and_axes() {
    let report = build(ButtonState { a: true, b: false, start: false }, velocity(0), velocity(-4));
    assert_eq!(report, MouseReport { buttons: 0x01, x: 0, y: -4 });
}

#[test]
fn button_mask_has_one_bit_for_each_button() {
    for bits in 0u8..8 {
        let buttons = ButtonState { a: bits & 1 != 0, b: bits & 2 != 0, start: bits & 4 != 0 };
        let report = build(buttons, AxisVelocity::zero(), AxisVelocity::zero());
        assert_eq!(report.buttons, bits);
        assert_eq!(report.buttons & 0xF8, 0);
    }
}

#[test]
fn button_bits() {
    let none = ButtonState { a: false, b: false, start: false };
    let rest = AxisVelocity::zero();
    assert_eq!(build(ButtonState { a: true, ..none }, rest, rest).buttons, BUTTON_A);
    assert_eq!(build(ButtonState { b: true, ..none }, rest, rest).buttons, BUTTON_B);
    assert_eq!(build(ButtonState { start: true, ..none }, rest, rest).buttons, BUTTON_START);
    assert_eq!((BUTTON_A, BUTTON_B, BUTTON_START), (0x01, 0x02, 0x04));
}

#[test]
fn build_keeps_each_axis_apart() {
    let none = ButtonState { a: false, b: false, start: false };
    let report = build(none, velocity(32), velocity(-64));
    assert_eq!(report.x, 32);
    assert_eq!(report.y, -64);
}

#[test]
fn wire_layout_is_buttons_then_x_then_y() {
    let report = build(ButtonState { a: true, b: true, start: true }, velocity(16), velocity(-4));
    assert_eq!(report.to_bytes(), [0x07, 0x10, 0xFC]);
}

#[test]
fn wire_axes_are_twos_complement() {
    let none = ButtonState { a: false, b: false, start: false };
    assert_eq!(build(none, velocity(64), velocity(-64)).to_bytes(), [0x00, 0x40, 0xC0]);
    assert_eq!(build(none, velocity(-8), velocity(0)).to_bytes(), [0x00, 0xF8, 0x00]);
    assert_eq!(MouseReport { buttons: 0, x: -128, y: 127 }.to_bytes(), [0x00, 0x80, 0x7F]);
    assert_eq!(MouseReport { buttons: 0, x: -1, y: 1 }.to_bytes(), [0x00, 0xFF, 0x01]);
}

#[test]
fn signed_byte_matches_the_cast() {
    for value in i8::MIN..=i8::MAX {
        assert_eq!(signed_byte(value), value as u8);
    }
}
