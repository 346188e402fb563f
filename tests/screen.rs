use chip8::display::{Display, ON};
use chip8::keypad::Keypad;

#[test]
fn same_pixel_twice_toggles_and_collides() {
    let mut display = Display::new();
    assert!(!display.draw_sprite(0, 0, &vec![0x80]));
    assert_eq!(display.pixels()[0], ON);
    assert!(display.draw_sprite(0, 0, &vec![0x80]));
    assert_eq!(display.pixels()[0], 0);
}

#[test]
fn first_draw_over_lit_pixel_collides() {
    let mut display = Display::new();
    assert!(!display.draw_sprite(5, 3, &vec![0x40]));
    assert_eq!(display.pixels()[6 + 3 * 64], ON);
    assert!(display.draw_sprite(6, 3, &vec![0x80, 0x80]));
    assert_eq!(display.pixels()[6 + 3 * 64], 0);
    assert_eq!(display.pixels()[6 + 4 * 64], ON);
}

#[test]
fn columns_wrap_at_right_edge() {
    let mut display = Display::new();
    assert!(!display.draw_sprite(62, 0, &vec![0xFF]));
    let pixels = display.pixels();
    for col in [62usize, 63, 0, 1, 2, 3, 4, 5] {
        assert_eq!(pixels[col], ON);
    }
    assert_eq!(pixels[6], 0);
    assert_eq!(pixels[61], 0);
    assert_eq!(pixels[64], 0);
}

#[test]
fn rows_below_bottom_are_dropped() {
    let mut display = Display::new();
    assert!(!display.draw_sprite(0, 31, &vec![0x80, 0x80, 0x80]));
    let pixels = display.pixels();
    assert_eq!(pixels[31 * 64], ON);
    assert_eq!(pixels[0], 0);
    assert_eq!(pixels[64], 0);
    assert_eq!(pixels.iter().filter(|c| **c != 0).count(), 1);
}

#[test]
fn coordinates_are_taken_modulo_screen() {
    let mut display = Display::new();
    assert!(!display.draw_sprite(64 + 3, 32 + 1, &vec![0x80]));
    assert_eq!(display.pixels()[3 + 64], ON);
}

#[test]
fn clear_turns_everything_off() {
    let mut display = Display::new();
    assert!(!display.draw_sprite(10, 10, &vec![0xFF, 0xFF]));
    display.clear();
    assert!(display.pixels().iter().all(|c| *c == 0));
    assert_eq!(display.pixels().len(), 2048);
}

#[test]
fn first_press_is_lowest_new_key() {
    let mut keypad = Keypad::new();
    keypad.set_key(3, true);
    keypad.begin_frame();
    keypad.set_key(9, true);
    keypad.set_key(12, true);
    assert_eq!(keypad.first_press(), Some(9));
    assert!(keypad.is_down(3));
    keypad.begin_frame();
    assert_eq!(keypad.first_press(), None);
}
