//! Keypad, framebuffer, settings, program images and keyboard layout.

use chip8::config::{Config, LogLevel};
use chip8::drivers::file::FileDriver;
use chip8::drivers::input::{keycode_to_idx, set_pressed};
use chip8::drivers::video::{screen_tiles, Rgb, Tile, SCALE, X_RES, Y_RES};
use chip8::emu::frame::{fb_size, Frame, FB_HEIGHT, FB_LEN, FB_WIDTH};
use chip8::emu::keypad::Keypad;

#[test]
fn new_keypad_is_released() {
    let kp = Keypad::new();
    assert_eq!(kp.state, [false; 16]);
    assert!(!kp.block);
    assert_eq!(kp.block_reg, 0);
    assert_eq!(kp.first_pressed(), None);
}

#[test]
fn keypad_set_and_read() {
    let mut kp = Keypad::new();
    kp.set(3, true);
    kp.set(15, true);
    assert!(kp.state_of(3));
    assert!(kp.state_of(15));
    assert!(!kp.state_of(0));
    let mut expect = [false; 16];
    expect[3] = true;
    expect[15] = true;
    assert_eq!(kp.state(), &expect);
    kp.set(3, false);
    assert!(!kp.state_of(3));
    assert!(kp.state_of(15));
}

#[test]
fn keypad_reset_releases_keys_only() {
    let mut kp = Keypad::new();
    kp.set(1, true);
    kp.block = true;
    kp.block_reg = 6;
    kp.reset();
    assert_eq!(kp.state, [false; 16]);
    assert!(kp.block);
    assert_eq!(kp.block_reg, 6);
}

#[test]
fn keypad_first_pressed_is_the_lowest() {
    let mut kp = Keypad::new();
    kp.set(9, true);
    assert_eq!(kp.first_pressed(), Some(9));
    kp.set(4, true);
    assert_eq!(kp.first_pressed(), Some(4));
    kp.set(15, true);
    assert_eq!(kp.first_pressed(), Some(4));
    kp.set(4, false);
    kp.set(9, false);
    assert_eq!(kp.first_pressed(), Some(15));
}

#[test]
fn new_frame_is_dark_and_clean() {
    let frame = Frame::new();
    assert_eq!(frame.data.len(), 2048);
    assert!(frame.data.iter().all(|p| !*p));
    assert!(!frame.update);
}

#[test]
fn frame_reset_darkens_and_cleans() {
    let mut frame = Frame::new();
    frame.data[77] = true;
    frame.update = true;
    frame.reset();
    assert!(frame.data.iter().all(|p| !*p));
    assert!(!frame.update);
}

#[test]
fn frame_size() {
    let size = fb_size();
    assert_eq!(size.x, 64);
    assert_eq!(size.y, 32);
    assert_eq!(FB_WIDTH, 64);
    assert_eq!(FB_HEIGHT, 32);
    assert_eq!(FB_LEN, 2048);
}

#[test]
fn log_level_names_and_digits() {
    assert_eq!(LogLevel::parse("trace"), LogLevel::Trace);
    assert_eq!(LogLevel::parse("5"), LogLevel::Trace);
    assert_eq!(LogLevel::parse("debug"), LogLevel::Debug);
    assert_eq!(LogLevel::parse("4"), LogLevel::Debug);
    assert_eq!(LogLevel::parse("info"), LogLevel::Info);
    assert_eq!(LogLevel::parse("3"), LogLevel::Info);
    assert_eq!(LogLevel::parse("warn"), LogLevel::Warn);
    assert_eq!(LogLevel::parse("2"), LogLevel::Warn);
    assert_eq!(LogLevel::parse("error"), LogLevel::Error);
    assert_eq!(LogLevel::parse("1"), LogLevel::Error);
}

#[test]
fn log_level_anything_else_is_off() {
    assert_eq!(LogLevel::parse("off"), LogLevel::Off);
    assert_eq!(LogLevel::parse("0"), LogLevel::Off);
    assert_eq!(LogLevel::parse(""), LogLevel::Off);
    assert_eq!(LogLevel::parse("Trace"), LogLevel::Off);
    assert_eq!(LogLevel::parse("6"), LogLevel::Off);
    assert_eq!(LogLevel::parse(" info"), LogLevel::Off);
}

#[test]
fn config_from_args() {
    let config = Config::from_args(String::from("roms/pong.ch8"), "debug", 2, 8);
    assert_eq!(config.rom_path, "roms/pong.ch8");
    assert_eq!(config.log_level, LogLevel::Debug);
    assert_eq!(config.step_delay, 2);
    assert_eq!(config.scale_factor, 8);
    let config = Config::from_args(String::new(), "off", 0, 1);
    assert_eq!(config.rom_path, "");
    assert_eq!(config.log_level, LogLevel::Off);
}

#[test]
fn rom_image_is_padded() {
    let rom = FileDriver::from_bytes(&[0xA2, 0x2A, 0x60]);
    assert_eq!(rom.data.len(), 3584);
    assert_eq!(&rom.data[0..3], &[0xA2, 0x2A, 0x60]);
    assert!(rom.data[3..].iter().all(|b| *b == 0));
}

#[test]
fn rom_image_of_nothing_is_zero() {
    let rom = FileDriver::from_bytes(&[]);
    assert!(rom.data.iter().all(|b| *b == 0));
}

#[test]
fn rom_image_is_cut_at_the_program_area() {
    let mut bytes = vec![7u8; 3584];
    bytes.push(8);
    bytes.push(9);
    let rom = FileDriver::from_bytes(&bytes);
    assert!(rom.data.iter().all(|b| *b == 7));
    let exact = FileDriver::from_bytes(&bytes[..3584]);
    assert_eq!(exact.data, rom.data);
}

#[test]
fn keyboard_layout() {
    let layout = [
        ('1', 0x1usize), ('2', 0x2), ('3', 0x3), ('4', 0xC),
        ('q', 0x4), ('w', 0x5), ('e', 0x6), ('r', 0xD),
        ('a', 0x7), ('s', 0x8), ('d', 0x9), ('f', 0xE),
        ('z', 0xA), ('x', 0x0), ('c', 0xB), ('v', 0xF),
    ];
    for (key, idx) in layout {
        assert_eq!(keycode_to_idx(key as i32), Some(idx));
    }
}

#[test]
fn other_keys_have_no_keypad_key() {
    assert_eq!(keycode_to_idx('5' as i32), None);
    assert_eq!(keycode_to_idx('0' as i32), None);
    assert_eq!(keycode_to_idx('Q' as i32), None);
    assert_eq!(keycode_to_idx(0), None);
    assert_eq!(keycode_to_idx(-1), None);
    assert_eq!(keycode_to_idx(i32::MAX), None);
}

#[test]
fn pressed_keys_replace_the_keypad_state() {
    let mut kp = Keypad::new();
    kp.set(7, true);
    kp.block = true;
    kp.block_reg = 2;
    set_pressed(&mut kp, &['q' as i32, 'p' as i32, 'v' as i32, 'q' as i32]);
    let mut expect = [false; 16];
    expect[4] = true;
    expect[15] = true;
    assert_eq!(kp.state, expect);
    assert!(kp.block);
    assert_eq!(kp.block_reg, 2);
    set_pressed(&mut kp, &[]);
    assert_eq!(kp.state, [false; 16]);
}

#[test]
fn window_size() {
    assert_eq!(SCALE, 6);
    assert_eq!(X_RES, 384);
    assert_eq!(Y_RES, 192);
}

#[test]
fn tiles_cover_the_window_row_by_row() {
    let mut frame = Frame::new();
    frame.data[0] = true;
    frame.data[65] = true;
    frame.data[2047] = true;
    let tiles = screen_tiles(&frame.data);
    assert_eq!(tiles.len(), 2048);
    let lit = Rgb { r: 32, g: 42, b: 52 };
    let dark = Rgb { r: 145, g: 145, b: 135 };
    assert_eq!(tiles[0], Tile { x: 0, y: 0, side: 6, color: lit });
    assert_eq!(tiles[1], Tile { x: 6, y: 0, side: 6, color: dark });
    assert_eq!(tiles[63], Tile { x: 378, y: 0, side: 6, color: dark });
    assert_eq!(tiles[64], Tile { x: 0, y: 6, side: 6, color: dark });
    assert_eq!(tiles[65], Tile { x: 6, y: 6, side: 6, color: lit });
    assert_eq!(tiles[2047], Tile { x: 378, y: 186, side: 6, color: lit });
    for (k, tile) in tiles.iter().enumerate() {
        assert_eq!(tile.x as usize, (k % 64) * 6);
        assert_eq!(tile.y as usize, (k / 64) * 6);
        assert_eq!(tile.side, 6);
        assert_eq!(tile.color == lit, frame.data[k]);
    }
}
