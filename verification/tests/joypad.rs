use gb_core::addr::AddrSpace;
use gb_core::joypad::JoypadState;

#[test]
fn direction_nibble_is_active_low() {
    let mut addr_space = AddrSpace::empty();
    let mut joypad = JoypadState::new();
    joypad.right = true;
    joypad.down = true;
    // direction select bit low
    addr_space.write(0xFF00, 0xEF);
    joypad.update_joypad(&mut addr_space);
    assert_eq!(addr_space.read(0xFF00), !(0x10 | 0x01 | 0x08));
}

#[test]
fn button_nibble_is_active_low() {
    let mut addr_space = AddrSpace::empty();
    let mut joypad = JoypadState::new();
    joypad.a = true;
    joypad.start = true;
    // button select bit low
    addr_space.write(0xFF00, 0xDF);
    joypad.update_joypad(&mut addr_space);
    assert_eq!(addr_space.read(0xFF00), !(0x20 | 0x01 | 0x08));
}

#[test]
fn no_selection_keeps_the_register() {
    let mut addr_space = AddrSpace::empty();
    let joypad = JoypadState::new();
    addr_space.write(0xFF00, 0xFF);
    joypad.update_joypad(&mut addr_space);
    assert_eq!(addr_space.read(0xFF00), 0xFF);
}

#[test]
fn reset_releases_every_button() {
    let mut joypad = JoypadState::new();
    joypad.up = true;
    joypad.b = true;
    joypad.select = true;
    joypad.reset();
    assert!(!joypad.up && !joypad.down && !joypad.left && !joypad.right);
    assert!(!joypad.a && !joypad.b && !joypad.start && !joypad.select);
}
