use gb_core::machine::GameBoy;

fn cart_with_program(program: &[u8]) -> Vec<u8> {
    let mut cart = vec![0u8; 0x8000];
    cart[0x100..0x100 + program.len()].copy_from_slice(program);
    cart
}

#[test]
fn one_step_executes_one_instruction() {
    // INC A at the entry point
    let mut gb = GameBoy::new([0; 0x100], cart_with_program(&[0x3C]));
    assert_eq!(gb.cpu.pc, 0x100);
    assert_eq!(gb.cpu.a, 0x01);
    let frame_done = gb.instr_tick();
    assert!(!frame_done);
    assert_eq!(gb.cpu.a, 0x02);
    assert_eq!(gb.cpu.pc, 0x101);
}

#[test]
fn interrupt_enable_activates_one_step_late() {
    // EI; NOP
    let mut gb = GameBoy::new([0; 0x100], cart_with_program(&[0xFB, 0x00]));
    gb.instr_tick();
    assert!(gb.cpu.ime);
    assert!(!gb.cpu.schedule_ime);
}

#[test]
fn stepping_reaches_a_frame() {
    // a program of NOPs; a frame completes after 70224 clock ticks
    let mut gb = GameBoy::new([0; 0x100], cart_with_program(&[]));
    gb.addr_space.write(0xFF41, 2);
    let mut frame_done = false;
    let mut steps: u32 = 0;
    while !frame_done && steps < 200000 {
        frame_done = gb.instr_tick();
        steps += 1;
    }
    assert!(frame_done);
    assert_eq!(gb.addr_space.read(0xFF44), 144);
}

#[test]
fn button_setters_feed_the_polled_register() {
    let mut gb = GameBoy::new([0; 0x100], cart_with_program(&[0x00]));
    gb.set_right(true);
    gb.set_a(true);
    assert!(gb.joypad_state.right);
    assert!(gb.joypad_state.a);
    // select the direction nibble, then step once to fold it in
    gb.addr_space.write(0xFF00, 0xEF);
    gb.instr_tick();
    assert_eq!(gb.addr_space.read(0xFF00), !(0x10 | 0x01));
}

#[test]
fn screen_is_rgba_with_opaque_alpha() {
    let gb = GameBoy::empty();
    let screen = gb.screen();
    assert_eq!(screen.len(), 4 * 160 * 144);
    // a blank buffer maps to opaque white
    assert_eq!(screen[0], 0xFF);
    assert_eq!(screen[1], 0xFF);
    assert_eq!(screen[2], 0xFF);
    assert_eq!(screen[3], 0xFF);
}
