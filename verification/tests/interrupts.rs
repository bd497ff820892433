use gb_core::addr::AddrSpace;
use gb_core::cpu::CPU;
use gb_core::interrupts::handle_interrupts;

#[test]
fn priority_takes_vblank_first_then_lcd_stat() {
    let mut addr_space = AddrSpace::empty();
    let mut cpu = CPU::new();
    addr_space.write(0xFFFF, 0x1F);
    addr_space.write(0xFF0F, 0x1F);
    cpu.ime = true;
    cpu.pc = 0x1234;
    cpu.sp = 0xFFFE;

    let extra = handle_interrupts(&mut cpu, &mut addr_space);
    assert_eq!(extra, 5);
    assert_eq!(cpu.pc, 0x0040);
    assert_eq!(addr_space.read(0xFF0F), 0x1E);
    assert_eq!(cpu.sp, 0xFFFC);
    assert_eq!(addr_space.read(0xFFFD), 0x12);
    assert_eq!(addr_space.read(0xFFFC), 0x34);
    assert!(!cpu.ime);
    assert!(!cpu.schedule_ime);

    // a second service, once the master enable returns, takes LCD-STAT
    cpu.ime = true;
    let extra = handle_interrupts(&mut cpu, &mut addr_space);
    assert_eq!(extra, 5);
    assert_eq!(cpu.pc, 0x0048);
    assert_eq!(addr_space.read(0xFF0F), 0x1C);
}

#[test]
fn no_service_without_master_enable() {
    let mut addr_space = AddrSpace::empty();
    let mut cpu = CPU::new();
    addr_space.write(0xFFFF, 0x1F);
    addr_space.write(0xFF0F, 0x1F);
    cpu.ime = false;
    let pc = cpu.pc;
    assert_eq!(handle_interrupts(&mut cpu, &mut addr_space), 0);
    assert_eq!(cpu.pc, pc);
    assert_eq!(addr_space.read(0xFF0F), 0x1F);
}

#[test]
fn pending_without_enable_stays_pending() {
    let mut addr_space = AddrSpace::empty();
    let mut cpu = CPU::new();
    addr_space.write(0xFFFF, 0x00);
    addr_space.write(0xFF0F, 0x1F);
    cpu.ime = true;
    assert_eq!(handle_interrupts(&mut cpu, &mut addr_space), 0);
    assert_eq!(addr_space.read(0xFF0F), 0x1F);
}

#[test]
fn lower_priority_vectors_are_reached_in_turn() {
    let vectors: [(u8, u16); 5] = [
        (0x01, 0x40),
        (0x02, 0x48),
        (0x04, 0x50),
        (0x08, 0x58),
        (0x10, 0x60),
    ];
    for &(mask, vector) in vectors.iter() {
        let mut addr_space = AddrSpace::empty();
        let mut cpu = CPU::new();
        addr_space.write(0xFFFF, mask);
        addr_space.write(0xFF0F, 0x1F);
        cpu.ime = true;
        assert_eq!(handle_interrupts(&mut cpu, &mut addr_space), 5);
        assert_eq!(cpu.pc, vector);
        assert_eq!(addr_space.read(0xFF0F), 0x1F & !mask);
    }
}
