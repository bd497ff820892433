use gb_core::addr::AddrSpace;

fn cart_with_header(len: usize, cart_type: u8) -> Vec<u8> {
    let mut cart = vec![0u8; len];
    cart[0x147] = cart_type;
    cart
}

#[test]
fn write_then_read_round_trips_every_stored_region() {
    let mut addr_space = AddrSpace::empty();
    // fixed ROM bank, switchable bank, video RAM, external RAM, both
    // work-RAM pages, sprite table, I/O, high RAM, interrupt enable
    let addrs: [u16; 10] = [
        0x0123, 0x4FFF, 0x8123, 0xA010, 0xC555, 0xD800, 0xFE50, 0xFF20, 0xFF80, 0xFFFF,
    ];
    for (i, &a) in addrs.iter().enumerate() {
        let v = (i as u8) * 7 + 3;
        addr_space.write(a, v);
        assert_eq!(addr_space.read(a), v);
    }
}

#[test]
fn echo_region_mirrors_work_ram() {
    let mut addr_space = AddrSpace::empty();
    addr_space.write(0xC123, 0x5A);
    assert_eq!(addr_space.read(0xE123), 0x5A);
    addr_space.write(0xF234, 0xA5);
    assert_eq!(addr_space.read(0xD234), 0xA5);
}

#[test]
fn unmapped_region_reads_zero_and_discards_writes() {
    let mut addr_space = AddrSpace::empty();
    addr_space.write(0xFEA5, 0x77);
    assert_eq!(addr_space.read(0xFEA5), 0);
    assert_eq!(addr_space.read(0xFEFF), 0);
}

#[test]
fn dma_trigger_copies_a_page_into_the_sprite_table() {
    let mut addr_space = AddrSpace::empty();
    for i in 0..0xA0u16 {
        addr_space.write(0xC000 + i, (i as u8) + 1);
        addr_space.write(0xFE00 + i, 0xEE);
    }
    addr_space.write(0xFF46, 0xC0);
    for i in 0..0x9Fu16 {
        assert_eq!(addr_space.read(0xFE00 + i), (i as u8) + 1);
    }
    // the transfer stops one byte short of the whole table
    assert_eq!(addr_space.read(0xFE9F), 0xEE);
    // the transfer register byte itself is not stored
    assert_eq!(addr_space.read(0xFF46), 0xFF);
}

#[test]
fn bank_select_swaps_the_switchable_window() {
    let mut cart = cart_with_header(0x20000, 1);
    cart[0x4000] = 0x11;
    cart[0x8000] = 0x22;
    cart[0xC000] = 0x33;
    let mut addr_space = AddrSpace::new([0; 0x100], Some(cart));
    assert_eq!(*addr_space.cartridge_type(), 1);
    assert_eq!(addr_space.read(0x4000), 0x11);

    addr_space.write(0x2000, 2);
    assert_eq!(addr_space.rom_bank, 2);
    assert_eq!(addr_space.read(0x4000), 0x22);

    addr_space.write(0x2000, 3);
    assert_eq!(addr_space.read(0x4000), 0x33);

    // bank zero is clamped up to one
    addr_space.write(0x2000, 0x20);
    assert_eq!(addr_space.rom_bank, 1);
    assert_eq!(addr_space.read(0x4000), 0x11);

    // the model flag takes only its low bit
    addr_space.write(0x6000, 0xFF);
    assert_eq!(addr_space.memory_model, 1);
}

#[test]
fn rom_writes_store_when_no_controller_is_declared() {
    let mut addr_space = AddrSpace::new([0; 0x100], Some(cart_with_header(0x8000, 0)));
    addr_space.write(0x2000, 5);
    assert_eq!(addr_space.rom_bank, 0);
    assert_eq!(addr_space.read(0x2000), 5);
}

#[test]
fn boot_block_shadows_reads_until_deactivated() {
    let mut bios = [0u8; 0x100];
    bios[0x50] = 0xBB;
    let mut cart = cart_with_header(0x8000, 0);
    cart[0x50] = 0xCC;
    let mut addr_space = AddrSpace::new(bios, Some(cart));
    assert_eq!(addr_space.read(0x50), 0xBB);
    addr_space.deactivate_bios();
    assert_eq!(addr_space.read(0x50), 0xCC);
}

#[test]
fn header_fields_read_at_fixed_offsets() {
    let mut cart = cart_with_header(0x8000, 1);
    cart[0x134] = b'A';
    cart[0x135] = b'B';
    cart[0x136] = b'C';
    cart[0x143] = 0x80;
    cart[0x146] = 3;
    cart[0x148] = 5;
    cart[0x149] = 2;
    let addr_space = AddrSpace::new([0; 0x100], Some(cart));
    assert_eq!(addr_space.game_title(), "ABC");
    assert!(addr_space.is_color_gb());
    assert_eq!(*addr_space.gb_indicator(), 3);
    assert_eq!(*addr_space.cartridge_type(), 1);
    assert_eq!(*addr_space.rom_size(), 5);
    assert_eq!(*addr_space.ram_size(), 2);
}

#[test]
fn interrupt_bit_views_set_and_clear_single_bits() {
    let mut addr_space = AddrSpace::empty();
    addr_space.write(0xFF0F, 0);
    addr_space.write(0xFFFF, 0x05);
    assert!(addr_space.ie_vblank());
    assert!(!addr_space.ie_lc_stat());
    assert!(addr_space.ie_timer());
    assert!(!addr_space.ie_serial());
    assert!(!addr_space.ie_joypad());

    addr_space.set_if_timer(true);
    assert!(addr_space.if_timer());
    assert!(!addr_space.if_vblank());
    addr_space.set_if_vblank(true);
    addr_space.set_if_timer(false);
    assert!(addr_space.if_vblank());
    assert!(!addr_space.if_timer());
    assert_eq!(addr_space.read(0xFF0F), 0x01);
}

#[test]
fn reset_reinitializes_but_keeps_the_cartridge() {
    let mut cart = cart_with_header(0x8000, 0);
    cart[0x50] = 0x9C;
    let mut addr_space = AddrSpace::new([0; 0x100], Some(cart));
    addr_space.deactivate_bios();
    addr_space.write(0xC000, 0x42);
    addr_space.write(0x8000, 0x43);
    addr_space.reset();
    assert_eq!(addr_space.read(0xC000), 0);
    assert_eq!(addr_space.read(0x8000), 0);
    // the boot block is active again and shadows the re-copied window
    assert_eq!(addr_space.read(0x50), 0);
    addr_space.deactivate_bios();
    assert_eq!(addr_space.read(0x50), 0x9C);
}

#[test]
fn lcd_control_bit_views() {
    let mut addr_space = AddrSpace::empty();
    addr_space.write(0xFF40, 0x78);
    assert!(addr_space.bg_tile_map_area());
    assert!(addr_space.bg_window_tile_data_area());
    assert!(addr_space.window_enable());
    assert!(addr_space.window_tile_map_area());
    addr_space.write(0xFF40, 0x00);
    assert!(!addr_space.bg_tile_map_area());
    assert!(!addr_space.window_enable());
}
