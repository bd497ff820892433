use vstd::prelude::*;

use crate::consts::{IE_ADDR, IF_ADDR, LCDC_ADDR};

verus! {

/// A sequence of `n` copies of the byte `b`.
pub open spec fn filled(n: nat, b: u8) -> Seq<u8> {
    Seq::new(n, |i: int| b)
}

/// The 65536-byte address space: fixed regions of byte storage, the
/// cartridge image, and the banking state of the one supported
/// memory-bank-controller type.
///
/// Region map: transient boot block (visible under 0x0100 while
/// `running_bios` holds), fixed ROM bank, switchable ROM bank, video RAM,
/// external RAM, two work-RAM pages, sprite table, I/O registers, high RAM
/// and the interrupt-enable byte.  0xE000..=0xFDFF mirrors work RAM;
/// 0xFEA0..=0xFEFF is unmapped (reads 0, writes discarded).
pub struct AddrSpace {
    pub bios: [u8; 0x0100],
    pub bank0: [u8; 0x4000],
    pub bank1: [u8; 0x4000],
    pub video_ram: [u8; 0x2000],
    pub external_ram: [u8; 0x2000],
    pub work_ram1: [u8; 0x1000],
    pub work_ram2: [u8; 0x1000],
    pub sprite_table: [u8; 0xA0],
    pub io_registers: [u8; 0x80],
    pub hram: [u8; 0x7F],
    pub interrupt_enable_register: u8,
    pub memory_model: u8,
    pub rom_bank: u8,
    pub cartridge: Option<Vec<u8>>,
    pub running_bios: bool,
}

impl AddrSpace {
    /// The loaded cartridge image, if any, is long enough for its header and
    /// for the two windows copied out of it at load time.
    pub open spec fn cart_ok(self) -> bool {
        match self.cartridge {
            Some(c) => c@.len() >= 0x8000,
            None => true,
        }
    }

    /// The controller-type byte of the cartridge header.
    pub open spec fn cart_type(self) -> u8 {
        self.bank0@[0x147]
    }

    /// The byte a read returns, for every address.
    pub open spec fn mem(self, addr: u16) -> u8 {
        if addr < 0x0100 && self.running_bios {
            self.bios@[addr as int]
        } else if addr < 0x4000 {
            self.bank0@[addr as int]
        } else if addr < 0x8000 {
            self.bank1@[addr - 0x4000]
        } else if addr < 0xA000 {
            self.video_ram@[addr - 0x8000]
        } else if addr < 0xC000 {
            self.external_ram@[addr - 0xA000]
        } else if addr < 0xD000 {
            self.work_ram1@[addr - 0xC000]
        } else if addr < 0xE000 {
            self.work_ram2@[addr - 0xD000]
        } else if addr < 0xF000 {
            // echo of the first work-RAM page
            self.work_ram1@[addr - 0xE000]
        } else if addr < 0xFE00 {
            // echo of the second work-RAM page
            self.work_ram2@[addr - 0xF000]
        } else if addr < 0xFEA0 {
            self.sprite_table@[addr - 0xFE00]
        } else if addr < 0xFF00 {
            // unmapped
            0
        } else if addr < 0xFF80 {
            self.io_registers@[addr - 0xFF00]
        } else if addr < 0xFFFF {
            self.hram@[addr - 0xFF80]
        } else {
            self.interrupt_enable_register
        }
    }

    /// Reads one byte with region dispatch; the echo region resolves to work
    /// RAM, the unmapped region reads zero.
    pub fn read(&self, addr: u16) -> (r: u8)
        ensures
            r == self.mem(addr),
    {
        if addr < 0x0100 && self.running_bios {
            self.bios[addr as usize]
        } else if addr < 0x4000 {
            self.bank0[addr as usize]
        } else if addr < 0x8000 {
            self.bank1[(addr - 0x4000) as usize]
        } else if addr < 0xA000 {
            self.video_ram[(addr - 0x8000) as usize]
        } else if addr < 0xC000 {
            self.external_ram[(addr - 0xA000) as usize]
        } else if addr < 0xD000 {
            self.work_ram1[(addr - 0xC000) as usize]
        } else if addr < 0xE000 {
            self.work_ram2[(addr - 0xD000) as usize]
        } else if addr < 0xF000 {
            self.work_ram1[(addr - 0xE000) as usize]
        } else if addr < 0xFE00 {
            self.work_ram2[(addr - 0xF000) as usize]
        } else if addr < 0xFEA0 {
            self.sprite_table[(addr - 0xFE00) as usize]
        } else if addr < 0xFF00 {
            0
        } else if addr < 0xFF80 {
            self.io_registers[(addr - 0xFF00) as usize]
        } else if addr < 0xFFFF {
            self.hram[(addr - 0xFF80) as usize]
        } else {
            self.interrupt_enable_register
        }
    }

    // The write relation, case by case.  A write to the transfer register
    // copies a page into the sprite table; writes to the two control ranges
    // switch banking state when the cartridge declares controller type 1;
    // every other write stores into the region the address falls in, with
    // the echo region resolving to work RAM and the unmapped region
    // discarding the byte.

    /// Whether a write to `addr` selects the switchable bank.
    pub open spec fn is_bank_select(self, addr: u16) -> bool {
        0x2000 <= addr <= 0x3FFF && self.cart_type() == 1
    }

    /// Whether a write to `addr` toggles the 1-bit memory-model flag.
    pub open spec fn is_model_select(self, addr: u16) -> bool {
        0x6000 <= addr <= 0x7FFF && self.cart_type() == 1
    }

    /// The bank index selected by writing `data`: masked to five bits and
    /// clamped to at least one.
    pub open spec fn selected_bank(data: u8) -> u8 {
        if data & 0x1F == 0 {
            1u8
        } else {
            data & 0x1F
        }
    }

    /// The switchable-bank window after selecting `bank`: the matching
    /// 16KB window of the cartridge image when the image reaches that far,
    /// otherwise the window is left as it was.
    pub open spec fn bank1_after_select(self, bank: u8) -> Seq<u8> {
        match self.cartridge {
            Some(c) => if (bank + 1) * 0x4000 <= c@.len() {
                c@.subrange(bank * 0x4000, (bank + 1) * 0x4000)
            } else {
                self.bank1@
            },
            None => self.bank1@,
        }
    }

    /// The sprite table after writing `data` to the transfer register: the
    /// 159 bytes of the page at `data * 256` replace the front of the table.
    /// A source page overlapping the sprite table itself copies each byte
    /// onto itself, leaving the table unchanged.
    pub open spec fn dma_sprite_table(self, data: u8) -> Seq<u8> {
        if data == 0xFE {
            self.sprite_table@
        } else {
            Seq::new(
                0xA0,
                |i: int|
                    if i < 0x9F {
                        self.mem((data * 256 + i) as u16)
                    } else {
                        self.sprite_table@[i]
                    },
            )
        }
    }

    /// Exactly how one write changes the address space: every field of
    /// `post` is pinned from `pre`, `addr` and `data`.
    pub open spec fn write_rel(pre: Self, addr: u16, data: u8, post: Self) -> bool {
        &&& post.bios@ == pre.bios@
        &&& post.cartridge == pre.cartridge
        &&& post.running_bios == pre.running_bios
        &&& post.memory_model == if pre.is_model_select(addr) {
            data & 1
        } else {
            pre.memory_model
        }
        &&& post.rom_bank == if pre.is_bank_select(addr) {
            Self::selected_bank(data)
        } else {
            pre.rom_bank
        }
        &&& post.bank1@ == if pre.is_bank_select(addr) {
            pre.bank1_after_select(Self::selected_bank(data))
        } else if 0x4000 <= addr <= 0x7FFF && !pre.is_model_select(addr) {
            pre.bank1@.update(addr - 0x4000, data)
        } else {
            pre.bank1@
        }
        &&& post.bank0@ == if addr <= 0x3FFF && !pre.is_bank_select(addr) {
            pre.bank0@.update(addr as int, data)
        } else {
            pre.bank0@
        }
        &&& post.video_ram@ == if 0x8000 <= addr <= 0x9FFF {
            pre.video_ram@.update(addr - 0x8000, data)
        } else {
            pre.video_ram@
        }
        &&& post.external_ram@ == if 0xA000 <= addr <= 0xBFFF {
            pre.external_ram@.update(addr - 0xA000, data)
        } else {
            pre.external_ram@
        }
        &&& post.work_ram1@ == if 0xC000 <= addr <= 0xCFFF {
            pre.work_ram1@.update(addr - 0xC000, data)
        } else if 0xE000 <= addr <= 0xEFFF {
            pre.work_ram1@.update(addr - 0xE000, data)
        } else {
            pre.work_ram1@
        }
        &&& post.work_ram2@ == if 0xD000 <= addr <= 0xDFFF {
            pre.work_ram2@.update(addr - 0xD000, data)
        } else if 0xF000 <= addr <= 0xFDFF {
            pre.work_ram2@.update(addr - 0xF000, data)
        } else {
            pre.work_ram2@
        }
        &&& post.sprite_table@ == if addr == 0xFF46 {
            pre.dma_sprite_table(data)
        } else if 0xFE00 <= addr <= 0xFE9F {
            pre.sprite_table@.update(addr - 0xFE00, data)
        } else {
            pre.sprite_table@
        }
        &&& post.io_registers@ == if 0xFF00 <= addr <= 0xFF7F && addr != 0xFF46 {
            pre.io_registers@.update(addr - 0xFF00, data)
        } else {
            pre.io_registers@
        }
        &&& post.hram@ == if 0xFF80 <= addr <= 0xFFFE {
            pre.hram@.update(addr - 0xFF80, data)
        } else {
            pre.hram@
        }
        &&& post.interrupt_enable_register == if addr == 0xFFFF {
            data
        } else {
            pre.interrupt_enable_register
        }
    }

    /// Writes one byte.  The transfer register triggers the atomic page
    /// copy into the sprite table; the two control ranges drive banking
    /// when the cartridge declares controller type 1; the unmapped region
    /// discards the byte.
    pub fn write(&mut self, addr: u16, data: u8)
        ensures
            Self::write_rel(*old(self), addr, data, *final(self)),
            final(self).cart_ok() == old(self).cart_ok(),
    {
        if addr == 0xFF46 {
            self.dma_copy(data);
        } else if addr >= 0x6000 && addr <= 0x7FFF && self.bank0[0x147] == 1 {
            self.memory_model = data & 0x1;
        } else if addr >= 0x2000 && addr <= 0x3FFF && self.bank0[0x147] == 1 {
            let masked: u8 = data & 0x1F;
            let bank: u8 = if masked == 0 {
                1
            } else {
                masked
            };
            self.rom_bank = bank;
            self.load_bank(bank);
        } else if addr <= 0x3FFF {
            self.bank0[addr as usize] = data;
        } else if addr <= 0x7FFF {
            self.bank1[(addr - 0x4000) as usize] = data;
        } else if addr <= 0x9FFF {
            self.video_ram[(addr - 0x8000) as usize] = data;
        } else if addr <= 0xBFFF {
            self.external_ram[(addr - 0xA000) as usize] = data;
        } else if addr <= 0xCFFF {
            self.work_ram1[(addr - 0xC000) as usize] = data;
        } else if addr <= 0xDFFF {
            self.work_ram2[(addr - 0xD000) as usize] = data;
        } else if addr <= 0xEFFF {
            self.work_ram1[(addr - 0xE000) as usize] = data;
        } else if addr <= 0xFDFF {
            self.work_ram2[(addr - 0xF000) as usize] = data;
        } else if addr <= 0xFE9F {
            self.sprite_table[(addr - 0xFE00) as usize] = data;
        } else if addr <= 0xFEFF {
            // unmapped: the byte is discarded
        } else if addr <= 0xFF7F {
            self.io_registers[(addr - 0xFF00) as usize] = data;
        } else if addr <= 0xFFFE {
            self.hram[(addr - 0xFF80) as usize] = data;
        } else {
            self.interrupt_enable_register = data;
        }
    }

    /// The page copy behind a write to the transfer register: 159 sequential
    /// byte copies from the page at `data * 256` into the sprite table.
    fn dma_copy(&mut self, data: u8)
        ensures
            final(self).sprite_table@ == old(self).dma_sprite_table(data),
            final(self).bios@ == old(self).bios@,
            final(self).bank0@ == old(self).bank0@,
            final(self).bank1@ == old(self).bank1@,
            final(self).video_ram@ == old(self).video_ram@,
            final(self).external_ram@ == old(self).external_ram@,
            final(self).work_ram1@ == old(self).work_ram1@,
            final(self).work_ram2@ == old(self).work_ram2@,
            final(self).io_registers@ == old(self).io_registers@,
            final(self).hram@ == old(self).hram@,
            final(self).interrupt_enable_register == old(self).interrupt_enable_register,
            final(self).memory_model == old(self).memory_model,
            final(self).rom_bank == old(self).rom_bank,
            final(self).cartridge == old(self).cartridge,
            final(self).running_bios == old(self).running_bios,
    {
        let src_base: u16 = (data as u16) * 256;
        let mut i: u16 = 0;
        while i < 0x9F
            invariant
                i <= 0x9F,
                src_base == data * 256,
                self.bios@ == old(self).bios@,
                self.bank0@ == old(self).bank0@,
                self.bank1@ == old(self).bank1@,
                self.video_ram@ == old(self).video_ram@,
                self.external_ram@ == old(self).external_ram@,
                self.work_ram1@ == old(self).work_ram1@,
                self.work_ram2@ == old(self).work_ram2@,
                self.io_registers@ == old(self).io_registers@,
                self.hram@ == old(self).hram@,
                self.interrupt_enable_register == old(self).interrupt_enable_register,
                self.memory_model == old(self).memory_model,
                self.rom_bank == old(self).rom_bank,
                self.cartridge == old(self).cartridge,
                self.running_bios == old(self).running_bios,
                data == 0xFE ==> self.sprite_table@ == old(self).sprite_table@,
                data != 0xFE ==> forall|j: int|
                    0 <= j < i ==> self.sprite_table@[j] == old(self).mem((data * 256 + j) as u16),
                data != 0xFE ==> forall|j: int|
                    i <= j < 0xA0 ==> self.sprite_table@[j] == old(self).sprite_table@[j],
            decreases 0x9F - i,
        {
            let v: u8 = self.read(src_base + i);
            proof {
                if data == 0xFE {
                    assert(self.sprite_table@.update(i as int, v) =~= self.sprite_table@);
                }
            }
            self.sprite_table[i as usize] = v;
            i = i + 1;
        }
        proof {
            if data != 0xFE {
                assert(self.sprite_table@ =~= old(self).dma_sprite_table(data));
            }
        }
    }

    /// Copies one 16KB window of the cartridge image into the switchable
    /// bank, when the image reaches that far.
    fn load_bank(&mut self, bank: u8)
        ensures
            final(self).bank1@ == old(self).bank1_after_select(bank),
            final(self).bios@ == old(self).bios@,
            final(self).bank0@ == old(self).bank0@,
            final(self).video_ram@ == old(self).video_ram@,
            final(self).external_ram@ == old(self).external_ram@,
            final(self).work_ram1@ == old(self).work_ram1@,
            final(self).work_ram2@ == old(self).work_ram2@,
            final(self).sprite_table@ == old(self).sprite_table@,
            final(self).io_registers@ == old(self).io_registers@,
            final(self).hram@ == old(self).hram@,
            final(self).interrupt_enable_register == old(self).interrupt_enable_register,
            final(self).memory_model == old(self).memory_model,
            final(self).rom_bank == old(self).rom_bank,
            final(self).cartridge == old(self).cartridge,
            final(self).running_bios == old(self).running_bios,
    {
        match &self.cartridge {
            Some(cart) => {
                let bank_start: usize = bank as usize * 0x4000;
                if bank_start + 0x4000 <= cart.len() {
                    let mut i: usize = 0;
                    while i < 0x4000
                        invariant
                            i <= 0x4000,
                            bank_start == bank * 0x4000,
                            self.bios@ == old(self).bios@,
                            self.bank0@ == old(self).bank0@,
                            self.video_ram@ == old(self).video_ram@,
                            self.external_ram@ == old(self).external_ram@,
                            self.work_ram1@ == old(self).work_ram1@,
                            self.work_ram2@ == old(self).work_ram2@,
                            self.sprite_table@ == old(self).sprite_table@,
                            self.io_registers@ == old(self).io_registers@,
                            self.hram@ == old(self).hram@,
                            self.interrupt_enable_register == old(
                                self,
                            ).interrupt_enable_register,
                            self.memory_model == old(self).memory_model,
                            self.rom_bank == old(self).rom_bank,
                            self.cartridge == old(self).cartridge,
                            self.running_bios == old(self).running_bios,
                            old(self).cartridge matches Some(c) && bank_start + 0x4000 <= c@.len()
                                && (forall|j: int|
                                0 <= j < i ==> self.bank1@[j] == c@[bank_start + j]),
                            forall|j: int|
                                i <= j < 0x4000 ==> self.bank1@[j] == old(self).bank1@[j],
                        decreases 0x4000 - i,
                    {
                        let b: u8 = match &self.cartridge {
                            Some(c) => c[bank_start + i],
                            None => 0,
                        };
                        self.bank1[i] = b;
                        i = i + 1;
                    }
                    proof {
                        assert(self.bank1@ =~= old(self).bank1_after_select(bank));
                    }
                }
            },
            None => {},
        }
    }

    /// Clears the boot-block flag; it stays clear until a full reset.
    pub fn deactivate_bios(&mut self)
        ensures
            *final(self) == (AddrSpace { running_bios: false, ..*old(self) }),
    {
        self.running_bios = false;
    }

    /// A bus with no cartridge: cleared storage, I/O registers all ones,
    /// boot block inactive.
    pub fn empty() -> (r: AddrSpace)
        ensures
            r.bios@ == filled(0x100, 0),
            r.bank0@ == filled(0x4000, 0),
            r.bank1@ == filled(0x4000, 0),
            r.video_ram@ == filled(0x2000, 0),
            r.external_ram@ == filled(0x2000, 0),
            r.work_ram1@ == filled(0x1000, 0),
            r.work_ram2@ == filled(0x1000, 0),
            r.sprite_table@ == filled(0xA0, 0),
            r.io_registers@ == filled(0x80, 0xFF),
            r.hram@ == filled(0x7F, 0),
            r.interrupt_enable_register == 0,
            r.memory_model == 0,
            r.rom_bank == 0,
            r.cartridge is None,
            !r.running_bios,
            r.cart_ok(),
    {
        let r = AddrSpace {
            bios: [0; 0x0100],
            bank0: [0; 0x4000],
            bank1: [0; 0x4000],
            video_ram: [0x00; 0x2000],
            external_ram: [0; 0x2000],
            work_ram1: [0; 0x1000],
            work_ram2: [0; 0x1000],
            sprite_table: [0; 0xA0],
            io_registers: [0xff; 0x80],
            hram: [0; 0x7F],
            interrupt_enable_register: 0,
            memory_model: 0,
            rom_bank: 0,
            cartridge: None,
            running_bios: false,
        };
        proof {
            assert(r.bios@ =~= filled(0x100, 0));
            assert(r.bank0@ =~= filled(0x4000, 0));
            assert(r.bank1@ =~= filled(0x4000, 0));
            assert(r.video_ram@ =~= filled(0x2000, 0));
            assert(r.external_ram@ =~= filled(0x2000, 0));
            assert(r.work_ram1@ =~= filled(0x1000, 0));
            assert(r.work_ram2@ =~= filled(0x1000, 0));
            assert(r.sprite_table@ =~= filled(0xA0, 0));
            assert(r.io_registers@ =~= filled(0x80, 0xFF));
            assert(r.hram@ =~= filled(0x7F, 0));
        }
        r
    }

    /// A bus holding the given boot block and cartridge image, with the
    /// boot block active and the first two 16KB windows of the image
    /// visible.  An image too short for those windows is rejected before
    /// construction; that is the caller's one load-time obligation.
    pub fn new(bios: [u8; 0x100], cartridge: Option<Vec<u8>>) -> (r: AddrSpace)
        requires
            cartridge matches Some(c) ==> c@.len() >= 0x8000,
        ensures
            r.bios@ == bios@,
            r.bank0@ == match cartridge {
                Some(c) => c@.subrange(0, 0x4000),
                None => filled(0x4000, 0),
            },
            r.bank1@ == match cartridge {
                Some(c) => c@.subrange(0x4000, 0x8000),
                None => filled(0x4000, 0),
            },
            r.video_ram@ == filled(0x2000, 0),
            r.external_ram@ == filled(0x2000, 0),
            r.work_ram1@ == filled(0x1000, 0),
            r.work_ram2@ == filled(0x1000, 0),
            r.sprite_table@ == filled(0xA0, 0),
            r.io_registers@ == filled(0x80, 0),
            r.hram@ == filled(0x7F, 0),
            r.interrupt_enable_register == 0,
            r.memory_model == 0,
            r.rom_bank == 0,
            r.cartridge == cartridge,
            r.running_bios,
            r.cart_ok(),
    {
        let mut addr_space = AddrSpace {
            bios,
            bank0: [0; 0x4000],
            bank1: [0; 0x4000],
            video_ram: [0x00; 0x2000],
            external_ram: [0; 0x2000],
            work_ram1: [0; 0x1000],
            work_ram2: [0; 0x1000],
            sprite_table: [0; 0xA0],
            io_registers: [0; 0x80],
            hram: [0; 0x7F],
            interrupt_enable_register: 0,
            memory_model: 0,
            rom_bank: 0,
            cartridge,
            running_bios: true,
        };
        proof {
            assert(addr_space.bank0@ =~= filled(0x4000, 0));
            assert(addr_space.bank1@ =~= filled(0x4000, 0));
            assert(addr_space.video_ram@ =~= filled(0x2000, 0));
            assert(addr_space.external_ram@ =~= filled(0x2000, 0));
            assert(addr_space.work_ram1@ =~= filled(0x1000, 0));
            assert(addr_space.work_ram2@ =~= filled(0x1000, 0));
            assert(addr_space.sprite_table@ =~= filled(0xA0, 0));
            assert(addr_space.io_registers@ =~= filled(0x80, 0));
            assert(addr_space.hram@ =~= filled(0x7F, 0));
        }
        addr_space.load_cartridge_head();
        addr_space
    }

    /// Copies the first two 16KB windows of the cartridge image into the
    /// fixed and the switchable bank; without a cartridge nothing changes.
    fn load_cartridge_head(&mut self)
        requires
            old(self).cart_ok(),
        ensures
            final(self).bank0@ == match old(self).cartridge {
                Some(c) => c@.subrange(0, 0x4000),
                None => old(self).bank0@,
            },
            final(self).bank1@ == match old(self).cartridge {
                Some(c) => c@.subrange(0x4000, 0x8000),
                None => old(self).bank1@,
            },
            final(self).bios@ == old(self).bios@,
            final(self).video_ram@ == old(self).video_ram@,
            final(self).external_ram@ == old(self).external_ram@,
            final(self).work_ram1@ == old(self).work_ram1@,
            final(self).work_ram2@ == old(self).work_ram2@,
            final(self).sprite_table@ == old(self).sprite_table@,
            final(self).io_registers@ == old(self).io_registers@,
            final(self).hram@ == old(self).hram@,
            final(self).interrupt_enable_register == old(self).interrupt_enable_register,
            final(self).memory_model == old(self).memory_model,
            final(self).rom_bank == old(self).rom_bank,
            final(self).cartridge == old(self).cartridge,
            final(self).running_bios == old(self).running_bios,
    {
        let has_cart: bool = match &self.cartridge {
            Some(_) => true,
            None => false,
        };
        if has_cart {
            let mut i: usize = 0;
            while i < 0x4000
                invariant
                    i <= 0x4000,
                    self.bios@ == old(self).bios@,
                    self.bank1@ == old(self).bank1@,
                    self.video_ram@ == old(self).video_ram@,
                    self.external_ram@ == old(self).external_ram@,
                    self.work_ram1@ == old(self).work_ram1@,
                    self.work_ram2@ == old(self).work_ram2@,
                    self.sprite_table@ == old(self).sprite_table@,
                    self.io_registers@ == old(self).io_registers@,
                    self.hram@ == old(self).hram@,
                    self.interrupt_enable_register == old(self).interrupt_enable_register,
                    self.memory_model == old(self).memory_model,
                    self.rom_bank == old(self).rom_bank,
                    self.cartridge == old(self).cartridge,
                    self.running_bios == old(self).running_bios,
                    old(self).cartridge matches Some(c) && c@.len() >= 0x8000 && (forall|j: int|
                        0 <= j < i ==> self.bank0@[j] == c@[j]),
                    forall|j: int| i <= j < 0x4000 ==> self.bank0@[j] == old(self).bank0@[j],
                decreases 0x4000 - i,
            {
                let b: u8 = match &self.cartridge {
                    Some(c) => c[i],
                    None => 0,
                };
                self.bank0[i] = b;
                i = i + 1;
            }
            let mut k: usize = 0;
            while k < 0x4000
                invariant
                    k <= 0x4000,
                    self.bios@ == old(self).bios@,
                    self.video_ram@ == old(self).video_ram@,
                    self.external_ram@ == old(self).external_ram@,
                    self.work_ram1@ == old(self).work_ram1@,
                    self.work_ram2@ == old(self).work_ram2@,
                    self.sprite_table@ == old(self).sprite_table@,
                    self.io_registers@ == old(self).io_registers@,
                    self.hram@ == old(self).hram@,
                    self.interrupt_enable_register == old(self).interrupt_enable_register,
                    self.memory_model == old(self).memory_model,
                    self.rom_bank == old(self).rom_bank,
                    self.cartridge == old(self).cartridge,
                    self.running_bios == old(self).running_bios,
                    old(self).cartridge matches Some(c) && c@.len() >= 0x8000 && self.bank0@
                        == c@.subrange(0, 0x4000) && (forall|j: int|
                        0 <= j < k ==> self.bank1@[j] == c@[0x4000 + j]),
                    forall|j: int| k <= j < 0x4000 ==> self.bank1@[j] == old(self).bank1@[j],
                decreases 0x4000 - k,
            {
                let b: u8 = match &self.cartridge {
                    Some(c) => c[0x4000 + k],
                    None => 0,
                };
                self.bank1[k] = b;
                k = k + 1;
            }
            proof {
                match old(self).cartridge {
                    Some(c) => {
                        assert(self.bank0@ =~= c@.subrange(0, 0x4000));
                        assert(self.bank1@ =~= c@.subrange(0x4000, 0x8000));
                    },
                    None => {},
                }
            }
        }
    }

    /// Reinitializes every region and the banking state, re-activating the
    /// boot block and re-copying the cartridge windows; the cartridge image
    /// and the boot-block bytes themselves are kept.
    pub fn reset(&mut self)
        requires
            old(self).cart_ok(),
        ensures
            final(self).bios@ == old(self).bios@,
            final(self).bank0@ == match old(self).cartridge {
                Some(c) => c@.subrange(0, 0x4000),
                None => filled(0x4000, 0),
            },
            final(self).bank1@ == match old(self).cartridge {
                Some(c) => c@.subrange(0x4000, 0x8000),
                None => filled(0x4000, 0),
            },
            final(self).video_ram@ == filled(0x2000, 0),
            final(self).external_ram@ == filled(0x2000, 0),
            final(self).work_ram1@ == filled(0x1000, 0),
            final(self).work_ram2@ == filled(0x1000, 0),
            final(self).sprite_table@ == filled(0xA0, 0),
            final(self).io_registers@ == filled(0x80, 0),
            final(self).hram@ == filled(0x7F, 0),
            final(self).interrupt_enable_register == 0,
            final(self).memory_model == 0,
            final(self).rom_bank == 0,
            final(self).cartridge == old(self).cartridge,
            final(self).running_bios,
            final(self).cart_ok(),
    {
        self.bank0 = [0; 0x4000];
        self.bank1 = [0; 0x4000];
        self.video_ram = [0x00; 0x2000];
        self.external_ram = [0; 0x2000];
        self.work_ram1 = [0; 0x1000];
        self.work_ram2 = [0; 0x1000];
        self.sprite_table = [0; 0xA0];
        self.io_registers = [0; 0x80];
        self.hram = [0; 0x7F];
        self.interrupt_enable_register = 0;
        self.memory_model = 0;
        self.rom_bank = 0;
        self.running_bios = true;
        proof {
            assert(self.bank0@ =~= filled(0x4000, 0));
            assert(self.bank1@ =~= filled(0x4000, 0));
            assert(self.video_ram@ =~= filled(0x2000, 0));
            assert(self.external_ram@ =~= filled(0x2000, 0));
            assert(self.work_ram1@ =~= filled(0x1000, 0));
            assert(self.work_ram2@ =~= filled(0x1000, 0));
            assert(self.sprite_table@ =~= filled(0xA0, 0));
            assert(self.io_registers@ =~= filled(0x80, 0));
            assert(self.hram@ =~= filled(0x7F, 0));
        }
        self.load_cartridge_head();
    }

    // Cartridge header fields, read at fixed offsets of the fixed bank.

    /// The title characters: the bytes of the title field with NUL bytes
    /// removed, each taken as one character.
    pub fn game_title(&self) -> (t: String)
        ensures
            t@ == title_prefix(self.bank0@, 0x143),
    {
        let mut t: String = String::new();
        let mut i: usize = 0x134;
        while i < 0x143
            invariant
                0x134 <= i <= 0x143,
                t@ == title_prefix(self.bank0@, i as int),
            decreases 0x143 - i,
        {
            let b: u8 = self.bank0[i];
            if b != 0 {
                push_char(&mut t, b as char);
            }
            i = i + 1;
        }
        t
    }

    pub fn is_color_gb(&self) -> (r: bool)
        ensures
            r == (self.bank0@[0x143] == 0x80),
    {
        self.bank0[0x143] == 0x80
    }

    pub fn gb_indicator(&self) -> (r: &u8)
        ensures
            *r == self.bank0@[0x146],
    {
        &self.bank0[0x146]
    }

    pub fn cartridge_type(&self) -> (r: &u8)
        ensures
            *r == self.cart_type(),
    {
        &self.bank0[0x147]
    }

    pub fn rom_size(&self) -> (r: &u8)
        ensures
            *r == self.bank0@[0x148],
    {
        &self.bank0[0x148]
    }

    pub fn ram_size(&self) -> (r: &u8)
        ensures
            *r == self.bank0@[0x149],
    {
        &self.bank0[0x149]
    }

    // Named bit views of the LCD control register.

    pub fn bg_tile_map_area(&self) -> (r: bool)
        ensures
            r == (self.mem(LCDC_ADDR) & 0x08 == 0x08),
    {
        self.read(LCDC_ADDR) & 0x08 == 0x08
    }

    pub fn bg_window_tile_data_area(&self) -> (r: bool)
        ensures
            r == (self.mem(LCDC_ADDR) & 0x10 == 0x10),
    {
        self.read(LCDC_ADDR) & 0x10 == 0x10
    }

    pub fn window_enable(&self) -> (r: bool)
        ensures
            r == (self.mem(LCDC_ADDR) & 0x20 == 0x20),
    {
        self.read(LCDC_ADDR) & 0x20 == 0x20
    }

    pub fn window_tile_map_area(&self) -> (r: bool)
        ensures
            r == (self.mem(LCDC_ADDR) & 0x40 == 0x40),
    {
        self.read(LCDC_ADDR) & 0x40 == 0x40
    }

    // Named bit views of the interrupt-enable byte and the interrupt-flag
    // register: VBlank bit 0, LCD-STAT bit 1, timer bit 2, serial bit 3,
    // joypad bit 4.

    /// Whether the interrupt-enable bit selected by `mask` is set.
    pub open spec fn ie_bit(self, mask: u8) -> bool {
        self.mem(IE_ADDR) & mask == mask
    }

    /// Whether the interrupt-pending bit selected by `mask` is set.
    pub open spec fn if_bit(self, mask: u8) -> bool {
        self.mem(IF_ADDR) & mask == mask
    }

    pub fn ie_vblank(&self) -> (r: bool)
        ensures
            r == self.ie_bit(0x01),
    {
        self.read(IE_ADDR) & 0x01 == 0x01
    }

    pub fn ie_lc_stat(&self) -> (r: bool)
        ensures
            r == self.ie_bit(0x02),
    {
        self.read(IE_ADDR) & 0x02 == 0x02
    }

    pub fn ie_timer(&self) -> (r: bool)
        ensures
            r == self.ie_bit(0x04),
    {
        self.read(IE_ADDR) & 0x04 == 0x04
    }

    pub fn ie_serial(&self) -> (r: bool)
        ensures
            r == self.ie_bit(0x08),
    {
        self.read(IE_ADDR) & 0x08 == 0x08
    }

    pub fn ie_joypad(&self) -> (r: bool)
        ensures
            r == self.ie_bit(0x10),
    {
        self.read(IE_ADDR) & 0x10 == 0x10
    }

    pub fn if_vblank(&self) -> (r: bool)
        ensures
            r == self.if_bit(0x01),
    {
        self.read(IF_ADDR) & 0x01 == 0x01
    }

    pub fn if_lc_stat(&self) -> (r: bool)
        ensures
            r == self.if_bit(0x02),
    {
        self.read(IF_ADDR) & 0x02 == 0x02
    }

    pub fn if_timer(&self) -> (r: bool)
        ensures
            r == self.if_bit(0x04),
    {
        self.read(IF_ADDR) & 0x04 == 0x04
    }

    pub fn if_serial(&self) -> (r: bool)
        ensures
            r == self.if_bit(0x08),
    {
        self.read(IF_ADDR) & 0x08 == 0x08
    }

    pub fn if_joypad(&self) -> (r: bool)
        ensures
            r == self.if_bit(0x10),
    {
        self.read(IF_ADDR) & 0x10 == 0x10
    }

    /// Every field but the I/O register page is unchanged.
    pub open spec fn only_io_changed(pre: Self, post: Self) -> bool {
        &&& post.bios@ == pre.bios@
        &&& post.bank0@ == pre.bank0@
        &&& post.bank1@ == pre.bank1@
        &&& post.video_ram@ == pre.video_ram@
        &&& post.external_ram@ == pre.external_ram@
        &&& post.work_ram1@ == pre.work_ram1@
        &&& post.work_ram2@ == pre.work_ram2@
        &&& post.sprite_table@ == pre.sprite_table@
        &&& post.hram@ == pre.hram@
        &&& post.interrupt_enable_register == pre.interrupt_enable_register
        &&& post.memory_model == pre.memory_model
        &&& post.rom_bank == pre.rom_bank
        &&& post.cartridge == pre.cartridge
        &&& post.running_bios == pre.running_bios
    }

    /// The interrupt-flag byte after forcing the bit selected by `mask` to
    /// `value` and keeping every other bit.
    pub open spec fn if_byte_with(self, mask: u8, value: bool) -> u8 {
        if value {
            self.mem(IF_ADDR) | mask
        } else {
            self.mem(IF_ADDR) & !mask
        }
    }

    /// Read-modify-write of one interrupt-flag bit; the only sanctioned
    /// path to these bits.
    fn set_if_flag(&mut self, value: bool, mask: u8)
        requires
            mask == 0x01 || mask == 0x02 || mask == 0x04 || mask == 0x08 || mask == 0x10,
        ensures
            Self::only_io_changed(*old(self), *final(self)),
            final(self).io_registers@ == old(self).io_registers@.update(
                0x0F,
                old(self).if_byte_with(mask, value),
            ),
            final(self).if_bit(mask) == value,
            forall|m2: u8|
                (m2 == 0x01 || m2 == 0x02 || m2 == 0x04 || m2 == 0x08 || m2 == 0x10) && m2 != mask
                    ==> final(self).if_bit(m2) == old(self).if_bit(m2),
    {
        let if_value: u8 = if value {
            self.read(IF_ADDR) | mask
        } else {
            self.read(IF_ADDR) & !mask
        };
        self.write(IF_ADDR, if_value);
        proof {
            lemma_low_mask_bits(old(self).mem(IF_ADDR), mask, 0x01);
            lemma_low_mask_bits(old(self).mem(IF_ADDR), mask, 0x02);
            lemma_low_mask_bits(old(self).mem(IF_ADDR), mask, 0x04);
            lemma_low_mask_bits(old(self).mem(IF_ADDR), mask, 0x08);
            lemma_low_mask_bits(old(self).mem(IF_ADDR), mask, 0x10);
        }
    }

    pub fn set_if_vblank(&mut self, value: bool)
        ensures
            Self::only_io_changed(*old(self), *final(self)),
            final(self).io_registers@ == old(self).io_registers@.update(
                0x0F,
                old(self).if_byte_with(0x01, value),
            ),
            final(self).if_bit(0x01) == value,
            final(self).if_bit(0x02) == old(self).if_bit(0x02),
            final(self).if_bit(0x04) == old(self).if_bit(0x04),
            final(self).if_bit(0x08) == old(self).if_bit(0x08),
            final(self).if_bit(0x10) == old(self).if_bit(0x10),
    {
        self.set_if_flag(value, 0x01);
    }

    pub fn set_if_lc_stat(&mut self, value: bool)
        ensures
            Self::only_io_changed(*old(self), *final(self)),
            final(self).io_registers@ == old(self).io_registers@.update(
                0x0F,
                old(self).if_byte_with(0x02, value),
            ),
            final(self).if_bit(0x02) == value,
            final(self).if_bit(0x01) == old(self).if_bit(0x01),
            final(self).if_bit(0x04) == old(self).if_bit(0x04),
            final(self).if_bit(0x08) == old(self).if_bit(0x08),
            final(self).if_bit(0x10) == old(self).if_bit(0x10),
    {
        self.set_if_flag(value, 0x02);
    }

    pub fn set_if_timer(&mut self, value: bool)
        ensures
            Self::only_io_changed(*old(self), *final(self)),
            final(self).io_registers@ == old(self).io_registers@.update(
                0x0F,
                old(self).if_byte_with(0x04, value),
            ),
            final(self).if_bit(0x04) == value,
            final(self).if_bit(0x01) == old(self).if_bit(0x01),
            final(self).if_bit(0x02) == old(self).if_bit(0x02),
            final(self).if_bit(0x08) == old(self).if_bit(0x08),
            final(self).if_bit(0x10) == old(self).if_bit(0x10),
    {
        self.set_if_flag(value, 0x04);
    }

    pub fn set_if_serial(&mut self, value: bool)
        ensures
            Self::only_io_changed(*old(self), *final(self)),
            final(self).io_registers@ == old(self).io_registers@.update(
                0x0F,
                old(self).if_byte_with(0x08, value),
            ),
            final(self).if_bit(0x08) == value,
            final(self).if_bit(0x01) == old(self).if_bit(0x01),
            final(self).if_bit(0x02) == old(self).if_bit(0x02),
            final(self).if_bit(0x04) == old(self).if_bit(0x04),
            final(self).if_bit(0x10) == old(self).if_bit(0x10),
    {
        self.set_if_flag(value, 0x08);
    }

    pub fn set_if_joypad(&mut self, value: bool)
        ensures
            Self::only_io_changed(*old(self), *final(self)),
            final(self).io_registers@ == old(self).io_registers@.update(
                0x0F,
                old(self).if_byte_with(0x10, value),
            ),
            final(self).if_bit(0x10) == value,
            final(self).if_bit(0x01) == old(self).if_bit(0x01),
            final(self).if_bit(0x02) == old(self).if_bit(0x02),
            final(self).if_bit(0x04) == old(self).if_bit(0x04),
            final(self).if_bit(0x08) == old(self).if_bit(0x08),
    {
        self.set_if_flag(value, 0x10);
    }
}

/// The characters accumulated from the title field bytes below index `i`,
/// NUL bytes skipped.
pub open spec fn title_prefix(bank0: Seq<u8>, i: int) -> Seq<char>
    decreases i,
{
    if i <= 0x134 {
        Seq::empty()
    } else if bank0[i - 1] == 0 {
        title_prefix(bank0, i - 1)
    } else {
        title_prefix(bank0, i - 1) + seq![bank0[i - 1] as char]
    }
}

/// Relies on String::push: appends exactly one character.
#[verifier::external_body]
fn push_char(s: &mut String, c: char)
    ensures
        final(s)@ == old(s)@.push(c),
{
    s.push(c);
}

proof fn lemma_low_mask_bits(x: u8, m: u8, m2: u8)
    by (bit_vector)
    requires
        m == 0x01 || m == 0x02 || m == 0x04 || m == 0x08 || m == 0x10,
        m2 == 0x01 || m2 == 0x02 || m2 == 0x04 || m2 == 0x08 || m2 == 0x10,
    ensures
        (x | m) & m == m,
        (x & !m) & m == 0,
        m != 0,
        m2 != m ==> ((x | m) & m2 == x & m2) && ((x & !m) & m2 == x & m2),
{
}

/// Round-trip law: a write to any address whose byte the bus stores — not
/// the unmapped range, not the transfer register, not the boot-block
/// shadow while it is active, and not the two banking control ranges of a
/// type-1 cartridge — is returned unchanged by the next read.
pub proof fn lemma_write_then_read(pre: AddrSpace, addr: u16, data: u8, post: AddrSpace)
    requires
        AddrSpace::write_rel(pre, addr, data, post),
        !(0xFEA0 <= addr <= 0xFEFF),
        addr != 0xFF46,
        !(addr < 0x0100 && pre.running_bios),
        !pre.is_bank_select(addr),
        !pre.is_model_select(addr),
    ensures
        post.mem(addr) == data,
{
}

/// Transfer law: after writing any value V to the transfer register, the
/// first 159 sprite-table bytes equal the bus bytes of the page at V*256,
/// whatever the table held before.
pub proof fn lemma_dma_transfer(pre: AddrSpace, data: u8, post: AddrSpace)
    requires
        AddrSpace::write_rel(pre, 0xFF46, data, post),
    ensures
        forall|i: u16|
            0xFE00 <= i < 0xFE9F ==> post.mem(i) == pre.mem(
                ((data as u16) * 256 + (i - 0xFE00)) as u16,
            ),
{
}

} // verus!
