use vstd::prelude::*;
use crate::rom::ROM;

verus! {

/// Size of the internal RAM; it repeats through 0x0000..=0x1FFF.
pub const RAM_SIZE: usize = 0x0800;

pub const RAM_MIRRORS_END: u16 = 0x1FFF;

pub const PPU_REGISTERS: u16 = 0x2000;

pub const PPU_REGISTERS_MIRRORS_END: u16 = 0x3FFF;

pub const ROM_START_IN_MEMORY: u16 = 0x8000;

/// PRG ROM of this size is mapped twice, at 0x8000 and at 0xC000.
pub const PRG_MIRROR_SIZE: usize = 0x4000;

/// What the CPU sees through the bus: the internal RAM and the PRG ROM.
pub struct BusView {
    pub ram: Seq<u8>,
    pub prg: Seq<u8>,
}

/// The low byte of a 16-bit value.
pub open spec fn lo_byte(v: u16) -> u8 {
    (v % 256) as u8
}

/// The high byte of a 16-bit value.
pub open spec fn hi_byte(v: u16) -> u8 {
    (v / 256) as u8
}

/// The little-endian word made of `lo` and `hi`.
pub open spec fn word_of(lo: u8, hi: u8) -> u16 {
    (hi * 256 + lo) as u16
}

/// An address plus an offset, modulo 0x10000.
pub open spec fn addr_add(a: u16, n: int) -> u16 {
    ((a + n) % 0x10000) as u16
}

impl BusView {
    pub open spec fn wf(self) -> bool {
        self.ram.len() == RAM_SIZE
    }

    /// Index into PRG ROM of an address at or above 0x8000; a 16 KiB image
    /// is seen again in the upper half.
    pub open spec fn prg_index(self, addr: u16) -> int {
        if self.prg.len() == PRG_MIRROR_SIZE {
            (addr - ROM_START_IN_MEMORY) as int % (PRG_MIRROR_SIZE as int)
        } else {
            addr - ROM_START_IN_MEMORY
        }
    }

    /// Whether `addr` falls on a byte of PRG ROM.
    pub open spec fn in_prg(self, addr: u16) -> bool {
        addr >= ROM_START_IN_MEMORY && self.prg_index(addr) < self.prg.len()
    }

    /// The byte read at `addr`: RAM modulo its size below 0x2000, PRG ROM from
    /// 0x8000 on; every other address (the PPU window included) reads as 0, as
    /// does a place beyond the end of PRG ROM.
    pub open spec fn read(self, addr: u16) -> u8 {
        if addr <= RAM_MIRRORS_END {
            self.ram[(addr as int) % (RAM_SIZE as int)]
        } else if self.in_prg(addr) {
            self.prg[self.prg_index(addr)]
        } else {
            0
        }
    }

    /// The bus after writing `v` at `addr`: RAM and PRG ROM take the byte at the
    /// place that a read of `addr` comes from; other writes are dropped.
    #[verifier::opaque]
    pub open spec fn write(self, addr: u16, v: u8) -> BusView {
        if addr <= RAM_MIRRORS_END {
            BusView { ram: self.ram.update((addr as int) % (RAM_SIZE as int), v), ..self }
        } else if self.in_prg(addr) {
            BusView { prg: self.prg.update(self.prg_index(addr), v), ..self }
        } else {
            self
        }
    }

    /// The little-endian word at `addr` and the address after it.
    pub open spec fn read16(self, addr: u16) -> u16 {
        word_of(self.read(addr), self.read(addr_add(addr, 1)))
    }

    pub open spec fn write16(self, addr: u16, v: u16) -> BusView {
        self.write(addr, lo_byte(v)).write(addr_add(addr, 1), hi_byte(v))
    }

    /// The bus after writing `bytes` one by one from `addr` upwards.
    pub open spec fn write_seq(self, addr: u16, bytes: Seq<u8>) -> BusView
        decreases bytes.len(),
    {
        if bytes.len() == 0 {
            self
        } else {
            self.write(addr, bytes[0]).write_seq(addr_add(addr, 1), bytes.drop_first())
        }
    }
}

/// Writing keeps the sizes of RAM and PRG ROM.
pub proof fn lemma_write_wf(bus: BusView, addr: u16, v: u8)
    requires
        bus.wf(),
    ensures
        bus.write(addr, v).wf(),
        bus.write(addr, v).prg.len() == bus.prg.len(),
{
    reveal(BusView::write);
}

/// RAM reads back what was written, at every address of its mirrored range, and
/// every address of that range reads the same byte as its image in the first 2 KiB.
pub proof fn lemma_ram_round_trip(bus: BusView, a: u16, v: u8)
    requires
        bus.wf(),
        a <= RAM_MIRRORS_END,
    ensures
        bus.write(a, v).read(a) == v,
        bus.read(a) == bus.read(a & 0x07FF),
{
    reveal(BusView::read);
    reveal(BusView::write);
    assert(a & 0x07FF == a % 0x800) by (bit_vector);
    assert((a & 0x07FF) <= 0x7FF) by (bit_vector);
}

/// A 16 KiB cartridge reads the same at 0x8000..=0xBFFF and 0x4000 higher.
pub proof fn lemma_prg_mirror(bus: BusView, a: u16)
    requires
        bus.prg.len() == PRG_MIRROR_SIZE,
        0x8000 <= a <= 0xBFFF,
    ensures
        bus.read(a) == bus.read((a + 0x4000) as u16),
{
    reveal(BusView::read);
}

/// The address space as the CPU sees it: 2 KiB of RAM and the cartridge.
pub struct Bus {
    cpu_vram: Vec<u8>,
    rom: ROM,
}

impl View for Bus {
    type V = BusView;

    closed spec fn view(&self) -> BusView {
        BusView { ram: self.cpu_vram@, prg: self.rom.prg_rom@ }
    }
}

impl Bus {
    /// The RAM of every bus has its full 2 KiB; any call on a bus shows it
    /// through `wf`.
    #[verifier::type_invariant]
    spec fn inv(&self) -> bool {
        self.cpu_vram@.len() == RAM_SIZE
    }

    pub fn new(rom: ROM) -> (r: Self)
        ensures
            r@.wf(),
            r@.ram == Seq::new(RAM_SIZE as nat, |i: int| 0u8),
            r@.prg == rom.prg_rom@,
    {
        let cpu_vram: Vec<u8> = vec![0; RAM_SIZE];
        assert(cpu_vram@ =~= Seq::new(RAM_SIZE as nat, |i: int| 0u8));
        Self { cpu_vram, rom }
    }

    /// Puts another cartridge in; RAM is kept.
    pub fn load_rom(&mut self, rom: ROM)
        ensures
            final(self)@.ram == old(self)@.ram,
            final(self)@.prg == rom.prg_rom@,
            final(self)@.wf(),
    {
        proof {
            use_type_invariant(&*self);
        }
        self.rom = rom;
    }

    pub fn read_mem(&self, addr: u16) -> (r: u8)
        ensures
            r == self@.read(addr),
            self@.wf(),
    {
        proof {
            use_type_invariant(self);
        }
        reveal(BusView::read);
        if addr <= RAM_MIRRORS_END {
            let mirror_down_addr = addr & 0x07FF;
            assert(addr & 0x07FF == addr % 0x800) by (bit_vector);
            self.cpu_vram[mirror_down_addr as usize]
        } else if addr >= ROM_START_IN_MEMORY {
            let mut offset: usize = (addr - ROM_START_IN_MEMORY) as usize;
            if self.rom.prg_rom.len() == PRG_MIRROR_SIZE {
                offset = offset % PRG_MIRROR_SIZE;
            }
            if offset < self.rom.prg_rom.len() {
                self.rom.prg_rom[offset]
            } else {
                0
            }
        } else {
            0
        }
    }

    pub fn write_mem(&mut self, addr: u16, data: u8)
        ensures
            final(self)@ == old(self)@.write(addr, data),
            old(self)@.wf(),
            final(self)@.wf(),
        no_unwind
    {
        proof {
            use_type_invariant(&*self);
            lemma_write_wf(old(self)@, addr, data);
        }
        reveal(BusView::write);
        if addr <= RAM_MIRRORS_END {
            let mirror_down_addr = addr & 0x07FF;
            assert(addr & 0x07FF == addr % 0x800) by (bit_vector);
            self.cpu_vram[mirror_down_addr as usize] = data;
        } else if addr >= ROM_START_IN_MEMORY {
            let mut offset: usize = (addr - ROM_START_IN_MEMORY) as usize;
            if self.rom.prg_rom.len() == PRG_MIRROR_SIZE {
                offset = offset % PRG_MIRROR_SIZE;
            }
            if offset < self.rom.prg_rom.len() {
                self.rom.prg_rom[offset] = data;
            }
        }
    }

    pub fn read_mem_u16(&self, addr: u16) -> (r: u16)
        ensures
            r == self@.read16(addr),
            self@.wf(),
    {
        let little = self.read_mem(addr);
        let big = self.read_mem(addr.wrapping_add(1));
        (big as u16) * 256 + little as u16
    }

    pub fn write_mem_u16(&mut self, addr: u16, value: u16)
        ensures
            final(self)@ == old(self)@.write16(addr, value),
            old(self)@.wf(),
            final(self)@.wf(),
    {
        self.write_mem(addr, (value % 256) as u8);
        self.write_mem(addr.wrapping_add(1), (value / 256) as u8);
    }
}

} // verus!
