use vstd::prelude::*;

verus! {

/// The four bytes that open every iNES file: "NES" and 0x1A.
pub const NES_TAG: [u8; 4] = [0x4E, 0x45, 0x53, 0x1A];

pub const HEADER_SIZE: usize = 16;

pub const PRG_ROM_PAGE_SIZE: usize = 16384;

pub const CHR_ROM_PAGE_SIZE: usize = 8192;

pub const TRAINER_SIZE: usize = 512;

#[derive(Clone, Copy, Debug, PartialEq, Eq, Structural)]
pub enum Mirroring {
    Vertical,
    Horizontal,
    FourScreen,
}

/// A cartridge: its PRG (program) and CHR (graphics) ROM and the header's metadata.
#[derive(Debug, PartialEq)]
pub struct ROM {
    pub trainer: bool,
    pub mapper: u8,
    pub screen_mirroring: Mirroring,
    pub prg_rom: Vec<u8>,
    pub chr_rom: Vec<u8>,
}

/// The file starts with the iNES tag and holds the eight header bytes read
/// before any size is known.
pub open spec fn has_ines_tag(raw: Seq<u8>) -> bool {
    &&& raw.len() >= 8
    &&& raw[0] == 0x4E
    &&& raw[1] == 0x45
    &&& raw[2] == 0x53
    &&& raw[3] == 0x1A
}

/// iNES 1.0: bits 2 and 3 of byte 7 are clear.
pub open spec fn is_ines_v1(raw: Seq<u8>) -> bool {
    raw[7] & 0b0000_1100 == 0
}

/// Mapper number: high nibble from byte 7, low nibble from byte 6.
pub open spec fn mapper_of(raw: Seq<u8>) -> u8 {
    (raw[7] & 0b1111_0000) | (raw[6] >> 4u8)
}

pub open spec fn mirroring_of(raw: Seq<u8>) -> Mirroring {
    if raw[6] & 0b0000_1000 != 0 {
        Mirroring::FourScreen
    } else if raw[6] & 0b0000_0001 != 0 {
        Mirroring::Vertical
    } else {
        Mirroring::Horizontal
    }
}

pub open spec fn has_trainer(raw: Seq<u8>) -> bool {
    raw[6] & 0b0000_0100 != 0
}

/// Offset of PRG ROM in the file: after the header and the trainer, if any.
pub open spec fn prg_start(raw: Seq<u8>) -> int {
    HEADER_SIZE + if has_trainer(raw) {
        TRAINER_SIZE as int
    } else {
        0
    }
}

pub open spec fn prg_len(raw: Seq<u8>) -> int {
    raw[4] * PRG_ROM_PAGE_SIZE
}

pub open spec fn chr_start(raw: Seq<u8>) -> int {
    prg_start(raw) + prg_len(raw)
}

pub open spec fn chr_len(raw: Seq<u8>) -> int {
    raw[5] * CHR_ROM_PAGE_SIZE
}

/// Why an iNES image is refused, or `None` when it loads.
pub open spec fn ines_error(raw: Seq<u8>) -> Option<Seq<char>> {
    if !has_ines_tag(raw) {
        Some("Invalid NES file"@)
    } else if !is_ines_v1(raw) {
        Some("Only iNES version 1 supported"@)
    } else if mapper_of(raw) != 0 {
        Some("Rom's mapper not supported yet"@)
    } else if raw.len() < chr_start(raw) + chr_len(raw) {
        Some("Invalid NES file"@)
    } else {
        None
    }
}

/// `len` bytes of `raw` from `start` on, as a new vector.
pub(crate) fn copy_range(raw: &Vec<u8>, start: usize, len: usize) -> (r: Vec<u8>)
    requires
        start + len <= raw@.len(),
    ensures
        r@ == raw@.subrange(start as int, start + len),
{
    let mut r: Vec<u8> = Vec::with_capacity(len);
    let mut i: usize = 0;
    while i < len
        invariant
            start + len <= raw.len(),
            i <= len,
            r@ == raw@.subrange(start as int, start + i),
        decreases len - i,
    {
        r.push(raw[start + i]);
        i += 1;
        assert(r@ =~= raw@.subrange(start as int, start + i));
    }
    r
}

impl ROM {
    /// A cartridge with 32 KiB of zeroed PRG ROM and no CHR ROM.
    pub fn empty() -> (r: Self)
        ensures
            r.prg_rom@ == Seq::new(0x8000, |i: int| 0u8),
            r.chr_rom@.len() == 0,
            !r.trainer,
            r.mapper == 0,
            r.screen_mirroring == Mirroring::Horizontal,
    {
        let prg_rom: Vec<u8> = vec![0; 0x8000];
        assert(prg_rom@ =~= Seq::new(0x8000, |i: int| 0u8));
        Self {
            trainer: false,
            mapper: 0,
            screen_mirroring: Mirroring::Horizontal,
            prg_rom,
            chr_rom: Vec::new(),
        }
    }

    /// Parses an iNES 1.0 image. Mapper 0 only.
    pub fn new(raw: Vec<u8>) -> (r: Result<Self, String>)
        ensures
            match r {
                Ok(rom) => {
                    &&& ines_error(raw@).is_none()
                    &&& rom.prg_rom@ == raw@.subrange(prg_start(raw@), chr_start(raw@))
                    &&& rom.chr_rom@ == raw@.subrange(
                        chr_start(raw@),
                        chr_start(raw@) + chr_len(raw@),
                    )
                    &&& rom.trainer == has_trainer(raw@)
                    &&& rom.mapper == mapper_of(raw@)
                    &&& rom.screen_mirroring == mirroring_of(raw@)
                },
                Err(e) => ines_error(raw@) == Some(e@),
            },
    {
        proof {
            reveal_strlit("Invalid NES file");
            reveal_strlit("Only iNES version 1 supported");
            reveal_strlit("Rom's mapper not supported yet");
        }
        if raw.len() < 8 || raw[0] != NES_TAG[0] || raw[1] != NES_TAG[1] || raw[2] != NES_TAG[2]
            || raw[3] != NES_TAG[3] {
            return Err("Invalid NES file".to_owned());
        }
        let flags6 = raw[6];
        let flags7 = raw[7];
        if flags7 & 0b0000_1100 != 0 {
            return Err("Only iNES version 1 supported".to_owned());
        }
        let mapper = (flags7 & 0b1111_0000) | (flags6 >> 4u8);
        if mapper != 0 {
            return Err("Rom's mapper not supported yet".to_owned());
        }
        let screen_mirroring = if flags6 & 0b0000_1000 != 0 {
            Mirroring::FourScreen
        } else if flags6 & 0b0000_0001 != 0 {
            Mirroring::Vertical
        } else {
            Mirroring::Horizontal
        };
        let trainer = flags6 & 0b0000_0100 != 0;
        let prg_rom_start: usize = HEADER_SIZE + if trainer {
            TRAINER_SIZE
        } else {
            0
        };
        let prg_rom_size: usize = raw[4] as usize * PRG_ROM_PAGE_SIZE;
        let chr_rom_start: usize = prg_rom_start + prg_rom_size;
        let chr_rom_size: usize = raw[5] as usize * CHR_ROM_PAGE_SIZE;
        if raw.len() < chr_rom_start || raw.len() - chr_rom_start < chr_rom_size {
            return Err("Invalid NES file".to_owned());
        }
        let prg_rom = copy_range(&raw, prg_rom_start, prg_rom_size);
        let chr_rom = copy_range(&raw, chr_rom_start, chr_rom_size);
        Ok(Self { trainer, mapper, screen_mirroring, prg_rom, chr_rom })
    }
}

} // verus!
