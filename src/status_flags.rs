use vstd::prelude::*;

verus! {

/// Value of the status register after reset: only `I` and the unused bit 5 set.
pub const STATUS_RESET: u8 = 0b0010_0100;

/// Bit 5 of the status register, which always reads as 1.
pub const UNUSED_BIT: u8 = 0b0010_0000;

/// The named bits of the status register; bit 5 has no name and stays set.
#[derive(Clone, Copy, Debug, PartialEq, Eq, Structural)]
pub enum StatusFlag {
    Carry,
    Zero,
    InterruptDisable,
    Decimal,
    B,
    Overflow,
    Negative,
}

impl StatusFlag {
    /// The single bit that the flag occupies in the status byte.
    pub open spec fn mask(self) -> u8 {
        match self {
            StatusFlag::Carry => 0b0000_0001,
            StatusFlag::Zero => 0b0000_0010,
            StatusFlag::InterruptDisable => 0b0000_0100,
            StatusFlag::Decimal => 0b0000_1000,
            StatusFlag::B => 0b0001_0000,
            StatusFlag::Overflow => 0b0100_0000,
            StatusFlag::Negative => 0b1000_0000,
        }
    }
}

/// The status byte `p` with `flag` set to `on` and every other bit kept.
pub open spec fn with_flag(p: u8, flag: StatusFlag, on: bool) -> u8 {
    if on {
        p | flag.mask()
    } else {
        p & !flag.mask()
    }
}

/// Whether `flag` is set in the status byte `p`.
pub open spec fn has_flag(p: u8, flag: StatusFlag) -> bool {
    p & flag.mask() != 0
}

/// The status byte after the zero/negative update for the value `v`:
/// Z iff `v` is zero, N iff `v` is at least 0x80.
pub open spec fn with_zn(p: u8, v: u8) -> u8 {
    with_flag(with_flag(p, StatusFlag::Zero, v == 0), StatusFlag::Negative, v >= 0x80)
}

/// Setting or clearing one flag reads back as written and leaves every other
/// bit of the status byte, bit 5 included, as it was.
pub proof fn lemma_with_flag(p: u8, flag: StatusFlag, on: bool)
    ensures
        has_flag(with_flag(p, flag, on), flag) == on,
        forall|other: StatusFlag|
            other != flag ==> has_flag(#[trigger] with_flag(p, flag, on), other) == has_flag(p, other),
        with_flag(p, flag, on) & UNUSED_BIT == p & UNUSED_BIT,
{
    let m = flag.mask();
    assert(m == 1 || m == 2 || m == 4 || m == 8 || m == 16 || m == 64 || m == 128);
    assert((p | m) & m != 0 && (p & !m) & m == 0 && (p | m) & 0x20 == p & 0x20 && (p & !m)
        & 0x20 == p & 0x20) by (bit_vector)
        requires
            m == 1 || m == 2 || m == 4 || m == 8 || m == 16 || m == 64 || m == 128,
    ;
    assert forall|other: StatusFlag| other != flag implies has_flag(
        #[trigger] with_flag(p, flag, on),
        other,
    ) == has_flag(p, other) by {
        let o = other.mask();
        assert(o != m);
        assert(o & m == 0) by (bit_vector)
            requires
                o != m,
                m == 1 || m == 2 || m == 4 || m == 8 || m == 16 || m == 64 || m == 128,
                o == 1 || o == 2 || o == 4 || o == 8 || o == 16 || o == 64 || o == 128,
        ;
        assert((p | m) & o == p & o && (p & !m) & o == p & o) by (bit_vector)
            requires
                o & m == 0,
        ;
    }
}

/// The zero/negative update sets Z exactly for a zero value, N exactly for a
/// value with bit 7 set, and leaves the other bits (bit 5 included) alone.
pub proof fn lemma_with_zn(p: u8, v: u8)
    ensures
        has_flag(with_zn(p, v), StatusFlag::Zero) == (v == 0),
        has_flag(with_zn(p, v), StatusFlag::Negative) == (v >= 0x80),
        with_zn(p, v) & 0b0111_1101 == p & 0b0111_1101,
        with_zn(p, v) & UNUSED_BIT == p & UNUSED_BIT,
{
    let q = with_flag(p, StatusFlag::Zero, v == 0);
    lemma_with_flag(p, StatusFlag::Zero, v == 0);
    lemma_with_flag(q, StatusFlag::Negative, v >= 0x80);
    assert(has_flag(with_zn(p, v), StatusFlag::Zero) == has_flag(q, StatusFlag::Zero));
    assert(with_zn(p, v) & 0b0111_1101 == p & 0b0111_1101) by (bit_vector)
        requires
            q == (if v == 0 { p | 2 } else { p & !2u8 }),
            with_zn(p, v) == (if v >= 0x80 { q | 0x80 } else { q & !0x80u8 }),
    ;
}

/// One named bit of the status register, as the pair of masks that set and clear it.
pub struct FlagMask {
    pub set: u8,
    pub unset: u8,
}

/// The processor status register P.
pub struct ProcessorStatus {
    pub status: u8,
}

impl ProcessorStatus {
    pub fn new() -> (r: Self)
        ensures
            r.status == STATUS_RESET,
    {
        Self { status: STATUS_RESET }
    }

    fn get_mask(&self, flag: StatusFlag) -> (r: FlagMask)
        ensures
            r.set == flag.mask(),
            r.unset == !flag.mask(),
    {
        let r = match flag {
            StatusFlag::Carry => FlagMask { set: 0b0000_0001, unset: 0b1111_1110 },
            StatusFlag::Zero => FlagMask { set: 0b0000_0010, unset: 0b1111_1101 },
            StatusFlag::InterruptDisable => FlagMask { set: 0b0000_0100, unset: 0b1111_1011 },
            StatusFlag::Decimal => FlagMask { set: 0b0000_1000, unset: 0b1111_0111 },
            StatusFlag::B => FlagMask { set: 0b0001_0000, unset: 0b1110_1111 },
            StatusFlag::Overflow => FlagMask { set: 0b0100_0000, unset: 0b1011_1111 },
            StatusFlag::Negative => FlagMask { set: 0b1000_0000, unset: 0b0111_1111 },
        };
        assert(!1u8 == 0xFE && !2u8 == 0xFD && !4u8 == 0xFB && !8u8 == 0xF7 && !16u8 == 0xEF
            && !64u8 == 0xBF && !128u8 == 0x7F) by (bit_vector);
        r
    }

    pub fn set_flag(&mut self, flag: StatusFlag, bit: bool)
        ensures
            final(self).status == with_flag(old(self).status, flag, bit),
            has_flag(final(self).status, flag) == bit,
            forall|other: StatusFlag|
                other != flag ==> has_flag(final(self).status, other) == has_flag(
                    old(self).status,
                    other,
                ),
    {
        proof {
            lemma_with_flag(self.status, flag, bit);
        }
        let mask = self.get_mask(flag);
        if bit {
            self.status = self.status | mask.set;
        } else {
            self.status = self.status & mask.unset;
        }
    }

    /// Loads P from a byte as a whole; bit 5 reads as 1 whatever the byte holds.
    pub fn set_from_byte(&mut self, byte: u8)
        ensures
            final(self).status == byte | UNUSED_BIT,
            final(self).status & UNUSED_BIT != 0,
            forall|flag: StatusFlag| #[trigger] has_flag(final(self).status, flag) == has_flag(byte, flag),
    {
        self.status = byte | UNUSED_BIT;
        assert((byte | 0x20) & 0x20 != 0) by (bit_vector);
        assert forall|flag: StatusFlag| #[trigger] has_flag(byte | UNUSED_BIT, flag) == has_flag(byte, flag) by {
            let m = flag.mask();
            assert((byte | 0x20) & m == byte & m) by (bit_vector)
                requires
                    m == 1 || m == 2 || m == 4 || m == 8 || m == 16 || m == 64 || m == 128,
            ;
        }
    }

    pub fn get_flag(&self, flag: StatusFlag) -> (r: bool)
        ensures
            r == has_flag(self.status, flag),
    {
        let set = self.get_mask(flag).set;
        let status = self.status;
        let check = set & status;
        assert(check == status & set) by (bit_vector)
            requires
                check == set & status,
        ;
        check != 0
    }

    pub fn update_zero_and_negative_registers(&mut self, value: u8)
        ensures
            final(self).status == with_zn(old(self).status, value),
            has_flag(final(self).status, StatusFlag::Zero) == (value == 0),
            has_flag(final(self).status, StatusFlag::Negative) == (value >= 0x80),
            forall|other: StatusFlag|
                other != StatusFlag::Zero && other != StatusFlag::Negative ==> has_flag(
                    final(self).status,
                    other,
                ) == has_flag(old(self).status, other),
    {
        proof {
            lemma_with_zn(self.status, value);
        }
        assert((value & 0x80 != 0) == (value >= 0x80)) by (bit_vector);
        self.set_flag(StatusFlag::Zero, value == 0);
        self.set_flag(StatusFlag::Negative, value & 0x80 != 0);
    }
}

} // verus!
