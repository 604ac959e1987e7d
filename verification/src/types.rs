//! Status-register bit codecs and chip geometry.
//!
//! Each of the three status registers is one byte on the wire and a plain
//! struct here.  Unpacking reads the documented bit positions; packing is its
//! inverse.  `busy` and `wel` in register 1 are set by the chip alone, so the
//! write path never transmits them: `to_writable_u8` projects a register onto
//! its writable subset, with every read-only bit zero.

use vstd::prelude::*;

verus! {

/// A status register selector together with the field values to write.
#[derive(Debug, Clone, Copy, PartialEq, Eq, Structural)]
pub enum SR {
    SR1(SR1),
    SR2(SR2),
    SR3(SR3),
}

/// Status register 1: protection configuration plus the chip-owned
/// `busy` and `wel` flags.
#[derive(Debug, Clone, Copy, PartialEq, Eq, Structural, Default)]
pub struct SR1 {
    /// Status-register protect bit 0 (bit 7).
    pub srp0: bool,
    /// Sector/block protect granularity (bit 6).
    pub sec: bool,
    /// Top/bottom protect direction (bit 5).
    pub tb: bool,
    /// Block-protect level, three bits (bits 2..=4).
    pub bp: u8,
    /// Write-enable latch, set by the chip after a write-enable command
    /// and cleared when a mutating command completes (bit 1). Read-only.
    pub wel: bool,
    /// Erase or program in progress (bit 0). Read-only.
    pub busy: bool,
}

impl SR1 {
    /// The fields encoded by the given register byte.
    pub open spec fn spec_from_u8(byte: u8) -> SR1 {
        SR1 {
            srp0: (byte & 0b1000_0000) != 0,
            sec: (byte & 0b0100_0000) != 0,
            tb: (byte & 0b0010_0000) != 0,
            bp: (byte & 0b0001_1100) >> 2,
            wel: (byte & 0b0000_0010) != 0,
            busy: (byte & 0b0000_0001) != 0,
        }
    }

    /// The register byte encoding these fields.
    pub open spec fn spec_to_u8(self) -> u8 {
        (if self.srp0 { 1u8 } else { 0u8 }) << 7
            | (if self.sec { 1u8 } else { 0u8 }) << 6
            | (if self.tb { 1u8 } else { 0u8 }) << 5
            | ((self.bp & 0b111) << 2)
            | (if self.wel { 1u8 } else { 0u8 }) << 1
            | (if self.busy { 1u8 } else { 0u8 })
    }

    /// The writable-subset byte: every protection field at its write
    /// position, the read-only `busy` and `wel` bits zero.
    pub open spec fn spec_writable(self) -> u8 {
        (if self.srp0 { 1u8 } else { 0u8 }) << 7
            | (if self.sec { 1u8 } else { 0u8 }) << 6
            | (if self.tb { 1u8 } else { 0u8 }) << 5
            | ((self.bp & 0b111) << 2)
    }

    /// Unpack a register byte into its fields.
    pub fn from_u8(byte: u8) -> (r: SR1)
        ensures
            r == SR1::spec_from_u8(byte),
    {
        SR1 {
            srp0: (byte & 0b1000_0000) != 0,
            sec: (byte & 0b0100_0000) != 0,
            tb: (byte & 0b0010_0000) != 0,
            bp: (byte & 0b0001_1100) >> 2,
            wel: (byte & 0b0000_0010) != 0,
            busy: (byte & 0b0000_0001) != 0,
        }
    }

    /// Pack the fields into a register byte.
    pub fn to_u8(&self) -> (r: u8)
        ensures
            r == self.spec_to_u8(),
    {
        (if self.srp0 { 1u8 } else { 0u8 }) << 7
            | (if self.sec { 1u8 } else { 0u8 }) << 6
            | (if self.tb { 1u8 } else { 0u8 }) << 5
            | ((self.bp & 0b111) << 2)
            | (if self.wel { 1u8 } else { 0u8 }) << 1
            | (if self.busy { 1u8 } else { 0u8 })
    }

    /// Pack only the writable subset, for the write-status-register payload.
    pub fn to_writable_u8(&self) -> (r: u8)
        ensures
            r == self.spec_writable(),
    {
        (if self.srp0 { 1u8 } else { 0u8 }) << 7
            | (if self.sec { 1u8 } else { 0u8 }) << 6
            | (if self.tb { 1u8 } else { 0u8 }) << 5
            | ((self.bp & 0b111) << 2)
    }
}

/// Status register 2: suspend flag, quad enable and security lock bits.
#[derive(Debug, Clone, Copy, PartialEq, Eq, Structural, Default)]
pub struct SR2 {
    /// Erase/program suspend flag (bit 7). Read-only.
    pub sus: bool,
    /// Complement-protect bit (bit 6).
    pub cmp: bool,
    /// Security-register lock bits, three bits (bits 3..=5).
    pub lb: u8,
    /// Quad-enable bit (bit 1).
    pub qe: bool,
    /// Status-register protect bit 1 (bit 0).
    pub srp1: bool,
}

impl SR2 {
    /// The fields encoded by the given register byte.
    pub open spec fn spec_from_u8(byte: u8) -> SR2 {
        SR2 {
            sus: (byte & 0b1000_0000) != 0,
            cmp: (byte & 0b0100_0000) != 0,
            lb: (byte >> 3) & 0b111,
            qe: (byte & 0b0000_0010) != 0,
            srp1: (byte & 0b0000_0001) != 0,
        }
    }

    /// The register byte encoding these fields.
    pub open spec fn spec_to_u8(self) -> u8 {
        (if self.sus { 1u8 } else { 0u8 }) << 7
            | (if self.cmp { 1u8 } else { 0u8 }) << 6
            | ((self.lb & 0b111) << 3)
            | (if self.qe { 1u8 } else { 0u8 }) << 1
            | (if self.srp1 { 1u8 } else { 0u8 })
    }

    /// The writable-subset byte: `cmp`, the lock bits and `qe`; the suspend
    /// flag, which only the chip sets, and `srp1` stay zero.
    pub open spec fn spec_writable(self) -> u8 {
        (if self.cmp { 1u8 } else { 0u8 }) << 6
            | (if self.qe { 1u8 } else { 0u8 }) << 1
            | ((self.lb & 0b111) << 3)
    }

    /// Unpack a register byte into its fields.
    pub fn from_u8(byte: u8) -> (r: SR2)
        ensures
            r == SR2::spec_from_u8(byte),
    {
        SR2 {
            sus: (byte & 0b1000_0000) != 0,
            cmp: (byte & 0b0100_0000) != 0,
            lb: (byte >> 3) & 0b111,
            qe: (byte & 0b0000_0010) != 0,
            srp1: (byte & 0b0000_0001) != 0,
        }
    }

    /// Pack the fields into a register byte.
    pub fn to_u8(&self) -> (r: u8)
        ensures
            r == self.spec_to_u8(),
    {
        (if self.sus { 1u8 } else { 0u8 }) << 7
            | (if self.cmp { 1u8 } else { 0u8 }) << 6
            | ((self.lb & 0b111) << 3)
            | (if self.qe { 1u8 } else { 0u8 }) << 1
            | (if self.srp1 { 1u8 } else { 0u8 })
    }

    /// Pack only the writable subset, for the write-status-register payload.
    pub fn to_writable_u8(&self) -> (r: u8)
        ensures
            r == self.spec_writable(),
    {
        (if self.cmp { 1u8 } else { 0u8 }) << 6
            | (if self.qe { 1u8 } else { 0u8 }) << 1
            | ((self.lb & 0b111) << 3)
    }
}

/// Status register 3: hold/reset pin function, output drive strength and
/// write-protect scheme.
#[derive(Debug, Clone, Copy, PartialEq, Eq, Structural, Default)]
pub struct SR3 {
    /// Hold or reset pin function (bit 7).
    pub hold_or_reset: bool,
    /// Output driver strength, two bits (bits 5..=6).
    pub driver_strength: u8,
    /// Write-protect scheme selector (bit 2).
    pub wps: bool,
}

impl SR3 {
    /// The fields encoded by the given register byte.
    pub open spec fn spec_from_u8(byte: u8) -> SR3 {
        SR3 {
            hold_or_reset: (byte & 0b1000_0000) != 0,
            driver_strength: (byte >> 5) & 0b11,
            wps: (byte & 0b0000_0100) != 0,
        }
    }

    /// The register byte encoding these fields.
    pub open spec fn spec_to_u8(self) -> u8 {
        (if self.hold_or_reset { 1u8 } else { 0u8 }) << 7
            | ((self.driver_strength & 0b11) << 5)
            | (if self.wps { 1u8 } else { 0u8 }) << 2
    }

    /// The writable-subset byte; every field of this register is writable.
    pub open spec fn spec_writable(self) -> u8 {
        (if self.wps { 1u8 } else { 0u8 }) << 2
            | ((self.driver_strength & 0b11) << 5)
    }

    /// Unpack a register byte into its fields.
    pub fn from_u8(byte: u8) -> (r: SR3)
        ensures
            r == SR3::spec_from_u8(byte),
    {
        SR3 {
            hold_or_reset: (byte & 0b1000_0000) != 0,
            driver_strength: (byte >> 5) & 0b11,
            wps: (byte & 0b0000_0100) != 0,
        }
    }

    /// Pack the fields into a register byte.
    pub fn to_u8(&self) -> (r: u8)
        ensures
            r == self.spec_to_u8(),
    {
        (if self.hold_or_reset { 1u8 } else { 0u8 }) << 7
            | ((self.driver_strength & 0b11) << 5)
            | (if self.wps { 1u8 } else { 0u8 }) << 2
    }

    /// Pack only the writable subset, for the write-status-register payload.
    pub fn to_writable_u8(&self) -> (r: u8)
        ensures
            r == self.spec_writable(),
    {
        (if self.wps { 1u8 } else { 0u8 }) << 2
            | ((self.driver_strength & 0b11) << 5)
    }
}

/// Chip geometry, fixed at construction.
#[derive(Debug, Clone, Copy, PartialEq, Eq, Structural)]
pub struct FlashConfig {
    /// Total capacity in bytes.
    pub total_size: usize,
    /// Bytes per program page.
    pub page_size: usize,
}

/// Packing a register-1 byte's fields yields the byte back: no information
/// in register 1 is lost by the codec.
pub proof fn lemma_sr1_pack_unpack(byte: u8)
    ensures
        SR1::spec_from_u8(byte).spec_to_u8() == byte,
{
    assert((if (byte & 0b1000_0000) != 0 { 1u8 } else { 0u8 }) << 7
        | (if (byte & 0b0100_0000) != 0 { 1u8 } else { 0u8 }) << 6
        | (if (byte & 0b0010_0000) != 0 { 1u8 } else { 0u8 }) << 5
        | ((((byte & 0b0001_1100) >> 2) & 0b111) << 2)
        | (if (byte & 0b0000_0010) != 0 { 1u8 } else { 0u8 }) << 1
        | (if (byte & 0b0000_0001) != 0 { 1u8 } else { 0u8 }) == byte) by (bit_vector);
}

/// Round trip for register 1: unpacking the packed byte reproduces every
/// field, whenever the block-protect level fits its three bits.
pub proof fn lemma_sr1_unpack_pack(s: SR1)
    requires
        s.bp < 8,
    ensures
        SR1::spec_from_u8(s.spec_to_u8()) == s,
{
    let srp0: u8 = if s.srp0 { 1 } else { 0 };
    let sec: u8 = if s.sec { 1 } else { 0 };
    let tb: u8 = if s.tb { 1 } else { 0 };
    let wel: u8 = if s.wel { 1 } else { 0 };
    let busy: u8 = if s.busy { 1 } else { 0 };
    let bp: u8 = s.bp;
    let b: u8 = srp0 << 7 | sec << 6 | tb << 5 | ((bp & 0b111) << 2) | wel << 1 | busy;
    assert(((b & 0b1000_0000) != 0) == (srp0 == 1)
        && ((b & 0b0100_0000) != 0) == (sec == 1)
        && ((b & 0b0010_0000) != 0) == (tb == 1)
        && ((b & 0b0001_1100) >> 2) == bp
        && ((b & 0b0000_0010) != 0) == (wel == 1)
        && ((b & 0b0000_0001) != 0) == (busy == 1)) by (bit_vector)
        requires
            srp0 <= 1,
            sec <= 1,
            tb <= 1,
            wel <= 1,
            busy <= 1,
            bp < 8,
            b == srp0 << 7 | sec << 6 | tb << 5 | ((bp & 0b111) << 2) | wel << 1 | busy,
    ;
}

/// Round trip for register 2 over every byte value: the fields read from a
/// register byte survive packing and unpacking unchanged.
pub proof fn lemma_sr2_roundtrip(byte: u8)
    ensures
        SR2::spec_from_u8(SR2::spec_from_u8(byte).spec_to_u8()) == SR2::spec_from_u8(byte),
{
    let p = SR2::spec_from_u8(byte).spec_to_u8();
    assert(((p & 0b1000_0000) != 0) == ((byte & 0b1000_0000) != 0)
        && ((p & 0b0100_0000) != 0) == ((byte & 0b0100_0000) != 0)
        && ((p >> 3) & 0b111) == ((byte >> 3) & 0b111)
        && ((p & 0b0000_0010) != 0) == ((byte & 0b0000_0010) != 0)
        && ((p & 0b0000_0001) != 0) == ((byte & 0b0000_0001) != 0)) by (bit_vector)
        requires
            p == (if (byte & 0b1000_0000) != 0 { 1u8 } else { 0u8 }) << 7
                | (if (byte & 0b0100_0000) != 0 { 1u8 } else { 0u8 }) << 6
                | ((((byte >> 3) & 0b111) & 0b111) << 3)
                | (if (byte & 0b0000_0010) != 0 { 1u8 } else { 0u8 }) << 1
                | (if (byte & 0b0000_0001) != 0 { 1u8 } else { 0u8 }),
    ;
}

/// Round trip for register 2: unpacking the packed byte reproduces every
/// field, whenever the lock-bit group fits its three bits.
pub proof fn lemma_sr2_unpack_pack(s: SR2)
    requires
        s.lb < 8,
    ensures
        SR2::spec_from_u8(s.spec_to_u8()) == s,
{
    let sus: u8 = if s.sus { 1 } else { 0 };
    let cmp: u8 = if s.cmp { 1 } else { 0 };
    let qe: u8 = if s.qe { 1 } else { 0 };
    let srp1: u8 = if s.srp1 { 1 } else { 0 };
    let lb: u8 = s.lb;
    let b: u8 = sus << 7 | cmp << 6 | ((lb & 0b111) << 3) | qe << 1 | srp1;
    assert(((b & 0b1000_0000) != 0) == (sus == 1)
        && ((b & 0b0100_0000) != 0) == (cmp == 1)
        && ((b >> 3) & 0b111) == lb
        && ((b & 0b0000_0010) != 0) == (qe == 1)
        && ((b & 0b0000_0001) != 0) == (srp1 == 1)) by (bit_vector)
        requires
            sus <= 1,
            cmp <= 1,
            qe <= 1,
            srp1 <= 1,
            lb < 8,
            b == sus << 7 | cmp << 6 | ((lb & 0b111) << 3) | qe << 1 | srp1,
    ;
}

/// Round trip for register 3: unpacking the packed byte reproduces every
/// field, whenever the drive strength fits its two bits.
pub proof fn lemma_sr3_unpack_pack(s: SR3)
    requires
        s.driver_strength < 4,
    ensures
        SR3::spec_from_u8(s.spec_to_u8()) == s,
{
    let hold: u8 = if s.hold_or_reset { 1 } else { 0 };
    let wps: u8 = if s.wps { 1 } else { 0 };
    let ds: u8 = s.driver_strength;
    let b: u8 = hold << 7 | ((ds & 0b11) << 5) | wps << 2;
    assert(((b & 0b1000_0000) != 0) == (hold == 1)
        && ((b >> 5) & 0b11) == ds
        && ((b & 0b0000_0100) != 0) == (wps == 1)) by (bit_vector)
        requires
            hold <= 1,
            wps <= 1,
            ds < 4,
            b == hold << 7 | ((ds & 0b11) << 5) | wps << 2,
    ;
}

/// Round trip for register 3 over every byte value: the fields read from a
/// register byte survive packing and unpacking unchanged.
pub proof fn lemma_sr3_roundtrip(byte: u8)
    ensures
        SR3::spec_from_u8(SR3::spec_from_u8(byte).spec_to_u8()) == SR3::spec_from_u8(byte),
{
    let p = SR3::spec_from_u8(byte).spec_to_u8();
    assert(((p & 0b1000_0000) != 0) == ((byte & 0b1000_0000) != 0)
        && ((p >> 5) & 0b11) == ((byte >> 5) & 0b11)
        && ((p & 0b0000_0100) != 0) == ((byte & 0b0000_0100) != 0)) by (bit_vector)
        requires
            p == (if (byte & 0b1000_0000) != 0 { 1u8 } else { 0u8 }) << 7
                | ((((byte >> 5) & 0b11) & 0b11) << 5)
                | (if (byte & 0b0000_0100) != 0 { 1u8 } else { 0u8 }) << 2,
    ;
}

/// Round trip for register 1 over every byte value, an instance of the exact
/// byte identity.
pub proof fn lemma_sr1_roundtrip(byte: u8)
    ensures
        SR1::spec_from_u8(SR1::spec_from_u8(byte).spec_to_u8()) == SR1::spec_from_u8(byte),
{
    lemma_sr1_pack_unpack(byte);
}

/// The writable projection of register 1 keeps the chip-owned `busy` and
/// `wel` bits at zero.
pub proof fn lemma_sr1_writable_readonly_zero(s: SR1)
    ensures
        s.spec_writable() & 0b0000_0011 == 0,
{
    let srp0: u8 = if s.srp0 { 1 } else { 0 };
    let sec: u8 = if s.sec { 1 } else { 0 };
    let tb: u8 = if s.tb { 1 } else { 0 };
    let bp: u8 = s.bp;
    assert((srp0 << 7 | sec << 6 | tb << 5 | ((bp & 0b111) << 2)) & 0b0000_0011 == 0)
        by (bit_vector);
}

/// Two register-1 values that differ only in the chip-owned `busy` and `wel`
/// bits have the same writable projection.
pub proof fn lemma_sr1_writable_ignores_readonly(x: SR1, y: SR1)
    requires
        x.srp0 == y.srp0,
        x.sec == y.sec,
        x.tb == y.tb,
        x.bp == y.bp,
    ensures
        x.spec_writable() == y.spec_writable(),
{
}

} // verus!
