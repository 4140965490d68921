//! The raster format word: a packed 32-bit mask that names the colour model,
//! the place of an alpha or padding byte, the depth of a component, the byte
//! order, the row order, the 16-bit native packing and the row alignment.

use crate::text::{hex, push_hex};
use vstd::prelude::*;

verus! {

pub const DISPLAY_COLORS_NATIVE: u32 = 0x0000_0001;
pub const DISPLAY_COLORS_GRAY: u32 = 0x0000_0002;
pub const DISPLAY_COLORS_RGB: u32 = 0x0000_0004;
pub const DISPLAY_COLORS_CMYK: u32 = 0x0000_0008;
pub const DISPLAY_COLORS_SEPARATION: u32 = 0x0008_0000;
pub const DISPLAY_COLORS_MASK: u32 = 0x0008_000f;

pub const DISPLAY_ALPHA_NONE: u32 = 0x0000_0000;
pub const DISPLAY_ALPHA_FIRST: u32 = 0x0000_0010;
pub const DISPLAY_ALPHA_LAST: u32 = 0x0000_0020;
pub const DISPLAY_UNUSED_FIRST: u32 = 0x0000_0040;
pub const DISPLAY_UNUSED_LAST: u32 = 0x0000_0080;
pub const DISPLAY_ALPHA_MASK: u32 = 0x0000_00f0;

pub const DISPLAY_DEPTH_1: u32 = 0x0000_0100;
pub const DISPLAY_DEPTH_2: u32 = 0x0000_0200;
pub const DISPLAY_DEPTH_4: u32 = 0x0000_0400;
pub const DISPLAY_DEPTH_8: u32 = 0x0000_0800;
pub const DISPLAY_DEPTH_12: u32 = 0x0000_1000;
pub const DISPLAY_DEPTH_16: u32 = 0x0000_2000;
pub const DISPLAY_DEPTH_MASK: u32 = 0x0000_ff00;

pub const DISPLAY_BIGENDIAN: u32 = 0x0000_0000;
pub const DISPLAY_LITTLEENDIAN: u32 = 0x0001_0000;
pub const DISPLAY_ENDIAN_MASK: u32 = 0x0001_0000;

pub const DISPLAY_TOPFIRST: u32 = 0x0000_0000;
pub const DISPLAY_BOTTOMFIRST: u32 = 0x0002_0000;
pub const DISPLAY_FIRSTROW_MASK: u32 = 0x0002_0000;

pub const DISPLAY_NATIVE_555: u32 = 0x0000_0000;
pub const DISPLAY_NATIVE_565: u32 = 0x0004_0000;
pub const DISPLAY_555_MASK: u32 = 0x0004_0000;

pub const DISPLAY_ROW_ALIGN_DEFAULT: u32 = 0x0000_0000;
pub const DISPLAY_ROW_ALIGN_4: u32 = 0x0030_0000;
pub const DISPLAY_ROW_ALIGN_8: u32 = 0x0040_0000;
pub const DISPLAY_ROW_ALIGN_16: u32 = 0x0050_0000;
pub const DISPLAY_ROW_ALIGN_32: u32 = 0x0060_0000;
pub const DISPLAY_ROW_ALIGN_64: u32 = 0x0070_0000;
pub const DISPLAY_ROW_ALIGN_MASK: u32 = 0x0070_0000;

/// Every bit that some field of the format word uses.
pub const DISPLAY_ALL_BITS: u32 = 0x007f_ffff;

/// A raster format word that holds no bit outside the fields of the format.
#[derive(Copy, Clone, Debug, PartialEq, Eq, Structural, PartialOrd, Ord, Hash)]
pub struct DisplayFormat {
    bits: u32,
}

/// The text of the initialization argument that asks the engine for a raster
/// format: the fixed prefix, then the format word in lower-case base sixteen.
pub open spec fn format_init_arg(bits: u32) -> Seq<char> {
    "-dDisplayFormat=16#"@ + hex(bits as nat)
}

impl DisplayFormat {
    /// The format word as an integer.
    pub closed spec fn spec_bits(&self) -> u32 {
        self.bits
    }

    /// No bit of the word lies outside the fields of the format.
    #[verifier::type_invariant]
    pub closed spec fn well_formed(self) -> bool {
        self.bits & !DISPLAY_ALL_BITS == 0
    }

    /// The format with no bit set.
    pub fn empty() -> (format: DisplayFormat)
        ensures
            format.spec_bits() == 0,
    {
        assert(0u32 & !DISPLAY_ALL_BITS == 0) by (bit_vector);
        DisplayFormat { bits: 0 }
    }

    /// The format with every known bit set.
    pub fn all() -> (format: DisplayFormat)
        ensures
            format.spec_bits() == DISPLAY_ALL_BITS,
    {
        assert(DISPLAY_ALL_BITS & !DISPLAY_ALL_BITS == 0) by (bit_vector);
        DisplayFormat { bits: DISPLAY_ALL_BITS }
    }

    /// The format word as an integer. It never holds an unknown bit.
    #[verifier::when_used_as_spec(spec_bits)]
    pub fn bits(&self) -> (bits: u32)
        ensures
            bits == self.spec_bits(),
            bits & !DISPLAY_ALL_BITS == 0,
    {
        proof {
            use_type_invariant(self);
        }
        self.bits
    }

    /// The format made of the known bits of `bits`.
    pub closed spec fn truncated(bits: u32) -> DisplayFormat {
        DisplayFormat { bits: bits & DISPLAY_ALL_BITS }
    }

    /// The format made of the known bits of `bits` holds exactly those bits.
    pub proof fn lemma_truncated_bits(bits: u32)
        ensures
            Self::truncated(bits).spec_bits() == bits & DISPLAY_ALL_BITS,
    {
    }

    /// The format made of the known bits of `bits`; unknown bits are dropped.
    pub fn from_bits_truncate(bits: u32) -> (format: DisplayFormat)
        ensures
            format == Self::truncated(bits),
            format.spec_bits() == bits & DISPLAY_ALL_BITS,
    {
        let kept: u32 = bits & DISPLAY_ALL_BITS;
        assert((bits & DISPLAY_ALL_BITS) & !DISPLAY_ALL_BITS == 0) by (bit_vector);
        DisplayFormat { bits: kept }
    }

    /// The format made of `bits`, if all of them are known.
    pub fn from_bits(bits: u32) -> (format: Option<DisplayFormat>)
        ensures
            format is Some <==> bits & !DISPLAY_ALL_BITS == 0,
            format matches Some(f) ==> f.spec_bits() == bits,
    {
        if bits & !DISPLAY_ALL_BITS == 0 {
            Some(DisplayFormat { bits })
        } else {
            None
        }
    }

    /// Whether no bit is set.
    pub fn is_empty(&self) -> (empty: bool)
        ensures
            empty == (self.spec_bits() == 0),
    {
        self.bits == 0
    }

    /// Whether every bit of `other` is set in `self`.
    pub fn contains(&self, other: DisplayFormat) -> (all: bool)
        ensures
            all == (self.spec_bits() & other.spec_bits() == other.spec_bits()),
    {
        self.bits & other.bits == other.bits
    }

    /// The bits that both formats hold.
    pub fn intersection(self, other: DisplayFormat) -> (format: DisplayFormat)
        ensures
            format.spec_bits() == self.spec_bits() & other.spec_bits(),
    {
        proof {
            use_type_invariant(self);
        }
        let a: u32 = self.bits;
        let b: u32 = other.bits;
        assert((a & b) & !DISPLAY_ALL_BITS == 0) by (bit_vector)
            requires
                a & !DISPLAY_ALL_BITS == 0,
        ;
        DisplayFormat { bits: a & b }
    }

    /// The bits that either format holds.
    pub fn union(self, other: DisplayFormat) -> (format: DisplayFormat)
        ensures
            format.spec_bits() == self.spec_bits() | other.spec_bits(),
    {
        proof {
            use_type_invariant(self);
            use_type_invariant(other);
        }
        let a: u32 = self.bits;
        let b: u32 = other.bits;
        assert((a | b) & !DISPLAY_ALL_BITS == 0) by (bit_vector)
            requires
                a & !DISPLAY_ALL_BITS == 0,
                b & !DISPLAY_ALL_BITS == 0,
        ;
        DisplayFormat { bits: a | b }
    }

    /// The initialization argument that asks the engine for this format.
    pub fn format_as_init_arg(&self) -> (arg: String)
        ensures
            arg@ == format_init_arg(self.spec_bits()),
    {
        let mut arg = String::from_str("-dDisplayFormat=16#");
        push_hex(&mut arg, self.bits as u64);
        arg
    }
}

impl Default for DisplayFormat {
    /// The format with no bit set.
    fn default() -> (format: DisplayFormat)
        ensures
            format.spec_bits() == 0,
    {
        DisplayFormat::empty()
    }
}

} // verus!
