use vstd::prelude::*;

verus! {

/// The payload is compressed with Zstandard.
pub const FLAG_ZSTD_COMPRESSED: u16 = 0x0001;

/// The network uses a side-to-move relative feature vector.
pub const FLAG_RELATIVE: u16 = 0x0002;

/// The network stores its weights at half precision.
pub const FLAG_HALF: u16 = 0x0004;

/// The network's input bucketing scheme is horizontally mirrored.
pub const FLAG_HORIZONTALLY_MIRRORED: u16 = 0x0008;

/// The bits that change the network's architecture, as opposed to how its
/// weights are stored.
pub const FLAGS_ARCH_MASK: u16 = 0x000e;

/// Every bit that has a defined meaning.
pub const FLAGS_ALL: u16 = 0x000f;

/// The flag bits of a CBNF header, held as the raw integer found in the file.
///
/// A value may carry bits outside [`FLAGS_ALL`] when it comes from a header
/// that was not validated.
#[derive(Clone, Copy, Debug, PartialEq, Eq, Structural)]
pub struct Flags {
    bits: u16,
}

impl View for Flags {
    type V = u16;

    closed spec fn view(&self) -> u16 {
        self.bits
    }
}

impl Flags {
    /// The value with no bit set.
    pub fn empty() -> (r: Flags)
        ensures
            r@ == 0,
    {
        Flags { bits: 0 }
    }

    /// The value with every defined bit set.
    pub fn all() -> (r: Flags)
        ensures
            r@ == FLAGS_ALL,
    {
        Flags { bits: FLAGS_ALL }
    }

    /// The value with exactly the given bits, defined or not.
    pub fn from_bits_retain(bits: u16) -> (r: Flags)
        ensures
            r@ == bits,
    {
        Flags { bits }
    }

    /// The value with the given bits, or `None` if any of them is undefined.
    pub fn from_bits(bits: u16) -> (r: Option<Flags>)
        ensures
            r is Some <==> bits & FLAGS_ALL == bits,
            r is Some ==> r->Some_0@ == bits,
    {
        if bits & FLAGS_ALL == bits {
            Some(Flags { bits })
        } else {
            None
        }
    }

    /// The raw bits.
    pub fn bits(&self) -> (r: u16)
        ensures
            r == self@,
    {
        self.bits
    }

    /// The bits set in both values.
    pub fn intersection(&self, other: Flags) -> (r: Flags)
        ensures
            r@ == self@ & other@,
    {
        Flags { bits: self.bits & other.bits }
    }

    /// The bits set in either value.
    pub fn union(&self, other: Flags) -> (r: Flags)
        ensures
            r@ == self@ | other@,
    {
        Flags { bits: self.bits | other.bits }
    }

    /// Whether every bit of `other` is set in `self`.
    pub fn contains(&self, other: Flags) -> (r: bool)
        ensures
            r == (self@ & other@ == other@),
    {
        self.bits & other.bits == other.bits
    }

    /// Whether no bit outside [`FLAGS_ALL`] is set.
    pub fn is_defined(&self) -> (r: bool)
        ensures
            r == (self@ & FLAGS_ALL == self@),
    {
        self.bits & FLAGS_ALL == self.bits
    }

    /// Whether the payload is Zstandard-compressed.
    pub fn is_zstd_compressed(&self) -> (r: bool)
        ensures
            r == (self@ & FLAG_ZSTD_COMPRESSED != 0),
    {
        self.bits & FLAG_ZSTD_COMPRESSED != 0
    }

    /// Whether the feature vector is side-to-move relative.
    pub fn is_relative(&self) -> (r: bool)
        ensures
            r == (self@ & FLAG_RELATIVE != 0),
    {
        self.bits & FLAG_RELATIVE != 0
    }

    /// Whether the weights are stored at half precision.
    pub fn is_half(&self) -> (r: bool)
        ensures
            r == (self@ & FLAG_HALF != 0),
    {
        self.bits & FLAG_HALF != 0
    }

    /// Whether the input bucketing is horizontally mirrored.
    pub fn is_horizontally_mirrored(&self) -> (r: bool)
        ensures
            r == (self@ & FLAG_HORIZONTALLY_MIRRORED != 0),
    {
        self.bits & FLAG_HORIZONTALLY_MIRRORED != 0
    }

    /// The bits that matter to the network's architecture: `self & FLAGS_ARCH_MASK`.
    pub fn arch_bits(&self) -> (r: Flags)
        ensures
            r@ == self@ & FLAGS_ARCH_MASK,
            r@ & FLAGS_ARCH_MASK == r@,
            r@ & FLAG_ZSTD_COMPRESSED == 0,
    {
        let r = Flags { bits: self.bits & FLAGS_ARCH_MASK };
        let b = self.bits;
        assert(b & 0x000eu16 & 0x000eu16 == b & 0x000eu16) by (bit_vector);
        assert(b & 0x000eu16 & 0x0001u16 == 0) by (bit_vector);
        r
    }
}

} // verus!
