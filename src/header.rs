use vstd::prelude::*;
use vstd::slice::slice_subrange;
use vstd::utf8::{decode_utf8, valid_utf8};

use crate::activation::{activation_of, Activation};
use crate::flags::{Flags, FLAGS_ARCH_MASK};
use crate::layout::{
    accepts, decode, header_bytes, lemma_decode_header_bytes, magic_tag, name_bytes, read_u16, satisfies_invariants,
    structurally_sound, HEADER_SIZE, KING_BUCKET_COUNT, MAX_LAYER_COUNT, NAME_CAPACITY,
    OFFSET_ACTIVATIONS, OFFSET_FLAGS, OFFSET_KING_BUCKETING, OFFSET_LAYER_COUNT,
    OFFSET_LAYER_QUANTIZATION, OFFSET_LAYER_SIZE, OFFSET_NAME, OFFSET_NAME_LEN,
    OFFSET_OUTPUT_BUCKETS, OFFSET_RESERVED, OFFSET_VERSION, RESERVED_LEN,
    SUPPORTED_HEADER_VERSION,
};

verus! {

#[verifier::external_type_specification]
#[verifier::external_body]
pub struct ExUtf8Error(core::str::Utf8Error);

/// Relies on `core::str::from_utf8`: it succeeds exactly on well-formed UTF-8,
/// and the string it returns holds the characters those bytes encode.
#[verifier::external_body]
fn utf8_str<'b>(v: &'b [u8]) -> (r: Result<&'b str, core::str::Utf8Error>)
    ensures
        r is Ok <==> valid_utf8(v@),
        r is Ok ==> r->Ok_0@ == decode_utf8(v@),
{
    core::str::from_utf8(v)
}

/// Why a header's name could not be read.
#[derive(Clone, Copy, Debug, PartialEq, Eq, Structural)]
pub enum NameError {
    /// The name's bytes are not well-formed UTF-8.
    InvalidUtf8,
}

/// A header, read in place from the caller's buffer.
///
/// It borrows the `HEADER_SIZE` bytes that start the buffer, which always begin
/// with the magic tag and the supported version. Its fields are decoded on
/// demand from their little-endian offsets.
pub struct CBNFHeader<'a> {
    bytes: &'a [u8],
}

impl<'a> View for CBNFHeader<'a> {
    type V = Seq<u8>;

    /// The header's bytes.
    closed spec fn view(&self) -> Seq<u8> {
        self.bytes@
    }
}

/// The little-endian 16-bit integer at `off`.
fn read_u16_at(b: &[u8], off: usize) -> (r: u16)
    requires
        off + 1 < b@.len(),
    ensures
        r == read_u16(b@, off as int),
{
    b[off] as u16 + (b[off + 1] as u16) * 256
}

impl<'a> CBNFHeader<'a> {
    #[verifier::type_invariant]
    spec fn inv(&self) -> bool {
        &&& self.bytes@.len() == HEADER_SIZE
        &&& structurally_sound(self.bytes@)
    }

    /// Reads a header from the start of `data`.
    ///
    /// Returns `None` if `data` is shorter than `HEADER_SIZE`, does not start
    /// with `CBNF`, or holds another version than `SUPPORTED_HEADER_VERSION`.
    /// With `validate`, it also returns `None` unless the flags are all
    /// defined, `output_buckets` is nonzero, `layer_count` is in `1..=32`, each
    /// of the first `layer_count` layer sizes is nonzero, and the name is
    /// terminated by a zero byte at `name_len`.
    pub fn parse(data: &'a [u8], validate: bool) -> (r: Option<CBNFHeader<'a>>)
        ensures
            r is Some <==> accepts(data@, validate),
            r is Some ==> r->Some_0@ == header_bytes(data@),
    {
        if data.len() < HEADER_SIZE {
            return None;
        }
        if data[0] != 0x43u8 || data[1] != 0x42u8 || data[2] != 0x4eu8 || data[3] != 0x46u8 {
            assert(data@.subrange(0, 4) != magic_tag()) by {
                if data@.subrange(0, 4) == magic_tag() {
                    assert(data@.subrange(0, 4)[0] == data@[0]);
                    assert(data@.subrange(0, 4)[1] == data@[1]);
                    assert(data@.subrange(0, 4)[2] == data@[2]);
                    assert(data@.subrange(0, 4)[3] == data@[3]);
                }
            }
            return None;
        }
        assert(data@.subrange(0, 4) =~= magic_tag());
        if data[OFFSET_VERSION] != SUPPORTED_HEADER_VERSION {
            return None;
        }
        let bytes = slice_subrange(data, 0, HEADER_SIZE);
        assert(bytes@.subrange(0, 4) =~= magic_tag());
        let header = CBNFHeader { bytes };
        proof {
            lemma_decode_header_bytes(data@);
        }
        if validate && !header.is_valid() {
            return None;
        }
        Some(header)
    }

    /// Whether the fields meet every invariant that validation checks.
    pub fn is_valid(&self) -> (r: bool)
        ensures
            r == satisfies_invariants(decode(self@)),
    {
        proof {
            use_type_invariant(self);
        }
        if !self.flags().is_defined() {
            return false;
        }
        if self.output_buckets() == 0 {
            return false;
        }
        let count = self.layer_count();
        if count == 0 || count > MAX_LAYER_COUNT {
            return false;
        }
        let mut i: u8 = 0;
        while i < count
            invariant
                i <= count <= MAX_LAYER_COUNT,
                count == decode(self@).layer_count,
                forall|j: int| 0 <= j < i ==> decode(self@).layer_size[j] != 0,
            decreases count - i,
        {
            if self.layer_size(i as usize) == 0 {
                return false;
            }
            i = i + 1;
        }
        let len = self.name_len();
        if len as usize >= NAME_CAPACITY {
            return false;
        }
        self.name_byte(len as usize) == 0
    }

    /// The four magic bytes, always `CBNF`.
    pub fn magic(&self) -> (r: [u8; 4])
        ensures
            r@ == decode(self@).magic,
            r@ == magic_tag(),
    {
        proof {
            use_type_invariant(self);
        }
        let r = [self.bytes[0], self.bytes[1], self.bytes[2], self.bytes[3]];
        assert(r@ =~= decode(self@).magic);
        r
    }

    /// The header version, always `SUPPORTED_HEADER_VERSION`.
    pub fn version(&self) -> (r: u8)
        ensures
            r == decode(self@).version,
            r == SUPPORTED_HEADER_VERSION,
    {
        proof {
            use_type_invariant(self);
        }
        self.bytes[OFFSET_VERSION]
    }

    /// All flag bits as stored, defined or not.
    pub fn flags(&self) -> (r: Flags)
        ensures
            r@ == decode(self@).flags,
    {
        proof {
            use_type_invariant(self);
        }
        Flags::from_bits_retain(read_u16_at(self.bytes, OFFSET_FLAGS))
    }

    /// The flags that matter to the network's architecture: the stored flags
    /// without the storage bits, so never a bit outside `FLAGS_ARCH_MASK`.
    pub fn arch_flags(&self) -> (r: Flags)
        ensures
            r@ == decode(self@).flags & FLAGS_ARCH_MASK,
            r@ & FLAGS_ARCH_MASK == r@,
    {
        self.flags().arch_bits()
    }

    /// The number of hidden layers.
    pub fn layer_count(&self) -> (r: u8)
        ensures
            r == decode(self@).layer_count,
    {
        proof {
            use_type_invariant(self);
        }
        self.bytes[OFFSET_LAYER_COUNT]
    }

    /// The width of layer `i`.
    pub fn layer_size(&self, i: usize) -> (r: u16)
        requires
            i < MAX_LAYER_COUNT,
        ensures
            r == decode(self@).layer_size[i as int],
    {
        proof {
            use_type_invariant(self);
        }
        read_u16_at(self.bytes, OFFSET_LAYER_SIZE + 2 * i)
    }

    /// The quantization scale of layer `i`.
    pub fn layer_quantization(&self, i: usize) -> (r: u8)
        requires
            i < MAX_LAYER_COUNT,
        ensures
            r == decode(self@).layer_quantization[i as int],
    {
        proof {
            use_type_invariant(self);
        }
        self.bytes[OFFSET_LAYER_QUANTIZATION + i]
    }

    /// The stored activation code of layer `i`.
    pub fn activation_code(&self, i: usize) -> (r: u8)
        requires
            i < MAX_LAYER_COUNT,
        ensures
            r == decode(self@).activations[i as int],
    {
        proof {
            use_type_invariant(self);
        }
        self.bytes[OFFSET_ACTIVATIONS + i]
    }

    /// The activation of layer `i`, or `None` where its code names none.
    pub fn activation(&self, i: usize) -> (r: Option<Activation>)
        requires
            i < MAX_LAYER_COUNT,
        ensures
            r == activation_of(decode(self@).activations[i as int]),
    {
        Activation::from_code(self.activation_code(i))
    }

    /// Entry `i` of the input king-bucketing table.
    pub fn input_king_bucketing(&self, i: usize) -> (r: u8)
        requires
            i < KING_BUCKET_COUNT,
        ensures
            r == decode(self@).input_king_bucketing[i as int],
    {
        proof {
            use_type_invariant(self);
        }
        self.bytes[OFFSET_KING_BUCKETING + i]
    }

    /// The number of output buckets.
    pub fn output_buckets(&self) -> (r: u8)
        ensures
            r == decode(self@).output_buckets,
    {
        proof {
            use_type_invariant(self);
        }
        self.bytes[OFFSET_OUTPUT_BUCKETS]
    }

    /// Reserved byte `i`.
    pub fn reserved(&self, i: usize) -> (r: u8)
        requires
            i < RESERVED_LEN,
        ensures
            r == decode(self@).reserved[i as int],
    {
        proof {
            use_type_invariant(self);
        }
        self.bytes[OFFSET_RESERVED + i]
    }

    /// The stored length of the name.
    pub fn name_len(&self) -> (r: u8)
        ensures
            r == decode(self@).name_len,
    {
        proof {
            use_type_invariant(self);
        }
        self.bytes[OFFSET_NAME_LEN]
    }

    /// Byte `i` of the name field.
    pub fn name_byte(&self, i: usize) -> (r: u8)
        requires
            i < NAME_CAPACITY,
        ensures
            r == decode(self@).name[i as int],
    {
        proof {
            use_type_invariant(self);
        }
        self.bytes[OFFSET_NAME + i]
    }

    /// The name, decoded as UTF-8 from its first `name_len` bytes, or from the
    /// first `NAME_CAPACITY - 1` where `name_len` is larger.
    pub fn name(&self) -> (r: Result<&'a str, NameError>)
        ensures
            r is Ok <==> valid_utf8(name_bytes(self@)),
            r is Ok ==> r->Ok_0@ == decode_utf8(name_bytes(self@)),
            decode(self@).name_len == 0 ==> r is Ok && r->Ok_0@.len() == 0,
    {
        proof {
            use_type_invariant(self);
        }
        let stored = self.bytes[OFFSET_NAME_LEN] as usize;
        let len: usize = if stored < NAME_CAPACITY - 1 {
            stored
        } else {
            NAME_CAPACITY - 1
        };
        let raw = slice_subrange(self.bytes, OFFSET_NAME, OFFSET_NAME + len);
        assert(raw@ == name_bytes(self@));
        match utf8_str(raw) {
            Ok(s) => Ok(s),
            Err(_) => Err(NameError::InvalidUtf8),
        }
    }

    /// The header's bytes, exactly as they stand in the buffer.
    pub fn as_bytes(&self) -> (r: &'a [u8])
        ensures
            r@ == self@,
            r@.len() == HEADER_SIZE,
            structurally_sound(r@),
    {
        proof {
            use_type_invariant(self);
        }
        self.bytes
    }
}

} // verus!
