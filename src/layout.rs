use vstd::prelude::*;

verus! {

/// Size in bytes of the header, which is also the offset of the payload.
pub const HEADER_SIZE: usize = 256;

/// The largest number of hidden layers a header can describe.
pub const MAX_LAYER_COUNT: u8 = 32;

/// The one header version this codec reads.
pub const SUPPORTED_HEADER_VERSION: u8 = 2;

/// Bytes reserved for the network's name, terminator included.
pub const NAME_CAPACITY: usize = 48;

/// Entries of the input king-bucketing table.
pub const KING_BUCKET_COUNT: usize = 64;

/// Bytes that the header reserves for later use.
pub const RESERVED_LEN: usize = 6;

// Byte offsets of the fields, in layout order; the magic tag is at 0.
pub const OFFSET_VERSION: usize = 4;
pub const OFFSET_FLAGS: usize = 5;
pub const OFFSET_LAYER_COUNT: usize = 7;
pub const OFFSET_LAYER_SIZE: usize = 8;
pub const OFFSET_LAYER_QUANTIZATION: usize = 72;
pub const OFFSET_ACTIVATIONS: usize = 104;
pub const OFFSET_KING_BUCKETING: usize = 136;
pub const OFFSET_OUTPUT_BUCKETS: usize = 200;
pub const OFFSET_RESERVED: usize = 201;
pub const OFFSET_NAME_LEN: usize = 207;
pub const OFFSET_NAME: usize = 208;

/// The four bytes every header starts with: ASCII `CBNF`.
pub open spec fn magic_tag() -> Seq<u8> {
    seq![0x43u8, 0x42u8, 0x4eu8, 0x46u8]
}

/// The little-endian 16-bit integer stored at `off`.
pub open spec fn read_u16(b: Seq<u8>, off: int) -> u16 {
    (b[off] as int + 256 * b[off + 1] as int) as u16
}

/// The little-endian encoding of a sequence of 16-bit integers.
pub open spec fn encode_u16s(s: Seq<u16>) -> Seq<u8> {
    Seq::new(
        2 * s.len(),
        |i: int|
            if i % 2 == 0 {
                (s[i / 2] % 256) as u8
            } else {
                (s[i / 2] / 256) as u8
            },
    )
}

/// The header's fields as numbers and byte sequences.
#[verifier::ext_equal]
pub struct HeaderFields {
    pub magic: Seq<u8>,
    pub version: u8,
    pub flags: u16,
    pub layer_count: u8,
    pub layer_size: Seq<u16>,
    pub layer_quantization: Seq<u8>,
    pub activations: Seq<u8>,
    pub input_king_bucketing: Seq<u8>,
    pub output_buckets: u8,
    pub reserved: Seq<u8>,
    pub name_len: u8,
    pub name: Seq<u8>,
}

/// Each sequence field has the length the layout gives it.
pub open spec fn well_sized(m: HeaderFields) -> bool {
    &&& m.magic.len() == 4
    &&& m.layer_size.len() == MAX_LAYER_COUNT
    &&& m.layer_quantization.len() == MAX_LAYER_COUNT
    &&& m.activations.len() == MAX_LAYER_COUNT
    &&& m.input_king_bucketing.len() == KING_BUCKET_COUNT
    &&& m.reserved.len() == RESERVED_LEN
    &&& m.name.len() == NAME_CAPACITY
}

/// The fields read from the first `HEADER_SIZE` bytes of `b`.
pub open spec fn decode(b: Seq<u8>) -> HeaderFields {
    HeaderFields {
        magic: b.subrange(0, OFFSET_VERSION as int),
        version: b[OFFSET_VERSION as int],
        flags: read_u16(b, OFFSET_FLAGS as int),
        layer_count: b[OFFSET_LAYER_COUNT as int],
        layer_size: Seq::new(
            MAX_LAYER_COUNT as nat,
            |i: int| read_u16(b, OFFSET_LAYER_SIZE + 2 * i),
        ),
        layer_quantization: b.subrange(
            OFFSET_LAYER_QUANTIZATION as int,
            OFFSET_ACTIVATIONS as int,
        ),
        activations: b.subrange(OFFSET_ACTIVATIONS as int, OFFSET_KING_BUCKETING as int),
        input_king_bucketing: b.subrange(
            OFFSET_KING_BUCKETING as int,
            OFFSET_OUTPUT_BUCKETS as int,
        ),
        output_buckets: b[OFFSET_OUTPUT_BUCKETS as int],
        reserved: b.subrange(OFFSET_RESERVED as int, OFFSET_NAME_LEN as int),
        name_len: b[OFFSET_NAME_LEN as int],
        name: b.subrange(OFFSET_NAME as int, HEADER_SIZE as int),
    }
}

/// The bytes that hold the fields `m`, in layout order.
pub open spec fn encode(m: HeaderFields) -> Seq<u8> {
    m.magic + seq![m.version] + encode_u16s(seq![m.flags]) + seq![m.layer_count] + encode_u16s(
        m.layer_size,
    ) + m.layer_quantization + m.activations + m.input_king_bucketing + seq![m.output_buckets]
        + m.reserved + seq![m.name_len] + m.name
}

/// The part of a buffer that a header occupies.
pub open spec fn header_bytes(b: Seq<u8>) -> Seq<u8> {
    b.subrange(0, HEADER_SIZE as int)
}

/// The checks made on every buffer: length, magic tag and version.
pub open spec fn structurally_sound(b: Seq<u8>) -> bool {
    &&& b.len() >= HEADER_SIZE
    &&& b.subrange(0, 4) == magic_tag()
    &&& b[OFFSET_VERSION as int] == SUPPORTED_HEADER_VERSION
}

/// The invariants that validation asks of a header's fields.
pub open spec fn satisfies_invariants(m: HeaderFields) -> bool {
    &&& m.flags & crate::flags::FLAGS_ALL == m.flags
    &&& m.output_buckets > 0
    &&& 1 <= m.layer_count <= MAX_LAYER_COUNT
    &&& forall|i: int| 0 <= i < m.layer_count ==> m.layer_size[i] != 0
    &&& m.name_len < NAME_CAPACITY
    &&& m.name[m.name_len as int] == 0
}

/// Whether parsing `b`, with or without validation, yields a header.
pub open spec fn accepts(b: Seq<u8>, validate: bool) -> bool {
    &&& structurally_sound(b)
    &&& validate ==> satisfies_invariants(decode(b))
}

/// The bytes that hold the name: at most `NAME_CAPACITY - 1` of them, as
/// many as `name_len` asks.
pub open spec fn name_bytes(b: Seq<u8>) -> Seq<u8> {
    let len = b[OFFSET_NAME_LEN as int];
    let end = if len < NAME_CAPACITY - 1 {
        len as int
    } else {
        NAME_CAPACITY - 1
    };
    b.subrange(OFFSET_NAME as int, OFFSET_NAME + end)
}

/// Only the first `HEADER_SIZE` bytes of a buffer decide its fields.
pub proof fn lemma_decode_header_bytes(b: Seq<u8>)
    requires
        b.len() >= HEADER_SIZE,
    ensures
        decode(header_bytes(b)) == decode(b),
{
    let h = header_bytes(b);
    assert(decode(h).layer_size =~= decode(b).layer_size);
    assert(decode(h).magic =~= decode(b).magic);
    assert(decode(h).layer_quantization =~= decode(b).layer_quantization);
    assert(decode(h).activations =~= decode(b).activations);
    assert(decode(h).input_king_bucketing =~= decode(b).input_king_bucketing);
    assert(decode(h).reserved =~= decode(b).reserved);
    assert(decode(h).name =~= decode(b).name);
    assert(decode(h) =~= decode(b));
}

} // verus!
