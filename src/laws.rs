use vstd::prelude::*;

use crate::layout::{
    accepts, decode, encode, encode_u16s, header_bytes, lemma_decode_header_bytes, magic_tag,
    read_u16, satisfies_invariants, well_sized, HeaderFields, HEADER_SIZE,
    OFFSET_FLAGS, OFFSET_LAYER_COUNT, OFFSET_LAYER_QUANTIZATION, OFFSET_LAYER_SIZE, OFFSET_VERSION,
    SUPPORTED_HEADER_VERSION,
};

verus! {

proof fn lemma_u16_bytes(v: u16)
    ensures
        ((v % 256) as u8 as int + 256 * ((v / 256) as u8) as int) as u16 == v,
{
}

/// Decoding the bytes that encode well-sized fields gives back those fields.
pub proof fn lemma_decode_encode(m: HeaderFields)
    requires
        well_sized(m),
    ensures
        encode(m).len() == HEADER_SIZE,
        decode(encode(m)) == m,
        header_bytes(encode(m)) == encode(m),
{
    let e = encode(m);
    let sizes = encode_u16s(m.layer_size);
    assert(e.len() == HEADER_SIZE);
    assert(decode(e).magic =~= m.magic);
    assert(decode(e).layer_quantization =~= m.layer_quantization);
    assert(decode(e).activations =~= m.activations);
    assert(decode(e).input_king_bucketing =~= m.input_king_bucketing);
    assert(decode(e).reserved =~= m.reserved);
    assert(decode(e).name =~= m.name);
    assert(decode(e).flags == m.flags) by {
        lemma_u16_bytes(m.flags);
    }
    assert forall|i: int| 0 <= i < m.layer_size.len() implies decode(e).layer_size[i]
        == m.layer_size[i] by {
        assert(e[OFFSET_LAYER_SIZE + 2 * i] == sizes[2 * i]);
        assert(e[OFFSET_LAYER_SIZE + 2 * i + 1] == sizes[2 * i + 1]);
        assert((2 * i) % 2 == 0 && (2 * i) / 2 == i);
        assert((2 * i + 1) % 2 == 1 && (2 * i + 1) / 2 == i);
        lemma_u16_bytes(m.layer_size[i]);
    }
    assert(decode(e).layer_size =~= m.layer_size);
    assert(decode(e) =~= m);
    assert(header_bytes(e) =~= e);
}

/// A buffer built from fields that carry the magic tag and the supported
/// version and meet every invariant is accepted with validation, and the
/// header read from it holds exactly those fields.
pub proof fn lemma_valid_fields_parse(m: HeaderFields)
    requires
        well_sized(m),
        m.magic == magic_tag(),
        m.version == SUPPORTED_HEADER_VERSION,
        satisfies_invariants(m),
    ensures
        encode(m).len() == HEADER_SIZE,
        accepts(encode(m), true),
        decode(header_bytes(encode(m))) == m,
{
    lemma_decode_encode(m);
}

/// Encoding the fields read from a header's bytes gives back those bytes:
/// the layout has no byte that no field covers.
pub proof fn lemma_encode_decode(b: Seq<u8>)
    requires
        b.len() == HEADER_SIZE,
    ensures
        well_sized(decode(b)),
        encode(decode(b)) == b,
{
    let m = decode(b);
    let e = encode(m);
    let sizes = encode_u16s(m.layer_size);
    assert forall|i: int| 0 <= i < HEADER_SIZE implies e[i] == b[i] by {
        if OFFSET_FLAGS <= i < OFFSET_LAYER_COUNT {
            lemma_u16_split(b, OFFSET_FLAGS as int);
        } else if OFFSET_LAYER_SIZE <= i < OFFSET_LAYER_QUANTIZATION {
            let k = (i - OFFSET_LAYER_SIZE) / 2;
            assert(e[i] == sizes[i - OFFSET_LAYER_SIZE]);
            lemma_u16_split(b, OFFSET_LAYER_SIZE + 2 * k);
        }
    }
    assert(e =~= b);
}

proof fn lemma_u16_split(b: Seq<u8>, off: int)
    requires
        0 <= off,
        off + 1 < b.len(),
    ensures
        (read_u16(b, off) % 256) as u8 == b[off],
        (read_u16(b, off) / 256) as u8 == b[off + 1],
{
}

/// Re-reading a parsed header's bytes succeeds under the same validation
/// and yields the same bytes and the same fields.
pub proof fn lemma_round_trip(data: Seq<u8>, validate: bool)
    requires
        accepts(data, validate),
    ensures
        accepts(header_bytes(data), validate),
        header_bytes(header_bytes(data)) == header_bytes(data),
        decode(header_bytes(header_bytes(data))) == decode(header_bytes(data)),
        decode(header_bytes(data)) == decode(data),
{
    let h = header_bytes(data);
    lemma_decode_header_bytes(data);
    assert(h.subrange(0, 4) =~= data.subrange(0, 4));
    assert(header_bytes(h) =~= h);
}

/// Without validation, a buffer is accepted as soon as its length, magic tag
/// and version are right, whatever its other fields hold.
pub proof fn lemma_unvalidated_accepts(data: Seq<u8>)
    requires
        data.len() >= HEADER_SIZE,
        data.subrange(0, 4) == magic_tag(),
        data[OFFSET_VERSION as int] == SUPPORTED_HEADER_VERSION,
    ensures
        accepts(data, false),
{
}

/// A buffer shorter than a header is never accepted.
pub proof fn lemma_short_rejected(data: Seq<u8>, validate: bool)
    requires
        data.len() < HEADER_SIZE,
    ensures
        !accepts(data, validate),
{
}

/// A buffer that does not start with the magic tag is never accepted.
pub proof fn lemma_bad_magic_rejected(data: Seq<u8>, validate: bool)
    requires
        data.len() >= 4,
        data.subrange(0, 4) != magic_tag(),
    ensures
        !accepts(data, validate),
{
}

} // verus!
