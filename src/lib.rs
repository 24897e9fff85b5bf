//! Codec for the fixed 256-byte header of a CBNF network weight file.
//!
//! The header is decoded field by field from explicit little-endian offsets;
//! a parsed header is a read-only view that borrows the caller's buffer.

mod activation;
mod flags;
mod header;
mod laws;
mod layout;

pub use activation::{activation_of, code_of, Activation};
pub use flags::{
    Flags, FLAGS_ALL, FLAGS_ARCH_MASK, FLAG_HALF, FLAG_HORIZONTALLY_MIRRORED, FLAG_RELATIVE,
    FLAG_ZSTD_COMPRESSED,
};
pub use header::{CBNFHeader, NameError};
pub use laws::{
    lemma_bad_magic_rejected, lemma_decode_encode, lemma_encode_decode, lemma_round_trip,
    lemma_short_rejected, lemma_unvalidated_accepts, lemma_valid_fields_parse,
};
pub use layout::{
    accepts, decode, encode, encode_u16s, header_bytes, lemma_decode_header_bytes, magic_tag,
    name_bytes, read_u16, satisfies_invariants, structurally_sound, well_sized, HeaderFields,
    HEADER_SIZE, KING_BUCKET_COUNT, MAX_LAYER_COUNT, NAME_CAPACITY, RESERVED_LEN,
    SUPPORTED_HEADER_VERSION,
};
