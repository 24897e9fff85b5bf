use cbnf::{
    Activation, CBNFHeader, Flags, NameError, FLAGS_ALL, FLAGS_ARCH_MASK, FLAG_HALF,
    FLAG_HORIZONTALLY_MIRRORED, FLAG_RELATIVE, FLAG_ZSTD_COMPRESSED, HEADER_SIZE,
    SUPPORTED_HEADER_VERSION,
};

fn put_u16(buf: &mut [u8], off: usize, v: u16) {
    buf[off] = (v & 0xff) as u8;
    buf[off + 1] = (v >> 8) as u8;
}

/// A well-formed header: one layer of 128, 8 output buckets, named "Test".
fn sample() -> Vec<u8> {
    let mut buf = vec![0u8; HEADER_SIZE];
    buf[0..4].copy_from_slice(b"CBNF");
    buf[4] = SUPPORTED_HEADER_VERSION;
    put_u16(&mut buf, 5, FLAG_RELATIVE);
    buf[7] = 1;
    put_u16(&mut buf, 8, 128);
    buf[200] = 8;
    buf[207] = 4;
    buf[208..212].copy_from_slice(b"Test");
    buf
}

#[test]
fn end_to_end_sample_header() {
    let buf = sample();
    let h = CBNFHeader::parse(&buf, true).expect("valid header");
    assert_eq!(h.name(), Ok("Test"));
    assert_eq!(h.arch_flags(), Flags::from_bits_retain(FLAG_RELATIVE));
    assert_eq!(h.version(), SUPPORTED_HEADER_VERSION);
    assert_eq!(h.layer_count(), 1);
    assert_eq!(h.layer_size(0), 128);
    assert_eq!(h.output_buckets(), 8);
    assert_eq!(h.name_len(), 4);
    assert_eq!(&h.magic(), b"CBNF");
}

#[test]
fn every_field_reads_back_as_written() {
    let mut buf = sample();
    put_u16(&mut buf, 5, FLAG_ZSTD_COMPRESSED | FLAG_HALF);
    buf[7] = 32;
    for i in 0..32 {
        put_u16(&mut buf, 8 + 2 * i, 0x1234 + i as u16);
        buf[72 + i] = 64 + i as u8;
        buf[104 + i] = (i % 6) as u8;
    }
    for i in 0..64 {
        buf[136 + i] = 200 - i as u8;
    }
    buf[200] = 16;
    for i in 0..6 {
        buf[201 + i] = 0xa0 + i as u8;
    }
    let h = CBNFHeader::parse(&buf, true).expect("valid header");
    assert_eq!(h.flags().bits(), FLAG_ZSTD_COMPRESSED | FLAG_HALF);
    assert_eq!(h.layer_count(), 32);
    for i in 0..32 {
        assert_eq!(h.layer_size(i), 0x1234 + i as u16);
        assert_eq!(h.layer_quantization(i), 64 + i as u8);
        assert_eq!(h.activation_code(i), (i % 6) as u8);
    }
    for i in 0..64 {
        assert_eq!(h.input_king_bucketing(i), 200 - i as u8);
    }
    assert_eq!(h.output_buckets(), 16);
    for i in 0..6 {
        assert_eq!(h.reserved(i), 0xa0 + i as u8);
    }
    assert_eq!(h.name_byte(0), b'T');
    assert_eq!(h.name_byte(4), 0);
}

#[test]
fn layer_size_is_little_endian() {
    let mut buf = sample();
    buf[8] = 0x34;
    buf[9] = 0x12;
    let h = CBNFHeader::parse(&buf, true).expect("valid header");
    assert_eq!(h.layer_size(0), 0x1234);
}

#[test]
fn round_trip_through_as_bytes() {
    let mut buf = sample();
    buf.extend_from_slice(&[0xaa; 40]);
    let h = CBNFHeader::parse(&buf, true).expect("valid header");
    let bytes = h.as_bytes();
    assert_eq!(bytes.len(), HEADER_SIZE);
    assert_eq!(bytes, &buf[..HEADER_SIZE]);
    let again = CBNFHeader::parse(bytes, true).expect("re-parse");
    assert_eq!(again.as_bytes(), bytes);
    assert_eq!(again.name(), h.name());
    assert_eq!(again.flags(), h.flags());
    assert_eq!(again.layer_size(0), h.layer_size(0));
}

#[test]
fn unvalidated_parse_ignores_invariants() {
    let mut buf = sample();
    buf[7] = 0;
    buf[200] = 0;
    put_u16(&mut buf, 5, 0xffff);
    buf[207] = 200;
    let h = CBNFHeader::parse(&buf, false).expect("structurally sound");
    assert_eq!(h.layer_count(), 0);
    assert!(!h.is_valid());
    assert!(CBNFHeader::parse(&buf, true).is_none());
}

#[test]
fn short_buffers_are_rejected() {
    let buf = sample();
    assert!(CBNFHeader::parse(&buf[..HEADER_SIZE - 1], false).is_none());
    assert!(CBNFHeader::parse(&buf[..HEADER_SIZE - 1], true).is_none());
    assert!(CBNFHeader::parse(&[], false).is_none());
    assert!(CBNFHeader::parse(b"CBNF", false).is_none());
}

#[test]
fn bad_magic_is_rejected() {
    let mut buf = sample();
    buf[0] = b'X';
    assert!(CBNFHeader::parse(&buf, false).is_none());
    assert!(CBNFHeader::parse(&buf, true).is_none());
    let mut buf = sample();
    buf[3] = b'f';
    assert!(CBNFHeader::parse(&buf, false).is_none());
}

#[test]
fn other_versions_are_rejected() {
    for v in [0u8, 1, 3, 255] {
        let mut buf = sample();
        buf[4] = v;
        assert!(CBNFHeader::parse(&buf, false).is_none());
        assert!(CBNFHeader::parse(&buf, true).is_none());
    }
}

#[test]
fn undefined_flags_fail_validation() {
    let mut buf = sample();
    put_u16(&mut buf, 5, FLAG_RELATIVE | 0x0010);
    assert!(CBNFHeader::parse(&buf, true).is_none());
    assert!(CBNFHeader::parse(&buf, false).is_some());
    put_u16(&mut buf, 5, FLAGS_ALL);
    assert!(CBNFHeader::parse(&buf, true).is_some());
}

#[test]
fn zero_output_buckets_fail_validation() {
    let mut buf = sample();
    buf[200] = 0;
    assert!(CBNFHeader::parse(&buf, true).is_none());
}

#[test]
fn layer_count_out_of_range_fails_validation() {
    let mut buf = sample();
    buf[7] = 0;
    assert!(CBNFHeader::parse(&buf, true).is_none());
    let mut buf = sample();
    for i in 0..32 {
        put_u16(&mut buf, 8 + 2 * i, 1);
    }
    buf[7] = 33;
    assert!(CBNFHeader::parse(&buf, true).is_none());
    buf[7] = 32;
    assert!(CBNFHeader::parse(&buf, true).is_some());
}

#[test]
fn zero_layer_size_fails_validation() {
    let mut buf = sample();
    buf[7] = 3;
    put_u16(&mut buf, 10, 64);
    assert!(CBNFHeader::parse(&buf, true).is_none());
    put_u16(&mut buf, 12, 1);
    assert!(CBNFHeader::parse(&buf, true).is_some());
    // sizes past the layer count are not checked
    buf[7] = 2;
    put_u16(&mut buf, 12, 0);
    assert!(CBNFHeader::parse(&buf, true).is_some());
}

#[test]
fn unterminated_name_fails_validation() {
    let mut buf = sample();
    buf[212] = b'!';
    assert!(CBNFHeader::parse(&buf, true).is_none());
    let mut buf = sample();
    buf[207] = 47;
    assert!(CBNFHeader::parse(&buf, true).is_some());
    buf[207] = 48;
    assert!(CBNFHeader::parse(&buf, true).is_none());
    buf[207] = 255;
    assert!(CBNFHeader::parse(&buf, true).is_none());
}

#[test]
fn arch_flags_drop_storage_bits() {
    let mut buf = sample();
    put_u16(&mut buf, 5, FLAG_ZSTD_COMPRESSED | FLAG_RELATIVE);
    let h = CBNFHeader::parse(&buf, true).expect("valid header");
    assert_eq!(h.arch_flags(), Flags::from_bits_retain(FLAG_RELATIVE));
    put_u16(&mut buf, 5, 0xffff);
    let h = CBNFHeader::parse(&buf, false).expect("structurally sound");
    assert_eq!(h.arch_flags().bits(), FLAGS_ARCH_MASK);
    assert_eq!(h.arch_flags().bits() & !FLAGS_ARCH_MASK, 0);
}

#[test]
fn empty_name() {
    let mut buf = sample();
    buf[207] = 0;
    let h = CBNFHeader::parse(&buf, false).expect("structurally sound");
    assert_eq!(h.name(), Ok(""));
}

#[test]
fn invalid_utf8_name_is_an_error() {
    let mut buf = sample();
    buf[209] = 0xff;
    let h = CBNFHeader::parse(&buf, true).expect("valid header");
    assert_eq!(h.name(), Err(NameError::InvalidUtf8));
    // a bad byte past the name's length does not matter
    let mut buf = sample();
    buf[213] = 0xff;
    let h = CBNFHeader::parse(&buf, false).expect("structurally sound");
    assert_eq!(h.name(), Ok("Test"));
}

#[test]
fn multibyte_name() {
    let mut buf = sample();
    let name = "Névé";
    buf[207] = name.len() as u8;
    buf[208..208 + name.len()].copy_from_slice(name.as_bytes());
    let h = CBNFHeader::parse(&buf, true).expect("valid header");
    assert_eq!(h.name(), Ok("Névé"));
}

#[test]
fn long_name_length_is_truncated() {
    let mut buf = sample();
    for i in 0..48 {
        buf[208 + i] = b'a' + (i % 26) as u8;
    }
    buf[207] = 200;
    let h = CBNFHeader::parse(&buf, false).expect("structurally sound");
    let name = h.name().expect("ascii name");
    assert_eq!(name.len(), 47);
    assert_eq!(name.as_bytes(), &buf[208..255]);
}

#[test]
fn activation_codes() {
    let all = [
        Activation::ReLU,
        Activation::CReLU,
        Activation::SCReLU,
        Activation::FastSCReLU,
        Activation::Sigmoid,
        Activation::Tanh,
    ];
    for (i, a) in all.iter().enumerate() {
        assert_eq!(a.code(), i as u8);
        assert_eq!(Activation::from_code(i as u8), Some(*a));
    }
    assert_eq!(Activation::from_code(6), None);
    assert_eq!(Activation::from_code(255), None);
}

#[test]
fn header_activation_lookup() {
    let mut buf = sample();
    buf[104] = 2;
    buf[105] = 9;
    let h = CBNFHeader::parse(&buf, false).expect("structurally sound");
    assert_eq!(h.activation(0), Some(Activation::SCReLU));
    assert_eq!(h.activation(1), None);
    assert_eq!(h.activation(2), Some(Activation::ReLU));
}

#[test]
fn flag_queries() {
    let f = Flags::from_bits_retain(FLAG_ZSTD_COMPRESSED | FLAG_HORIZONTALLY_MIRRORED);
    assert!(f.is_zstd_compressed());
    assert!(!f.is_relative());
    assert!(!f.is_half());
    assert!(f.is_horizontally_mirrored());
    assert!(f.is_defined());
    assert!(f.contains(Flags::from_bits_retain(FLAG_HORIZONTALLY_MIRRORED)));
    assert!(!f.contains(Flags::from_bits_retain(FLAG_HALF)));
    assert_eq!(f.arch_bits().bits(), FLAG_HORIZONTALLY_MIRRORED);
    assert_eq!(Flags::all().bits(), FLAGS_ALL);
    assert_eq!(Flags::empty().bits(), 0);
    assert_eq!(Flags::from_bits(0x0010), None);
    assert_eq!(Flags::from_bits(FLAG_HALF).map(|f| f.bits()), Some(FLAG_HALF));
    assert!(!Flags::from_bits_retain(0x8000).is_defined());
    let u = f.union(Flags::from_bits_retain(FLAG_HALF));
    assert_eq!(u.bits(), 0x000d);
    assert_eq!(u.intersection(Flags::from_bits_retain(0x0006)).bits(), FLAG_HALF);
}
