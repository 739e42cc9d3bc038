use dtx::header::{Header, HeaderError, COMMAND_STRING_SIZE, EXTRA_SIZE, HEADER_SIZE};
use dtx::flags::{DTX_BUMPMAP, DTX_CUBEMAP, DTX_FULLBRITE};

fn assert_same_header(a: &Header, b: &Header) {
    assert_eq!(a.resource_type, b.resource_type);
    assert_eq!(a.base_width, b.base_width);
    assert_eq!(a.base_height, b.base_height);
    assert_eq!(a.version, b.version);
    assert_eq!(a.mipmap_count, b.mipmap_count);
    assert_eq!(a.section_count, b.section_count);
    assert_eq!(a.internal_flags, b.internal_flags);
    assert_eq!(a.user_flags, b.user_flags);
    assert_eq!(a.extra.bytes, b.extra.bytes);
    assert_eq!(a.command_string, b.command_string);
}

#[test]
fn decodes_reference_header() {
    let mut buf = vec![0u8; HEADER_SIZE];
    buf[0] = 1; // resource_type = 1
    buf[4] = 0;
    buf[5] = 1; // base_width = 256
    buf[6] = 0;
    buf[7] = 1; // base_height = 256
    buf[8] = 0xFB;
    buf[9] = 0xFF;
    buf[10] = 0xFF;
    buf[11] = 0xFF; // version = -5
    buf[12] = 4; // mipmap_count = 4
    buf[14] = 1; // section_count = 1
    let flags = DTX_FULLBRITE | DTX_CUBEMAP;
    buf[16] = (flags & 0xFF) as u8;
    buf[17] = ((flags >> 8) & 0xFF) as u8;

    let h = Header::parse(&buf, 0).unwrap();
    assert_eq!(h.resource_type, 1);
    assert_eq!(h.base_width, 256);
    assert_eq!(h.base_height, 256);
    assert_eq!(h.version, -5);
    assert_eq!(h.mipmap_count, 4);
    assert_eq!(h.section_count, 1);
    assert_eq!(h.internal_flags, (1 << 0) | (1 << 10));
    assert_eq!(h.user_flags, 0);
    assert!(h.has_internal_flag(DTX_FULLBRITE));
    assert!(h.has_internal_flag(DTX_CUBEMAP));
    assert_eq!(h.internal_flags & DTX_BUMPMAP, 0);
    assert!(!h.has_internal_flag(DTX_BUMPMAP));
    assert_eq!(h.extra.bytes, vec![0u8; EXTRA_SIZE]);
    assert_eq!(h.command_string, vec![0u8; COMMAND_STRING_SIZE]);
}

#[test]
fn recovers_each_field_from_its_offset() {
    // Every byte position carries a unique marker, so a field read from a
    // neighboring offset or through inserted padding would show up at once.
    let buf: Vec<u8> = (0..HEADER_SIZE).map(|i| i as u8).collect();

    let h = Header::parse(&buf, 0).unwrap();
    assert_eq!(h.resource_type, 0x03020100);
    assert_eq!(h.base_width, 0x0504);
    assert_eq!(h.base_height, 0x0706);
    assert_eq!(h.version, 0x0B0A0908);
    assert_eq!(h.mipmap_count, 0x0D0C);
    assert_eq!(h.section_count, 0x0F0E);
    assert_eq!(h.internal_flags, 0x13121110);
    assert_eq!(h.user_flags, 0x17161514);
    let expected_extra: Vec<u8> = (24..36).map(|i| i as u8).collect();
    assert_eq!(h.extra.bytes, expected_extra);
    let expected_command: Vec<u8> = (36..164).map(|i| i as u8).collect();
    assert_eq!(h.command_string, expected_command);
}

#[test]
fn extra_region_has_both_readings() {
    let buf: Vec<u8> = (0..HEADER_SIZE).map(|i| i as u8).collect();
    let h = Header::parse(&buf, 0).unwrap();

    // Byte reading: the twelve sub-fields, offsets 24..36 of the header.
    for i in 0..12 {
        assert_eq!(h.extra.byte(i), (24 + i) as u8);
    }
    assert_eq!(h.extra.texture_group(), 24);
    assert_eq!(h.extra.mipmaps_to_use(), 25);
    assert_eq!(h.extra.pixel_format(), 26);
    assert_eq!(h.extra.non_s3tc_mipmap_offset(), 27);
    assert_eq!(h.extra.ui_mipmap_offset(), 28);
    assert_eq!(h.extra.texture_priority(), 29);
    assert_eq!(h.extra.detail_scale_bits(), 0x21201F1E);
    assert_eq!(h.extra.detail_angle(), 0x2322);

    // Word reading: three little-endian words over the same bytes.
    assert_eq!(h.extra.word(0), 0x1B1A1918);
    assert_eq!(h.extra.word(1), 0x1F1E1D1C);
    assert_eq!(h.extra.word(2), 0x23222120);
}

#[test]
fn short_read_is_reported() {
    let empty: Vec<u8> = Vec::new();
    assert!(matches!(Header::parse(&empty, 0), Err(HeaderError::ShortRead)));

    let one_short = vec![0xAAu8; HEADER_SIZE - 1];
    assert!(matches!(Header::parse(&one_short, 0), Err(HeaderError::ShortRead)));

    // Exactly enough bytes, but not past the offset.
    let exact = vec![0u8; HEADER_SIZE];
    assert!(matches!(Header::parse(&exact, 1), Err(HeaderError::ShortRead)));
    assert!(Header::parse(&exact, 0).is_ok());

    let huge_offset = vec![0u8; HEADER_SIZE];
    assert!(matches!(
        Header::parse(&huge_offset, usize::MAX),
        Err(HeaderError::ShortRead)
    ));
}

#[test]
fn decodes_from_given_offset() {
    // Bytes before the offset must be ignored entirely.
    let mut buf = vec![0u8; 10 + HEADER_SIZE];
    for i in 0..10 {
        buf[i] = 0xEE;
    }
    buf[10] = 9; // resource_type = 9 at header offset 0
    buf[10 + 5] = 3; // base_width high byte -> 0x0300
    let h = Header::parse(&buf, 10).unwrap();
    assert_eq!(h.resource_type, 9);
    assert_eq!(h.base_width, 0x0300);
}

#[test]
fn decoding_is_pure() {
    let buf: Vec<u8> = (0..HEADER_SIZE).map(|i| (i * 7) as u8).collect();
    let a = Header::parse(&buf, 0).unwrap();
    let b = Header::parse(&buf, 0).unwrap();
    assert_same_header(&a, &b);
}

#[test]
fn encode_then_parse_round_trips() {
    let buf: Vec<u8> = (0..HEADER_SIZE).map(|i| (i * 13 + 5) as u8).collect();
    let h = Header::parse(&buf, 0).unwrap();

    let encoded = h.encode();
    assert_eq!(encoded.len(), HEADER_SIZE);
    assert_eq!(encoded, buf);

    let again = Header::parse(&encoded, 0).unwrap();
    assert_same_header(&h, &again);
    for i in 0..3 {
        assert_eq!(h.extra.word(i), again.extra.word(i));
    }
    for i in 0..12 {
        assert_eq!(h.extra.byte(i), again.extra.byte(i));
    }
}

#[test]
fn new_header_is_zeroed() {
    let h = Header::new();
    assert_eq!(h.resource_type, 0);
    assert_eq!(h.base_width, 0);
    assert_eq!(h.base_height, 0);
    assert_eq!(h.version, 0);
    assert_eq!(h.mipmap_count, 0);
    assert_eq!(h.section_count, 0);
    assert_eq!(h.internal_flags, 0);
    assert_eq!(h.user_flags, 0);
    assert_eq!(h.extra.bytes, vec![0u8; EXTRA_SIZE]);
    assert_eq!(h.command_string, vec![0u8; COMMAND_STRING_SIZE]);
}

#[test]
fn command_string_kept_verbatim_past_null() {
    // A null terminator inside the command string does not cut the region
    // short: trailing bytes are preserved exactly.
    let mut buf = vec![0u8; HEADER_SIZE];
    buf[36] = b'r';
    buf[37] = b'u';
    buf[38] = b'n';
    buf[39] = 0;
    buf[40] = 0xCD; // garbage after the terminator must survive
    buf[163] = 0x77;
    let h = Header::parse(&buf, 0).unwrap();
    assert_eq!(&h.command_string[0..4], b"run\0");
    assert_eq!(h.command_string[4], 0xCD);
    assert_eq!(h.command_string[127], 0x77);
}
