use sleep::header::{self, FileType, Header, Version};
use sleep::{Error, File, Sleep};

/// A 32-byte header: magic, file type, version 0, big-endian record size,
/// then the length-prefixed algorithm name "Ed25519" and zero padding.
fn header_bytes(filetype: u8, entry_size: u16) -> Vec<u8> {
    let mut data = vec![
        5u8,
        2,
        87,
        filetype,
        0,
        (entry_size >> 8) as u8,
        (entry_size & 0xff) as u8,
        7,
        b'E',
        b'd',
        b'2',
        b'5',
        b'5',
        b'1',
        b'9',
    ];
    data.resize(32, 0);
    data
}

#[test]
fn parse_simple_header() {
    let data = [
        5u8, 2, 87, 1, // magic byte sequence. `1` means it's a .signatures file
        0, // version of the header format
        0, 64, // be_16 indicating the block size
        7, // length of the string describing the key algorithm
        // remainder is the string describing the key algorithm
        69, 100, 50, 53, 53, 49, 57, 0, 0, 0, 0, 0, 0, 0, 0, 0, 0, 0, 0, 0, 0, 0, 0, 0,
    ];
    let header = header::parse(&data).expect("Could not parse header");
    assert_eq!(
        Header {
            filetype: FileType::Signatures,
            version: Version::V0,
            entry_size: 64,
            key_alg: "Ed25519".into(),
        },
        header
    );
}

#[test]
fn test_open_signatures_file() {
    let mut data = header_bytes(1, 64);
    data.resize(32 + 2 * 64, 0);
    let f = Sleep::open(&data)
        .expect("ERROR")
        .into_signatures()
        .expect("ERROR");
    assert_eq!(f.sigs.len(), 2);
}

#[test]
fn parse_is_deterministic() {
    let data = header_bytes(1, 64);
    let first = header::parse(&data).expect("first decode");
    let second = header::parse(&data).expect("second decode");
    assert_eq!(first, second);
}

#[test]
fn parse_rejects_wrong_magic() {
    let mut data = header_bytes(1, 64);
    data[0] = 9;
    assert!(matches!(
        header::parse(&data),
        Err(header::Error::IncorrectFormat)
    ));
}

#[test]
fn parse_rejects_unknown_filetype() {
    let mut data = header_bytes(1, 64);
    data[3] = 3;
    assert!(matches!(
        header::parse(&data),
        Err(header::Error::IncorrectFileType)
    ));
}

#[test]
fn parse_rejects_unknown_version() {
    let mut data = header_bytes(1, 64);
    data[4] = 1;
    assert!(matches!(
        header::parse(&data),
        Err(header::Error::InvalidVersion)
    ));
}

#[test]
fn parse_rejects_overlong_name() {
    let mut data = header_bytes(1, 64);
    data[7] = 25; // 8 + 25 runs past the 32-byte header
    assert!(matches!(
        header::parse(&data),
        Err(header::Error::ParseError)
    ));
}

#[test]
fn parse_rejects_invalid_utf8_name() {
    let mut data = header_bytes(1, 64);
    data[8] = 0xff;
    data[9] = 0xfe;
    assert!(matches!(
        header::parse(&data),
        Err(header::Error::ParseError)
    ));
}

#[test]
fn parse_ignores_nonzero_padding() {
    let mut data = header_bytes(1, 64);
    data[20] = 0xaa;
    data[31] = 0x55;
    let header = header::parse(&data).expect("padding must be ignored");
    assert_eq!(header.key_alg, "Ed25519");
    assert_eq!(header.entry_size, 64);
}

#[test]
fn file_exposes_header_fields() {
    let mut data = header_bytes(1, 513);
    data.extend_from_slice(&[0u8; 10]);
    let file = File::from_bytes(&data).expect("open");
    assert_eq!(*file.filetype(), FileType::Signatures);
    assert_eq!(file.entry_size(), 513);
    assert_eq!(file.key_alg(), "Ed25519");
    assert_eq!(file.entry_start(3), 3 * 513);
}

#[test]
fn record_count_is_floor_of_division() {
    let mut data = header_bytes(1, 3);
    data.extend_from_slice(&[0u8; 10]);
    let file = File::from_bytes(&data).expect("open");
    assert_eq!(file.len(), 3); // 10 / 3, the trailing byte is excluded
}

#[test]
fn record_count_is_zero_for_zero_record_size() {
    let mut data = header_bytes(1, 0);
    data.extend_from_slice(&[0u8; 10]);
    let file = File::from_bytes(&data).expect("open");
    assert_eq!(file.len(), 0);
}

#[test]
fn entry_returns_exact_slice() {
    let mut data = header_bytes(1, 2);
    data.extend_from_slice(&[1u8, 2, 3, 4, 5]);
    let file = File::from_bytes(&data).expect("open");
    assert_eq!(file.len(), 2);
    assert_eq!(file.entry(0).expect("record 0"), &[1u8, 2]);
    assert_eq!(file.entry(1).expect("record 1"), &[3u8, 4]);
    assert!(matches!(file.entry(2), Err(Error::IndexOutOfRange)));
}

#[test]
fn iteration_matches_indexed_access() {
    let mut data = header_bytes(1, 2);
    data.extend_from_slice(&[1u8, 2, 3, 4, 5, 6]);
    let file = File::from_bytes(&data).expect("open");
    let mut iter = file.entry_iter();
    let mut index: usize = 0;
    while let Some(record) = iter.next() {
        assert_eq!(record, file.entry(index).expect("in range"));
        index += 1;
    }
    assert_eq!(index, file.len());
}

#[test]
fn iteration_restarts_from_the_first_record() {
    let mut data = header_bytes(1, 2);
    data.extend_from_slice(&[7u8, 8, 9, 10]);
    let file = File::from_bytes(&data).expect("open");
    let mut first = file.entry_iter();
    assert_eq!(first.next().expect("one record"), &[7u8, 8]);
    assert_eq!(first.next().expect("two records"), &[9u8, 10]);
    assert!(first.next().is_none());
    let mut second = file.entry_iter();
    assert_eq!(second.next().expect("fresh traversal"), &[7u8, 8]);
}

#[test]
fn open_truncated_input_fails() {
    let data = vec![5u8, 2, 87, 1, 0];
    assert!(matches!(Sleep::open(&data), Err(Error::Truncated)));
}

#[test]
fn open_wrong_magic_fails() {
    let mut data = header_bytes(1, 64);
    data[0] = 9;
    assert!(matches!(
        Sleep::open(&data),
        Err(Error::HeaderError(header::Error::IncorrectFormat))
    ));
}

#[test]
fn open_unknown_filetype_fails() {
    let mut data = header_bytes(3, 64);
    data.resize(32 + 64, 0);
    assert!(matches!(
        Sleep::open(&data),
        Err(Error::HeaderError(header::Error::IncorrectFileType))
    ));
}

#[test]
fn open_signatures_decodes_every_record() {
    let mut data = header_bytes(1, 64);
    let first: Vec<u8> = (0u8..64).collect();
    let second: Vec<u8> = (64u8..128).collect();
    data.extend_from_slice(&first);
    data.extend_from_slice(&second);
    let sigs = Sleep::open(&data)
        .expect("open")
        .into_signatures()
        .expect("signatures view");
    assert_eq!(sigs.file().len(), 2);
    assert_eq!(sigs.sigs.len(), 2);
    // index-aligned: each decoded signature re-serializes to its record
    assert_eq!(sigs.sigs[0].to_bytes().as_slice(), first.as_slice());
    assert_eq!(sigs.sigs[1].to_bytes().as_slice(), second.as_slice());
}

#[test]
fn open_signatures_short_tail_has_no_records() {
    let mut data = header_bytes(1, 64);
    data.resize(32 + 63, 0); // one byte short of a record
    let sigs = Sleep::open(&data)
        .expect("open")
        .into_signatures()
        .expect("signatures view");
    assert_eq!(sigs.sigs.len(), 0);
    assert_eq!(sigs.file().len(), 0);
    let mut iter = sigs.file().entry_iter();
    assert!(iter.next().is_none());
}

#[test]
fn open_signatures_rejected_record_fails_whole_open() {
    // a record size the signature decoder does not accept: the first record
    // fails, and the whole open fails with its index
    let mut data = header_bytes(1, 63);
    data.resize(32 + 2 * 63, 0);
    match Sleep::open(&data) {
        Err(Error::SignatureDecodeError(_, index)) => assert_eq!(index, 0),
        other => panic!("expected a signature decode failure, got {:?}", other.is_ok()),
    }
}

#[test]
fn narrowing_to_wrong_view_fails() {
    let mut data = header_bytes(1, 64);
    data.resize(32 + 64, 0);
    let view = Sleep::open(&data).expect("open");
    assert!(matches!(view.into_bitfield(), Err(Error::TypeMismatch)));
}

#[test]
fn bitfield_view_is_a_placeholder() {
    let data = header_bytes(0, 8);
    let view = Sleep::open(&data).expect("open");
    let bitfield = view.into_bitfield().expect("bitfield view");
    assert!(matches!(bitfield.entry(0), Err(Error::Unimplemented)));
}

#[test]
fn tree_view_is_a_placeholder() {
    let data = header_bytes(2, 40);
    let view = Sleep::open(&data).expect("open");
    let tree = view.into_tree().expect("tree view");
    assert!(matches!(tree.entry(0), Err(Error::Unimplemented)));
}
