use lzma_sdk::archive::{
    bit_ntfs_time, bit_u32, entry_name, extracted_contents, sdk_failure, Archive, ArchiveDb, BitTimes,
    BitU32s, NtfsFileTime,
};
use lzma_sdk::Error;

#[test]
fn bit_u32_reads_only_defined_entries() {
    let values = BitU32s {
        defs: Some(vec![0b1000_0000_u8]),
        vals: Some(vec![0xDEAD_BEEF_u32, 0xCAFE_BABE_u32]),
    };

    assert_eq!(bit_u32(&values, 0), Some(0xDEAD_BEEF));
    assert_eq!(bit_u32(&values, 1), None);
}

#[test]
fn bit_ntfs_time_combines_high_and_low_parts() {
    let values = BitTimes {
        defs: Some(vec![0b1000_0000_u8]),
        vals: Some(vec![
            NtfsFileTime {
                low: 0x5566_7788,
                high: 0x1122_3344,
            },
            NtfsFileTime { low: 0, high: 0 },
        ]),
    };

    assert_eq!(bit_ntfs_time(&values, 0), Some(0x1122_3344_5566_7788));
    assert_eq!(bit_ntfs_time(&values, 1), None);
}

fn name(text: &str) -> Vec<u16> {
    let mut units: Vec<u16> = text.encode_utf16().collect();
    units.push(0);
    units
}

fn sample_db() -> ArchiveDb {
    ArchiveDb {
        num_files: 3,
        is_dirs: Some(vec![0b0100_0000]),
        unpack_positions: vec![0, 10, 10, 25],
        attribs: BitU32s {
            defs: Some(vec![0b1010_0000]),
            vals: Some(vec![0x20, 0x10, 0x80]),
        },
        ctime: BitTimes {
            defs: None,
            vals: None,
        },
        mtime: BitTimes {
            defs: Some(vec![0b0010_0000]),
            vals: Some(vec![
                NtfsFileTime { low: 0, high: 0 },
                NtfsFileTime { low: 0, high: 0 },
                NtfsFileTime { low: 2, high: 1 },
            ]),
        },
        names: vec![name("a.txt"), name("dir"), name("dir/b.bin")],
    }
}

#[test]
fn entries_are_built_from_the_database() {
    let archive = Archive::from_db(&sample_db()).unwrap();
    let entries = archive.entries();
    assert_eq!(entries.len(), 3);
    assert_eq!(entries[0].name, "a.txt");
    assert_eq!(entries[0].unpacked_size, 10);
    assert!(!entries[0].is_dir);
    assert_eq!(entries[0].attributes, Some(0x20));
    assert_eq!(entries[1].name, "dir");
    assert!(entries[1].is_dir);
    assert_eq!(entries[1].unpacked_size, 0);
    assert_eq!(entries[1].attributes, None);
    assert_eq!(entries[2].index, 2);
    assert_eq!(entries[2].modified_time, Some(0x1_0000_0002));
    assert_eq!(entries[2].created_time, None);
    assert!(archive.entry(3).is_none());
    assert_eq!(archive.entry(2).unwrap().name, "dir/b.bin");
}

#[test]
fn extraction_requests_are_checked() {
    let archive = Archive::from_db(&sample_db()).unwrap();
    assert_eq!(archive.file_to_extract(0), Ok(0));
    assert_eq!(archive.file_to_extract(1), Err(Error::Param));
    assert_eq!(archive.file_to_extract(7), Err(Error::Param));
    assert_eq!(extracted_contents(&[1, 2, 3, 4], 1, 2), vec![2, 3]);
    assert!(extracted_contents(&[1, 2, 3, 4], 9, 0).is_empty());
}

#[test]
fn disordered_positions_are_a_size_overflow() {
    let mut db = sample_db();
    db.unpack_positions = vec![0, 10, 5, 25];
    assert!(matches!(Archive::from_db(&db), Err(Error::SizeOverflow)));
}

#[test]
fn sdk_failures_prefer_reader_errors() {
    assert_eq!(
        sdk_failure(Some(std::io::ErrorKind::PermissionDenied), 8, "open archive"),
        Error::Io {
            kind: std::io::ErrorKind::PermissionDenied,
            context: "open archive".to_string(),
        }
    );
    assert_eq!(sdk_failure(None, 17, "open archive"), Error::NoArchive);
    assert_eq!(sdk_failure(None, 99, "open archive"), Error::Unknown(99));
}

#[test]
fn entry_names_decode_utf16_and_drop_the_terminator() {
    let units: Vec<u16> = "docs/readme.txt".encode_utf16().chain([0]).collect();
    assert_eq!(entry_name(&units), "docs/readme.txt");
    assert_eq!(entry_name(&[0x0061, 0xD83D, 0xDE00, 0x0000]), "a\u{1F600}");
    assert_eq!(
        entry_name(&[0xD800, 0x0062, 0xDC00, 0xDBFF, 0xDFFF, 0x0000]),
        "\u{FFFD}b\u{FFFD}\u{10FFFF}"
    );
    assert_eq!(entry_name(&[0]), "");
    assert_eq!(entry_name(&[]), "");
}

#[test]
fn open_reader_preserves_io_error_context() {
    // A reader that fails with `PermissionDenied` makes the SDK's open report a read error;
    // the error recorded by the reader is what the caller sees.
    let error = sdk_failure(
        Some(std::io::ErrorKind::PermissionDenied),
        lzma_sdk::error::SZ_ERROR_READ,
        "open archive",
    );

    assert_eq!(
        error,
        Error::Io {
            kind: std::io::ErrorKind::PermissionDenied,
            context: "open archive".to_string(),
        }
    );
}
