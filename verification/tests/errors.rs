use lzma_sdk::error::{invalid_option, map_status, Error};

#[test]
fn error_messages_match_display_text() {
    assert_eq!(Error::Data.message(), "LZMA data error");
    assert_eq!(Error::OutputEof.message(), "LZMA output buffer too small");
    assert_eq!(Error::SizeOverflow.message(), "LZMA buffer size overflow");
    assert_eq!(Error::Unknown(99).message(), "unknown LZMA status code 99");
    assert_eq!(Error::Unknown(-7).message(), "unknown LZMA status code -7");
    assert_eq!(Error::Unknown(0).message(), "unknown LZMA status code 0");
    assert_eq!(Error::Unknown(1_234_567_890).message(), "unknown LZMA status code 1234567890");
    assert_eq!(Error::Unknown(i32::MIN).message(), "unknown LZMA status code -2147483648");
    assert_eq!(Error::Unknown(i32::MAX).message(), "unknown LZMA status code 2147483647");
    assert_eq!(
        invalid_option("dict_size".to_string(), "must be at least 4096".to_string()).message(),
        "invalid option `dict_size`: must be at least 4096"
    );
    assert_eq!(
        Error::UnsupportedFeature("multi-volume archives".to_string()).message(),
        "unsupported feature: multi-volume archives"
    );
    assert_eq!(
        Error::Io { kind: std::io::ErrorKind::UnexpectedEof, context: "read archive".to_string() }
            .message(),
        format!("read archive I/O error: {}", std::io::ErrorKind::UnexpectedEof)
    );
}

#[test]
fn xz_messages_follow_xz_wording() {
    assert_eq!(Error::Data.xz_message(), "Compressed data is corrupt");
    assert_eq!(Error::Crc.xz_message(), "Integrity check failed");
    assert_eq!(Error::Param.xz_message(), "Invalid or unsupported options");
    assert_eq!(
        invalid_option("lc".to_string(), "too large".to_string()).xz_message(),
        "Invalid or unsupported options"
    );
    assert_eq!(Error::Thread.xz_message(), "Internal error (bug)");
    assert_eq!(Error::Unknown(42).xz_message(), "Unknown error");
}

#[test]
fn status_codes_map_to_variants() {
    assert_eq!(map_status(1), Error::Data);
    assert_eq!(map_status(5), Error::Param);
    assert_eq!(map_status(7), Error::OutputEof);
    assert_eq!(map_status(16), Error::Archive);
    assert_eq!(map_status(17), Error::NoArchive);
    assert_eq!(map_status(13), Error::Unknown(13));
    assert_eq!(map_status(-1), Error::Unknown(-1));
}
