use lzma_sdk::checksum::{crc64, sha256, Crc64, Sha256};

#[test]
fn crc64_matches_incremental_digest() {
    let payload = b"checksum payload";
    let mut hasher = Crc64::new();
    hasher.update(&payload[..8]);
    hasher.update(&payload[8..]);
    assert_eq!(hasher.finish(), crc64(payload));
}

#[test]
fn crc_check_values() {
    assert_eq!(lzma_sdk::crc32(b"123456789"), 0xCBF4_3926);
    assert_eq!(crc64(b"123456789"), 0x995D_C9BB_DF19_39FA);
    assert_eq!(lzma_sdk::crc32(b""), 0);
    assert_eq!(crc64(b""), 0);
    assert_eq!(Crc64::default().finish(), 0);
}

#[test]
fn sha256_matches_known_vector() {
    let digest = sha256(b"abc");
    assert_eq!(
        digest,
        [
            0xba, 0x78, 0x16, 0xbf, 0x8f, 0x01, 0xcf, 0xea, 0x41, 0x41, 0x40, 0xde, 0x5d, 0xae,
            0x22, 0x23, 0xb0, 0x03, 0x61, 0xa3, 0x96, 0x17, 0x7a, 0x9c, 0xb4, 0x10, 0xff, 0x61,
            0xf2, 0x00, 0x15, 0xad,
        ]
    );
}

#[test]
fn sha256_incremental_matches_one_shot() {
    let payload = b"split digest payload";
    let mut hasher = Sha256::new();
    hasher.update(&payload[..5]);
    hasher.update(&payload[5..]);
    assert_eq!(hasher.finish(), sha256(payload));
}

#[test]
fn sha256_of_empty_input() {
    assert_eq!(
        sha256(b""),
        [
            0xe3, 0xb0, 0xc4, 0x42, 0x98, 0xfc, 0x1c, 0x14, 0x9a, 0xfb, 0xf4, 0xc8, 0x99, 0x6f,
            0xb9, 0x24, 0x27, 0xae, 0x41, 0xe4, 0x64, 0x9b, 0x93, 0x4c, 0xa4, 0x95, 0x99, 0x1b,
            0x78, 0x52, 0xb8, 0x55,
        ]
    );
    assert_eq!(Sha256::default().finish(), sha256(b""));
}

#[test]
fn sha256_of_two_block_message() {
    let message = b"abcdbcdecdefdefgefghfghighijhijkijkljklmklmnlmnomnopnopq";
    assert_eq!(
        sha256(message),
        [
            0x24, 0x8d, 0x6a, 0x61, 0xd2, 0x06, 0x38, 0xb8, 0xe5, 0xc0, 0x26, 0x93, 0x0c, 0x3e,
            0x60, 0x39, 0xa3, 0x3c, 0xe4, 0x59, 0x64, 0xff, 0x21, 0x67, 0xf6, 0xec, 0xed, 0xd4,
            0x19, 0xdb, 0x06, 0xc1,
        ]
    );
}

#[test]
fn sha256_chunked_across_block_boundaries() {
    let data: Vec<u8> = (0..1000u32).map(|i| (i % 251) as u8).collect();
    let mut hasher = Sha256::new();
    for chunk in data.chunks(37) {
        hasher.update(chunk);
    }
    assert_eq!(hasher.finish(), sha256(&data));
    let million_a = vec![b'a'; 1_000_000];
    assert_eq!(
        sha256(&million_a),
        [
            0xcd, 0xc7, 0x6e, 0x5c, 0x99, 0x14, 0xfb, 0x92, 0x81, 0xa1, 0xc7, 0xe2, 0x84, 0xd7,
            0x3e, 0x67, 0xf1, 0x80, 0x9a, 0x48, 0xa4, 0x97, 0x20, 0x0e, 0x04, 0x6d, 0x39, 0xcc,
            0xc7, 0x11, 0x2c, 0xd0,
        ]
    );
}
