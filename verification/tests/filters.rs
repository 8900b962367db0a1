use lzma_sdk::{BranchConverter, BranchFilter, BranchMode, DeltaFilter};

#[test]
fn delta_round_trips_in_place() {
    let original = b"delta filter payload".repeat(8);
    let mut encoded = original.clone();
    let mut encoder = DeltaFilter::new(4).unwrap();
    encoder.encode_in_place(&mut encoded);
    assert_ne!(encoded, original);

    let mut decoder = DeltaFilter::new(4).unwrap();
    decoder.decode_in_place(&mut encoded);
    assert_eq!(encoded, original);
}

#[test]
fn delta_encoding_does_not_depend_on_chunking() {
    let original: Vec<u8> = (0..97u32).map(|i| (i * i % 251) as u8).collect();
    let mut whole = original.clone();
    DeltaFilter::new(3).unwrap().encode_in_place(&mut whole);

    let mut chunked = original.clone();
    let mut encoder = DeltaFilter::new(3).unwrap();
    let (a, b) = chunked.split_at_mut(40);
    encoder.encode_in_place(a);
    encoder.encode_in_place(b);
    assert_eq!(chunked, whole);

    let mut decoder = DeltaFilter::new(3).unwrap();
    let (a, b) = chunked.split_at_mut(1);
    decoder.decode_in_place(a);
    decoder.decode_in_place(b);
    assert_eq!(chunked, original);
}

#[test]
fn delta_encodes_differences_at_the_distance() {
    let mut data = vec![10u8, 20, 30, 25, 5];
    DeltaFilter::new(2).unwrap().encode_in_place(&mut data);
    assert_eq!(data, vec![10, 20, 20, 5, 231]);
    let mut filter = DeltaFilter::new(1).unwrap();
    let mut data = vec![7u8, 7];
    filter.encode_in_place(&mut data);
    filter.reset();
    let mut again = vec![7u8, 7];
    filter.encode_in_place(&mut again);
    assert_eq!(data, again);
    assert_eq!(data, vec![7, 0]);
}

#[test]
fn delta_rejects_out_of_range_distances() {
    assert!(DeltaFilter::new(0).is_err());
    assert!(DeltaFilter::new(257).is_err());
    assert!(DeltaFilter::new(256).is_ok());
}

#[test]
fn branch_converter_tracks_program_counter() {
    let mut converter = BranchConverter::new(BranchFilter::X86, BranchMode::Encode, 0xFFFF_FFF0);
    let kernel = converter.kernel();
    assert_eq!(kernel.pc, 0xFFFF_FFF0);
    assert!(kernel.encode);
    assert_eq!(kernel.x86_state, 0);
    assert_eq!(converter.transform_in_place(0, 0, 9), 0);
    assert_eq!(converter.kernel().x86_state, 0);
    assert_eq!(converter.transform_in_place(40, 32, 5), 32);
    let kernel = converter.kernel();
    assert_eq!(kernel.pc, 0x10);
    assert_eq!(kernel.x86_state, 5);
    converter.reset(100);
    assert_eq!(converter.kernel().pc, 100);
    assert_eq!(converter.kernel().x86_state, 0);

    let mut arm = BranchConverter::new(BranchFilter::Arm, BranchMode::Decode, 8);
    assert_eq!(arm.transform_in_place(12, 12, 77), 12);
    assert_eq!(arm.kernel().x86_state, 0);
    assert_eq!(arm.kernel().pc, 20);
    assert!(!arm.kernel().encode);
}
