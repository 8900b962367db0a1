use lzma_sdk::lzma::options::{LiteralContextBits, LiteralPosBits, PosBits, MIN_DICT_SIZE};
use lzma_sdk::lzma::props::{Props, LZMA_PROPS_SIZE};
use lzma_sdk::Error;

#[test]
fn getters_expose_components_used_for_encoding() {
    let props = Props::new(
        LiteralContextBits::new(3).unwrap(),
        LiteralPosBits::new(1).unwrap(),
        PosBits::new(2).unwrap(),
        1 << 20,
    )
    .unwrap();

    assert_eq!(props.lc(), LiteralContextBits::new(3).unwrap());
    assert_eq!(props.lp(), LiteralPosBits::new(1).unwrap());
    assert_eq!(props.pb(), PosBits::new(2).unwrap());
    assert_eq!(props.dict_size(), 1 << 20);
    assert_eq!(props.encode().len(), LZMA_PROPS_SIZE);
}

#[test]
fn encode_and_decode_round_trip() {
    let props = Props::new(
        LiteralContextBits::new(4).unwrap(),
        LiteralPosBits::new(0).unwrap(),
        PosBits::new(2).unwrap(),
        1 << 19,
    )
    .unwrap();

    let encoded = props.encode();
    let decoded = Props::decode(&encoded).unwrap();

    assert_eq!(decoded, props);
}

#[test]
fn rejects_dictionary_sizes_smaller_than_minimum() {
    let result = Props::new(
        LiteralContextBits::DEFAULT(),
        LiteralPosBits::DEFAULT(),
        PosBits::DEFAULT(),
        MIN_DICT_SIZE - 1,
    );

    assert!(result.is_err());
}

#[test]
fn rejects_invalid_encoded_properties() {
    let encoded = [225, 0, 0, 0, 0];

    assert!(Props::decode(&encoded).is_err());
}

#[test]
fn encodes_the_standard_header_bytes() {
    let props = Props::new(
        LiteralContextBits::DEFAULT(),
        LiteralPosBits::DEFAULT(),
        PosBits::DEFAULT(),
        1 << 20,
    )
    .unwrap();
    assert_eq!(props.encode(), [93, 0, 0, 16, 0]);
}

#[test]
fn decode_raises_small_dictionaries_to_the_minimum() {
    let decoded = Props::decode(&[93, 0, 1, 0, 0]).unwrap();
    assert_eq!(decoded.dict_size(), MIN_DICT_SIZE);
    assert_eq!(decoded.lc().get(), 3);
    assert_eq!(decoded.lp().get(), 0);
    assert_eq!(decoded.pb().get(), 2);
    assert_eq!(Props::decode(&[224, 0, 0, 1, 0]).unwrap().pb().get(), 4);
    assert_eq!(Props::decode(&[255, 0, 0, 1, 0]).unwrap_err(), Error::Unsupported);
}
