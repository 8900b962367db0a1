use lzma_sdk::lzma::options::{LiteralContextBits, LiteralPosBits, PosBits};
use lzma_sdk::lzma::{DecodeStatus, DecodeStep};
use lzma_sdk::xz::decoder::DecodeStep as XzDecodeStep;
use lzma_sdk::{Error, Lzma2Options, Lzma2Property, LzmaOptions, LzmaProps, Stream, XzOptions};

#[test]
fn constructs_all_wrapper_types() {
    let stream = Stream::new();
    let props = LzmaProps::new(
        LiteralContextBits::DEFAULT(),
        LiteralPosBits::DEFAULT(),
        PosBits::DEFAULT(),
        1 << 20,
    )
    .unwrap();

    let raw_encoder = stream.raw_encoder(LzmaOptions::default());
    let lzma2_encoder = stream.lzma2_encoder(Lzma2Options::default());
    let xz_encoder = stream.encoder(XzOptions::default());
    let raw_decoder = stream.raw_decoder(&props).unwrap();
    let lzma2_decoder = stream.lzma2_decoder(Lzma2Property::new(0)).unwrap();
    let xz_decoder = stream.decoder().unwrap();

    assert_eq!(raw_encoder.total_in(), 0);
    assert_eq!(lzma2_encoder.total_in(), 0);
    assert_eq!(xz_encoder.total_in(), 0);
    assert_eq!(raw_decoder.total_in(), 0);
    assert_eq!(lzma2_decoder.total_in(), 0);
    assert_eq!(xz_decoder.total_in(), 0);
}

#[test]
fn raw_decoder_tracks_totals_and_finish_status() {
    let props = LzmaProps::decode(&[93, 0, 0, 16, 0]).unwrap();
    let mut decoder = Stream::new().raw_decoder(&props).unwrap();
    let step = DecodeStep {
        input_consumed: 5,
        output_written: 9,
        status: DecodeStatus::NotFinished,
    };
    assert_eq!(decoder.process(Ok(step)), Ok((5, 9)));
    assert!(!decoder.is_finished());
    assert_eq!(decoder.process(Err(Error::Data)), Err(Error::Data));
    let step = DecodeStep {
        input_consumed: 2,
        output_written: 1,
        status: DecodeStatus::from_raw(4),
    };
    assert_eq!(decoder.process(Ok(step)), Ok((2, 1)));
    assert!(decoder.is_finished());
    assert_eq!(decoder.total_in(), 7);
    assert_eq!(decoder.total_out(), 10);
    decoder.reset();
    assert!(!decoder.is_finished());
    assert_eq!(decoder.total_in(), 0);
    assert_eq!(decoder.total_out(), 0);
}

#[test]
fn xz_decoder_finishes_on_stream_end() {
    let mut decoder = Stream::new().decoder().unwrap();
    let step = XzDecodeStep {
        input_consumed: 3,
        output_written: 0,
        status: lzma_sdk::xz::DecodeStatus::NeedsMoreInput,
        stream_was_finished: false,
    };
    assert_eq!(decoder.process(Ok(step)), Ok((3, 0)));
    assert!(!decoder.is_finished());
    let step = XzDecodeStep {
        input_consumed: 4,
        output_written: 8,
        status: lzma_sdk::xz::DecodeStatus::NotFinished,
        stream_was_finished: true,
    };
    assert_eq!(decoder.process(Ok(step)), Ok((4, 8)));
    assert!(decoder.is_finished());
    assert_eq!(decoder.total_in(), 7);
    assert_eq!(decoder.total_out(), 8);
}

#[test]
fn sdk_version_names_the_modelled_snapshot() {
    assert_eq!(lzma_sdk::sdk_version(), "26.00");
}
