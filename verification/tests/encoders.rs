use lzma_sdk::alone::HeaderStep;
use lzma_sdk::lzma::encoder::{next_compress_step, CompressAttempt};
use lzma_sdk::lzma::options::CompressionLevel;
use lzma_sdk::lzma::{DecodeStatus, DecodeStep};
use lzma_sdk::lzma2::Lzma2CompressedData;
use lzma_sdk::{
    AloneDecoder, AloneEncoder, Error, Lzma2Encoder, Lzma2Options, Lzma2Property, LzmaAction,
    LzmaOptions, RawEncoder, XzCompressedData, XzOptions, LZMA_ALONE_HEADER_SIZE,
};

/// Bytes standing for the stream the SDK encoder produced for the buffered input.
fn encoded_stream(len: usize) -> Vec<u8> {
    (0..len).map(|i| (i * 7 + 3) as u8).collect()
}

fn lzma2_sample_payload() -> Vec<u8> {
    b"lzma2 payload".repeat(64)
}

fn xz_sample_payload() -> Vec<u8> {
    b"xz payload".repeat(128)
}

#[test]
fn encoder_process_buffers_until_finish_and_drains_output() {
    let input = lzma2_sample_payload();
    let mut encoder = Lzma2Encoder::new(Lzma2Options::default());
    let mut output = [0_u8; 32];

    let (consumed, written) = encoder
        .process(&input[..64], &mut output, LzmaAction::Run, None)
        .unwrap();
    assert_eq!(consumed, 64);
    assert_eq!(written, 0);
    assert_eq!(encoder.total_in(), 64);
    assert_eq!(encoder.total_out(), 0);
    assert!(!encoder.is_finished());
    assert!(encoder.encoded().is_none());

    assert_eq!(encoder.buffered_input().len(), 64);
    let stream = Lzma2CompressedData {
        property: Lzma2Property::new(0x10),
        uncompressed_len: input.len(),
        compressed: encoded_stream(301),
    };
    let (consumed, mut written_total) = encoder
        .process(&input[64..], &mut output, LzmaAction::Finish, Some(Ok(stream)))
        .unwrap();
    assert_eq!(consumed, input.len() - 64);
    assert!(encoder.property().is_some());
    assert!(encoder.encoded().is_some());

    while !encoder.is_finished() {
        let (_, written) = encoder
            .process(&[], &mut output, LzmaAction::Finish, None)
            .unwrap();
        assert!(written != 0);
        written_total += written;
    }

    let encoded = encoder.encoded().unwrap();
    assert_eq!(written_total, encoded.compressed.len());
    assert_eq!(encoder.total_in(), input.len() as u64);
    assert_eq!(encoder.total_out(), encoded.compressed.len() as u64);
    assert_eq!(encoded.uncompressed_len, input.len());
}

#[test]
fn encoder_rejects_new_input_after_finishing() {
    let input = lzma2_sample_payload();
    let mut encoder = Lzma2Encoder::new(Lzma2Options::default());
    let mut output = [0_u8; 64];

    let stream = Lzma2CompressedData {
        property: Lzma2Property::new(0x10),
        uncompressed_len: input.len(),
        compressed: encoded_stream(90),
    };
    encoder
        .process(&input, &mut output, LzmaAction::Finish, Some(Ok(stream)))
        .unwrap();

    let (total_in, total_out) = (encoder.total_in(), encoder.total_out());
    let before = output;
    let error = encoder
        .process(b"extra", &mut output, LzmaAction::Finish, None)
        .unwrap_err();

    assert_eq!(error, Error::Param);
    assert_eq!(encoder.total_in(), total_in);
    assert_eq!(encoder.total_out(), total_out);
    assert_eq!(output, before);
}

#[test]
fn xz_encoder_process_buffers_until_finish_and_drains_output() {
    let input = xz_sample_payload();
    let mut encoder = lzma_sdk::Encoder::new(XzOptions::default());
    let mut output = [0_u8; 48];

    let (consumed, written) = encoder
        .process(&input[..80], &mut output, LzmaAction::Run, None)
        .unwrap();
    assert_eq!(consumed, 80);
    assert_eq!(written, 0);
    assert_eq!(encoder.total_in(), 80);
    assert_eq!(encoder.total_out(), 0);
    assert!(!encoder.is_finished());

    let stream = XzCompressedData {
        uncompressed_len: input.len(),
        compressed: encoded_stream(250),
    };
    let (consumed, mut written_total) = encoder
        .process(&input[80..], &mut output, LzmaAction::Finish, Some(Ok(stream)))
        .unwrap();
    assert_eq!(consumed, input.len() - 80);
    assert!(encoder.encoded().is_some());

    while !encoder.is_finished() {
        let (_, written) = encoder
            .process(&[], &mut output, LzmaAction::Finish, None)
            .unwrap();
        assert!(written != 0);
        written_total += written;
    }

    let encoded = encoder.encoded().unwrap();
    assert_eq!(written_total, encoded.compressed.len());
    assert_eq!(encoder.total_in(), input.len() as u64);
    assert_eq!(encoder.total_out(), encoded.compressed.len() as u64);
}

#[test]
fn xz_encoder_rejects_new_input_after_finishing() {
    let input = xz_sample_payload();
    let mut encoder = lzma_sdk::Encoder::new(XzOptions::default());
    let mut output = [0_u8; 64];

    let stream = XzCompressedData {
        uncompressed_len: input.len(),
        compressed: encoded_stream(60),
    };
    encoder
        .process(&input, &mut output, LzmaAction::Finish, Some(Ok(stream)))
        .unwrap();

    let error = encoder
        .process(b"extra", &mut output, LzmaAction::Finish, None)
        .unwrap_err();

    assert_eq!(error, Error::Param);
}

#[test]
fn raw_encoder_passes_on_compression_errors_and_keeps_the_input() {
    let mut encoder = RawEncoder::new(LzmaOptions::default());
    let mut output = [0_u8; 16];
    let error = encoder
        .process(b"abc", &mut output, LzmaAction::Finish, Some(Err(Error::Mem)))
        .unwrap_err();
    assert_eq!(error, Error::Mem);
    assert!(encoder.encoded().is_none());
    assert_eq!(encoder.total_in(), 3);
    assert_eq!(encoder.buffered_input(), b"abc");
    assert!(encoder.properties().is_none());
}

#[test]
fn compression_retries_with_doubled_capacity() {
    assert_eq!(next_compress_step(0, 10), Ok(CompressAttempt::Done));
    assert_eq!(next_compress_step(7, 10), Ok(CompressAttempt::Retry(20)));
    assert_eq!(next_compress_step(7, usize::MAX), Err(Error::SizeOverflow));
    assert_eq!(next_compress_step(1, 10), Err(Error::Data));
}

#[test]
fn encoder_drains_output_incrementally() {
    let options = LzmaOptions::builder()
        .level(CompressionLevel::DEFAULT())
        .build();
    let mut encoder = AloneEncoder::new(options);
    let input = b"drain me slowly";
    let stream = lzma_sdk::lzma::LzmaCompressedData {
        props: [93, 0, 0, 16, 0],
        uncompressed_len: input.len(),
        compressed: encoded_stream(20),
    };
    let _ = encoder
        .process(input, &mut [], LzmaAction::Finish, Some(Ok(stream)))
        .unwrap();
    let mut first = [0u8; 8];
    let (_, written_first) = encoder
        .process(&[], &mut first, LzmaAction::Finish, None)
        .unwrap();
    assert!(written_first > 0);
}

#[test]
fn alone_encoder_writes_header_then_payload() {
    let mut encoder = AloneEncoder::new(LzmaOptions::default());
    let payload = encoded_stream(5);
    let stream = lzma_sdk::lzma::LzmaCompressedData {
        props: [93, 0, 0, 16, 0],
        uncompressed_len: 0,
        compressed: payload.clone(),
    };
    let (read, written) = encoder
        .process(b"data", &mut [], LzmaAction::Finish, Some(Ok(stream)))
        .unwrap();
    assert_eq!((read, written), (4, 0));
    let mut out = [0u8; 64];
    let (_, written) = encoder
        .process(&[], &mut out, LzmaAction::Finish, None)
        .unwrap();
    assert_eq!(written, LZMA_ALONE_HEADER_SIZE + payload.len());
    assert_eq!(&out[..5], &[93, 0, 0, 16, 0]);
    assert_eq!(&out[5..13], &[0xff; 8]);
    assert_eq!(&out[13..18], payload.as_slice());
    assert!(encoder.is_finished());
    assert_eq!(encoder.total_in(), 4);
    assert_eq!(encoder.total_out(), 18);
    assert_eq!(
        encoder.process(b"x", &mut out, LzmaAction::Run, None).unwrap_err(),
        Error::Param
    );
}

#[test]
fn rejects_truncated_header_on_finish() {
    let mut decoder = AloneDecoder::new().unwrap();
    let err = decoder
        .read_header(&[0u8; 4], LzmaAction::Finish)
        .unwrap_err();
    assert_eq!(err, Error::InputEof);
}

#[test]
fn alone_decoder_collects_header_across_chunks() {
    let mut decoder = AloneDecoder::new().unwrap();
    let header = [93u8, 0, 0, 16, 0, 13, 0, 0, 0, 0, 0, 0, 0, 36, 25];
    assert_eq!(
        decoder.read_header(&header[..6], LzmaAction::Run).unwrap(),
        HeaderStep::Pending(6)
    );
    assert_eq!(decoder.total_in(), 6);
    assert!(decoder.props().is_none());
    assert_eq!(
        decoder.read_header(&header[6..], LzmaAction::Run).unwrap(),
        HeaderStep::Ready(7)
    );
    let props = decoder.props().unwrap();
    assert_eq!(props.dict_size(), 1 << 20);
    assert_eq!(
        decoder.read_header(&[1, 2], LzmaAction::Run).unwrap(),
        HeaderStep::Ready(0)
    );
}

#[test]
fn alone_decoder_checks_the_stated_size() {
    let header = [93u8, 0, 0, 16, 0, 13, 0, 0, 0, 0, 0, 0, 0];

    let mut decoder = AloneDecoder::new().unwrap();
    let input = [&header[..], &[1u8; 10][..]].concat();
    assert_eq!(
        decoder.read_header(&input, LzmaAction::Finish).unwrap(),
        HeaderStep::Ready(13)
    );
    let step = DecodeStep {
        input_consumed: 10,
        output_written: 13,
        status: DecodeStatus::NeedsMoreInput,
    };
    assert_eq!(
        decoder.process(input.len(), 13, Ok(step), LzmaAction::Finish),
        Ok((23, 13))
    );
    assert!(decoder.is_finished());
    assert_eq!(decoder.total_in(), 23);
    assert_eq!(decoder.total_out(), 13);

    let mut decoder = AloneDecoder::new().unwrap();
    decoder.read_header(&input, LzmaAction::Finish).unwrap();
    let step = DecodeStep {
        input_consumed: 10,
        output_written: 14,
        status: DecodeStatus::NotFinished,
    };
    assert_eq!(
        decoder.process(input.len(), 13, Ok(step), LzmaAction::Finish),
        Err(Error::Data)
    );

    let mut decoder = AloneDecoder::new().unwrap();
    decoder.read_header(&input, LzmaAction::Finish).unwrap();
    let step = DecodeStep {
        input_consumed: 10,
        output_written: 12,
        status: DecodeStatus::FinishedWithMark,
    };
    assert_eq!(
        decoder.process(input.len(), 13, Ok(step), LzmaAction::Finish),
        Err(Error::Data)
    );
}

#[test]
fn alone_decoder_refuses_input_after_finishing() {
    let header = [93u8, 0, 0, 16, 0, 255, 255, 255, 255, 255, 255, 255, 255];
    let mut decoder = AloneDecoder::new().unwrap();
    decoder.read_header(&header, LzmaAction::Run).unwrap();
    let step = DecodeStep {
        input_consumed: 0,
        output_written: 0,
        status: DecodeStatus::FinishedWithMark,
    };
    assert_eq!(
        decoder.process(header.len(), 13, Ok(step), LzmaAction::Run),
        Ok((13, 0))
    );
    assert!(decoder.is_finished());
    assert_eq!(
        decoder.read_header(&[1], LzmaAction::Run).unwrap_err(),
        Error::Param
    );
}
