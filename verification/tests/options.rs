use lzma_sdk::lzma::options::{
    CompressionLevel, EndMarkerMode, FastBytes, LiteralContextBits, LiteralPosBits,
    MatchFinderMode, Options, PosBits,
};
use lzma_sdk::lzma2::Lzma2Options;
use lzma_sdk::xz::options::{XZ_CHECK_SHA256, XZ_ID_DELTA};
use lzma_sdk::xz::{Check, Filter, XzOptions};
use lzma_sdk::{Error, LzmaOptions};

#[test]
fn lc_validates_supported_range() {
    assert_eq!(LiteralContextBits::MIN().get(), 0);
    assert_eq!(LiteralContextBits::DEFAULT().get(), 3);
    assert_eq!(LiteralContextBits::MAX().get(), 8);
    assert_eq!(LiteralContextBits::new(0).unwrap(), LiteralContextBits::MIN());
    assert_eq!(LiteralContextBits::new(3).unwrap(), LiteralContextBits::DEFAULT());
    assert_eq!(LiteralContextBits::new(8).unwrap(), LiteralContextBits::MAX());
    assert!(LiteralContextBits::new(9).is_err());
}

#[test]
fn lp_validates_supported_range() {
    assert_eq!(LiteralPosBits::MIN().get(), 0);
    assert_eq!(LiteralPosBits::DEFAULT().get(), 0);
    assert_eq!(LiteralPosBits::MAX().get(), 4);
    assert_eq!(LiteralPosBits::new(0).unwrap(), LiteralPosBits::MIN());
    assert_eq!(LiteralPosBits::new(4).unwrap(), LiteralPosBits::MAX());
    assert!(LiteralPosBits::new(5).is_err());
}

#[test]
fn pb_validates_supported_range() {
    assert_eq!(PosBits::MIN().get(), 0);
    assert_eq!(PosBits::DEFAULT().get(), 2);
    assert_eq!(PosBits::MAX().get(), 4);
    assert_eq!(PosBits::new(0).unwrap(), PosBits::MIN());
    assert_eq!(PosBits::new(2).unwrap(), PosBits::DEFAULT());
    assert_eq!(PosBits::new(4).unwrap(), PosBits::MAX());
    assert!(PosBits::new(5).is_err());
}

#[test]
fn fb_validates_supported_range() {
    assert_eq!(FastBytes::MIN().get(), 5);
    assert_eq!(FastBytes::DEFAULT().get(), 32);
    assert_eq!(FastBytes::MAX().get(), 273);
    assert_eq!(FastBytes::new(5).unwrap(), FastBytes::MIN());
    assert_eq!(FastBytes::new(32).unwrap(), FastBytes::DEFAULT());
    assert_eq!(FastBytes::new(273).unwrap(), FastBytes::MAX());
    assert!(FastBytes::new(4).is_err());
    assert!(FastBytes::new(274).is_err());
}

#[test]
fn level_validates_supported_range() {
    assert_eq!(CompressionLevel::MIN().get(), 0);
    assert_eq!(CompressionLevel::DEFAULT().get(), 5);
    assert_eq!(CompressionLevel::MAX().get(), 9);
    assert_eq!(CompressionLevel::new(0).unwrap(), CompressionLevel::MIN());
    assert_eq!(CompressionLevel::new(5).unwrap(), CompressionLevel::DEFAULT());
    assert_eq!(CompressionLevel::new(9).unwrap(), CompressionLevel::MAX());
    assert!(CompressionLevel::new(10).is_err());
}

#[test]
fn option_range_errors_name_the_option() {
    assert_eq!(
        LiteralContextBits::new(9).unwrap_err(),
        Error::InvalidOption {
            name: "lc".to_string(),
            details: "expected a value in 0..=8".to_string(),
        }
    );
    assert_eq!(
        FastBytes::new(274).unwrap_err(),
        Error::InvalidOption {
            name: "fast_bytes".to_string(),
            details: "expected a value in 5..=273".to_string(),
        }
    );
}

#[test]
fn mod_default_options_match_documented_defaults() {
    let options = Options::default();

    assert_eq!(options.level(), CompressionLevel::DEFAULT());
    assert_eq!(options.level().get(), 5);
    assert_eq!(options.lc(), LiteralContextBits::DEFAULT());
    assert_eq!(options.lc().get(), 3);
    assert_eq!(options.lp(), LiteralPosBits::DEFAULT());
    assert_eq!(options.lp().get(), 0);
    assert_eq!(options.pb(), PosBits::DEFAULT());
    assert_eq!(options.pb().get(), 2);
    assert_eq!(options.fast_bytes(), FastBytes::DEFAULT());
    assert_eq!(options.fast_bytes().get(), 32);
    assert_eq!(options.match_finder(), MatchFinderMode::BinaryTree);
    assert_eq!(options.end_marker(), EndMarkerMode::Disabled);
    assert_eq!(options.num_threads(), Options::DEFAULT_NUM_THREADS());
}

#[test]
fn lzma_options_reject_out_of_range_values() {
    assert!(Options::default().with_dict_size(4095).is_err());
    assert_eq!(Options::default().with_dict_size(4096).unwrap().dict_size(), Some(4096));
    assert!(Options::default().with_num_threads(0).is_err());
    assert!(Options::default().with_num_threads(3).is_err());
    assert_eq!(Options::default().with_num_threads(2).unwrap().num_threads(), 2);
}

#[test]
fn lzma_options_translate_into_raw_props() {
    let options = Options::builder()
        .level(CompressionLevel::new(7).unwrap())
        .dict_size(1 << 16)
        .unwrap()
        .match_cycles(9)
        .end_marker(EndMarkerMode::Enabled)
        .reduce_size(77)
        .build();
    let props = options.to_raw_encoder_props();
    assert_eq!(props.level, 7);
    assert_eq!(props.dictSize, 1 << 16);
    assert_eq!(props.lc, 3);
    assert_eq!(props.lp, 0);
    assert_eq!(props.pb, 2);
    assert_eq!(props.algo, 1);
    assert_eq!(props.fb, 32);
    assert_eq!(props.btMode, 1);
    assert_eq!(props.numHashBytes, 4);
    assert_eq!(props.mc, 9);
    assert_eq!(props.writeEndMark, 1);
    assert_eq!(props.numThreads, 1);
    assert_eq!(props.reduceSize, 77);
    assert_eq!(props.numHashOutBits, 0);

    let defaults = Options::default().to_raw_encoder_props();
    assert_eq!(defaults.dictSize, 0);
    assert_eq!(defaults.reduceSize, u64::MAX);
}

#[test]
fn options_default_options_match_documented_defaults() {
    let options = Lzma2Options::default();

    assert_eq!(options.lzma(), LzmaOptions::default());
    assert_eq!(options.block_size(), None);
    assert_eq!(options.num_block_threads_reduced(), None);
    assert_eq!(options.num_block_threads_max(), None);
    assert_eq!(
        options.num_total_threads(),
        Lzma2Options::DEFAULT_NUM_TOTAL_THREADS()
    );
    assert_eq!(options.num_thread_groups(), None);

    let options = XzOptions::default();

    assert_eq!(options.lzma2(), Lzma2Options::default());
    assert_eq!(options.check(), Check::Crc32);
    assert_eq!(options.filter(), Filter::NoFilter);
    assert_eq!(options.block_size(), None);
    assert_eq!(options.num_thread_groups(), None);
    assert_eq!(options.num_total_threads(), None);
    assert_eq!(options.num_block_threads_reduced(), None);
    assert_eq!(options.num_block_threads_max(), None);
    assert!(!options.force_write_sizes_in_header());
    assert_eq!(options.reduce_size(), None);
}

#[test]
fn builder_populates_raw_props() {
    let lzma = LzmaOptions::default().with_end_marker(EndMarkerMode::Enabled);
    let options = Lzma2Options::builder()
        .lzma_options(lzma)
        .block_size(1 << 20)
        .num_block_threads_reduced(2)
        .num_block_threads_max(4)
        .num_total_threads(3)
        .unwrap()
        .num_thread_groups(5)
        .build();

    let props = options.to_raw_props();

    assert_eq!(props.blockSize, 1 << 20);
    assert_eq!(props.numBlockThreads_Reduced, 2);
    assert_eq!(props.numBlockThreads_Max, 4);
    assert_eq!(props.numTotalThreads, 3);
    assert_eq!(props.numThreadGroups, 5);
    assert_eq!(props.lzmaProps.writeEndMark, EndMarkerMode::Enabled as u32);
}

#[test]
fn rejects_zero_total_threads() {
    assert!(Lzma2Options::default().with_num_total_threads(0).is_err());
    assert!(Lzma2Options::builder().num_total_threads(0).is_err());
}

#[test]
fn sdk_26_00_maps_xz_properties() {
    let options = XzOptions::builder()
        .check(Check::Sha256)
        .filter(Filter::Delta { distance: 8 })
        .block_size(1 << 20)
        .num_thread_groups(2)
        .num_total_threads(3)
        .num_block_threads_reduced(4)
        .num_block_threads_max(5)
        .force_write_sizes_in_header(true)
        .reduce_size(1234)
        .build();

    let props = options.to_raw_props().unwrap();

    assert_eq!(props.checkId, XZ_CHECK_SHA256);
    assert_eq!(props.blockSize, 1 << 20);
    assert_eq!(props.numThreadGroups, 2);
    assert_eq!(props.numTotalThreads, 3);
    assert_eq!(props.numBlockThreads_Reduced, 4);
    assert_eq!(props.numBlockThreads_Max, 5);
    assert_eq!(props.forceWriteSizesInHeader, 1);
    assert_eq!(props.reduceSize, 1234);
    assert_eq!(props.filterProps.id, XZ_ID_DELTA);
    assert_eq!(props.filterProps.delta, 8);
}

#[test]
fn xz_filters_map_to_container_ids() {
    let id = |filter: Filter| {
        XzOptions::default()
            .with_filter(filter)
            .to_raw_props()
            .unwrap()
            .filterProps
            .id
    };
    assert_eq!(id(Filter::NoFilter), 0);
    assert_eq!(id(Filter::X86), 4);
    assert_eq!(id(Filter::PowerPc), 5);
    assert_eq!(id(Filter::IA64), 6);
    assert_eq!(id(Filter::Arm), 7);
    assert_eq!(id(Filter::ArmThumb), 8);
    assert_eq!(id(Filter::Sparc), 9);
    assert_eq!(id(Filter::Arm64), 10);
    assert_eq!(id(Filter::RiscV), 11);
    assert_eq!(Check::NoCheck.as_raw(), 0);
    assert_eq!(Check::Crc64.as_raw(), 4);
}
