use zarrista::codec::{
    blosc_compression_level, gzip_compression_level, parse_blosc_compressor,
    parse_blosc_shuffle_mode, parse_chunk_key_separator, parse_codec_option_key, transpose_order,
    BloscCompressor, BloscShuffleMode, ChunkKeySeparator, CodecOptionKey, CodecOptionOverrides,
    CodecOptionSetting, CodecParamError, UnexpectedKeyword,
};

#[test]
fn blosc_compressors_ignore_case() {
    assert_eq!(parse_blosc_compressor("lz4").unwrap(), BloscCompressor::LZ4);
    assert_eq!(parse_blosc_compressor("LZ4HC").unwrap(), BloscCompressor::LZ4HC);
    assert_eq!(parse_blosc_compressor("BloscLZ").unwrap(), BloscCompressor::BloscLZ);
    assert_eq!(parse_blosc_compressor("Zstd").unwrap(), BloscCompressor::Zstd);
    match parse_blosc_compressor("Brotli") {
        Err(CodecParamError::UnknownBloscCompressor(name)) => assert_eq!(name, "brotli"),
        _ => panic!("expected an unknown compressor"),
    }
}

#[test]
fn blosc_shuffle_modes() {
    assert_eq!(parse_blosc_shuffle_mode("shuffle").unwrap(), BloscShuffleMode::Shuffle);
    assert_eq!(parse_blosc_shuffle_mode("BitShuffle").unwrap(), BloscShuffleMode::BitShuffle);
    assert_eq!(parse_blosc_shuffle_mode("noshuffle").unwrap(), BloscShuffleMode::NoShuffle);
    assert!(matches!(
        parse_blosc_shuffle_mode("byte"),
        Err(CodecParamError::UnknownBloscShuffleMode(_))
    ));
}

#[test]
fn chunk_key_separators() {
    assert_eq!(parse_chunk_key_separator(".").unwrap(), ChunkKeySeparator::Dot);
    assert_eq!(parse_chunk_key_separator("/").unwrap(), ChunkKeySeparator::Slash);
    match parse_chunk_key_separator("-") {
        Err(CodecParamError::InvalidChunkKeySeparator(s)) => assert_eq!(s, "-"),
        _ => panic!("expected an invalid separator"),
    }
}

#[test]
fn compression_levels_are_at_most_nine() {
    assert_eq!(blosc_compression_level(0).unwrap(), 0);
    assert_eq!(blosc_compression_level(9).unwrap(), 9);
    assert!(matches!(blosc_compression_level(10), Err(CodecParamError::BloscCompressionLevel(10))));
    assert_eq!(gzip_compression_level(6).unwrap(), 6);
    assert!(matches!(gzip_compression_level(42), Err(CodecParamError::GzipCompressionLevel(42))));
}

#[test]
fn transpose_order_must_be_a_permutation() {
    assert_eq!(transpose_order(vec![2, 0, 1]).unwrap(), vec![2, 0, 1]);
    assert_eq!(transpose_order(vec![0]).unwrap(), vec![0]);
    match transpose_order(vec![0, 0, 1]) {
        Err(CodecParamError::TransposeOrder(o)) => assert_eq!(o, vec![0, 0, 1]),
        _ => panic!("expected an invalid order"),
    }
    assert!(transpose_order(vec![1, 2]).is_err());
    assert!(transpose_order(vec![]).is_err());
}

#[test]
fn codec_option_keys() {
    assert_eq!(parse_codec_option_key("validate_checksums").unwrap(), CodecOptionKey::ValidateChecksums);
    assert_eq!(
        parse_codec_option_key("experimental_partial_encoding").unwrap(),
        CodecOptionKey::ExperimentalPartialEncoding
    );
    match parse_codec_option_key("Validate_Checksums") {
        Err(UnexpectedKeyword(k)) => assert_eq!(k, "Validate_Checksums"),
        _ => panic!("keys are case-sensitive"),
    }
}

#[test]
fn the_last_setting_of_an_option_wins() {
    let o = CodecOptionOverrides::from_settings(&[
        CodecOptionSetting::ConcurrentTarget(4),
        CodecOptionSetting::StoreEmptyChunks(true),
        CodecOptionSetting::ConcurrentTarget(8),
    ]);
    assert_eq!(o.concurrent_target, Some(8));
    assert_eq!(o.store_empty_chunks, Some(true));
    assert_eq!(o.validate_checksums, None);
    assert_eq!(o.chunk_concurrent_minimum, None);
    assert_eq!(o.experimental_partial_encoding, None);

    let mut p = CodecOptionOverrides::none();
    p.apply(CodecOptionSetting::ValidateChecksums(false));
    assert_eq!(p.validate_checksums, Some(false));
}

#[test]
fn codec_param_error_messages() {
    let err = blosc_compression_level(10).unwrap_err();
    assert_eq!(err.message(), "blosc compression level must be between 0 and 9, got 10");
    let err = gzip_compression_level(12).unwrap_err();
    assert_eq!(err.message(), "invalid gzip compression level 12; must be between 0 and 9");
    let err = parse_blosc_compressor("LZ5").unwrap_err();
    assert_eq!(
        err.message(),
        "unknown blosc compressor \"lz5\"; expected one of 'blosclz', 'lz4', 'lz4hc', 'snappy', 'zlib', 'zstd'"
    );
    let err = parse_blosc_shuffle_mode("Byte\"Shuffle").unwrap_err();
    assert_eq!(
        err.message(),
        "unknown blosc shuffle mode \"byte\\\"shuffle\"; expected one of 'noshuffle', 'shuffle', 'bitshuffle'"
    );
    let err = parse_chunk_key_separator("_").unwrap_err();
    assert_eq!(err.message(), "Invalid chunk key separator: _");
    let err = transpose_order(vec![1, 1]).unwrap_err();
    assert_eq!(
        err.message(),
        "permutation order [1, 1] is invalid. It must be an array of integers specifying a permutation of 0, 1, \u{2026}, n-1, where n is the number of dimensions"
    );
}
