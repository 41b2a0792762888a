use zarrista::repr::{builder_repr, fill_value_repr, named_config_repr};

#[test]
fn named_config_reprs() {
    assert_eq!(
        named_config_repr("BytesToBytesCodec", Some("'zstd'"), Some((true, "{'level': 3}"))),
        "BytesToBytesCodec('zstd', config={'level': 3})"
    );
    // An empty configuration adds nothing.
    assert_eq!(named_config_repr("ChunkKeyEncoding", Some("'default'"), Some((false, "{}"))), "ChunkKeyEncoding('default')");
    assert_eq!(named_config_repr("Codec", None, Some((true, "{'a': 1}"))), "Codec(config={'a': 1})");
    assert_eq!(named_config_repr("Codec", None, None), "Codec()");
}

#[test]
fn fill_value_and_builder_reprs() {
    assert_eq!(fill_value_repr("-9999", "'int32'"), "FillValue(-9999, dtype='int32')");
    assert_eq!(builder_repr(Some("{'shape': [2]}")), "ArrayBuilder(metadata={'shape': [2]})");
    assert_eq!(builder_repr(None), "ArrayBuilder()");
}
