use zarrista::chain::{subchunk_chain, CodecChainParts};

fn chain(filters: &[&'static str], serializer: &'static str, compressors: &[&'static str]) -> CodecChainParts<&'static str, &'static str, &'static str> {
    CodecChainParts { filters: filters.to_vec(), serializer, compressors: compressors.to_vec() }
}

#[test]
fn a_chain_that_does_not_shard_has_no_subchunk_chain() {
    assert!(subchunk_chain(chain(&["transpose"], "bytes", &["zstd"]), None).is_none());
}

#[test]
fn subchunk_chain_keeps_outer_filters_and_drops_outer_compressors() {
    let outer = chain(&["transpose"], "sharding_indexed", &["crc32c"]);
    let inner = chain(&["bitround"], "bytes", &["blosc"]);
    let sub = subchunk_chain(outer, Some(inner)).unwrap();
    assert_eq!(sub.filters, vec!["transpose", "bitround"]);
    assert_eq!(sub.serializer, "bytes");
    assert_eq!(sub.compressors, vec!["blosc"]);
}

#[test]
fn nested_shards_accumulate_filters() {
    let outer = chain(&["a"], "sharding_indexed", &["x"]);
    let middle = chain(&["b"], "sharding_indexed", &["y"]);
    let innermost = chain(&["c"], "bytes", &["z"]);
    let first = subchunk_chain(outer, Some(middle)).unwrap();
    let second = subchunk_chain(first, Some(innermost)).unwrap();
    assert_eq!(second.filters, vec!["a", "b", "c"]);
    assert_eq!(second.serializer, "bytes");
    assert_eq!(second.compressors, vec!["z"]);
}
