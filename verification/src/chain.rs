//! Codec chains by their three parts, and the chain that decodes one subchunk
//! of a sharded array.
use vstd::prelude::*;

verus! {

/// A codec chain by its parts: the array-to-array codecs ("filters"), the
/// array-to-bytes codec ("serializer") and the bytes-to-bytes codecs
/// ("compressors"), each list in encoding order.
pub struct CodecChainParts<A, S, B> {
    pub filters: Vec<A>,
    pub serializer: S,
    pub compressors: Vec<B>,
}

/// The chain that decodes one subchunk of a chain whose serializer is a
/// `sharding_indexed` codec with the inner chain `inner`; `None` where the
/// serializer does not shard (`inner` is `None`), since such a chain has no
/// subchunk level.
///
/// The bytes of a subchunk are the output of the inner chain. Decoding them
/// reverses the inner chain, then the outer filters, which ran before
/// sharding. So the filters are the outer ones followed by the inner ones,
/// and the serializer and compressors are the inner chain's. The outer
/// compressors encode the whole shard, not one subchunk, and are dropped.
pub fn subchunk_chain<A, S, B>(
    outer: CodecChainParts<A, S, B>,
    inner: Option<CodecChainParts<A, S, B>>,
) -> (res: Option<CodecChainParts<A, S, B>>)
    ensures
        inner is None ==> res is None,
        inner matches Some(i) ==> res matches Some(r) && r.filters@ == outer.filters@ + i.filters@
            && r.serializer == i.serializer && r.compressors@ == i.compressors@,
{
    match inner {
        None => None,
        Some(inner) => {
            let CodecChainParts { filters: inner_filters, serializer, compressors } = inner;
            let mut filters = outer.filters;
            let mut rest = inner_filters;
            filters.append(&mut rest);
            Some(CodecChainParts { filters, serializer, compressors })
        },
    }
}

} // verus!
