//! Multihash decoding and hashing, from the multihash crates.
use vstd::prelude::*;

verus! {

/// What `multihash::Multihash::from_bytes` makes of `bytes`: the hash's code
/// and digest, or the error's text.
pub uninterp spec fn multihash_parse(bytes: Seq<u8>) -> Result<(u64, Seq<u8>), Seq<char>>;

/// The digest that the multihash code table computes for `data` under
/// `code`, or the error's text where the table has no such code.
pub uninterp spec fn multihash_digest(code: u64, data: Seq<u8>) -> Result<Seq<u8>, Seq<char>>;

/// Relies on `multihash::Multihash::<64>::from_bytes`: it decodes a
/// varint code, a varint size and that many digest bytes, and fails on
/// anything else; the result depends on the bytes alone.
#[verifier::external_body]
pub(crate) fn parse_multihash(bytes: &[u8]) -> (r: Result<(u64, Vec<u8>), String>)
    ensures
        match r {
            Ok((code, digest)) => multihash_parse(bytes@) == Ok::<(u64, Seq<u8>), Seq<char>>(
                (code, digest@),
            ),
            Err(e) => multihash_parse(bytes@) == Err::<(u64, Seq<u8>), Seq<char>>(e@),
        },
{
    match multihash::Multihash::<64>::from_bytes(bytes) {
        Ok(mh) => Ok((mh.code(), mh.digest().to_vec())),
        Err(e) => Err(e.to_string()),
    }
}

/// Relies on `multihash_codetable::Code`: `try_from` picks the hasher for
/// `code` (or fails with `UnsupportedCode`), and `MultihashDigest::digest`
/// hashes `data` with it; the result depends on the arguments alone.
#[verifier::external_body]
pub(crate) fn digest_with(code: u64, data: &[u8]) -> (r: Result<Vec<u8>, String>)
    ensures
        match r {
            Ok(d) => multihash_digest(code, data@) == Ok::<Seq<u8>, Seq<char>>(d@),
            Err(e) => multihash_digest(code, data@) == Err::<Seq<u8>, Seq<char>>(e@),
        },
{
    match multihash_codetable::Code::try_from(code) {
        Ok(c) => Ok(multihash_codetable::MultihashDigest::digest(&c, data).digest().to_vec()),
        Err(e) => Err(e.to_string()),
    }
}

} // verus!
