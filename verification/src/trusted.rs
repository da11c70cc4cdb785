//! Every item of this file is believed by Verus without proof: each one
//! gives a contract to a function of `std` or of an outside crate.
use vstd::prelude::*;
use sha2::Digest;
use crate::text::{all_ascii, ascii_lowered};

verus! {

/// `String::push` appends one character: the new contents are the old
/// contents followed by `ch`.
pub assume_specification[ String::push ](s: &mut String, ch: char)
    ensures
        final(s)@ == old(s)@.push(ch),
;

/// What `str::to_lowercase` returns for a string: the Unicode lowercase
/// mapping of every character, which can change the number of characters.
pub uninterp spec fn lowercase_of(s: Seq<char>) -> Seq<char>;

/// Calls `str::to_lowercase`. Claimed: the result is `lowercase_of` of the
/// argument, so the same text always lowers to the same text; and a text
/// of ASCII characters only lowers character by character as
/// `to_ascii_lowercase` does (Unicode maps `A`..`Z` to `a`..`z` and leaves
/// the other ASCII characters as they are).
#[verifier::external_body]
pub(crate) fn to_lowercase(s: &str) -> (r: String)
    ensures
        r@ == lowercase_of(s@),
        all_ascii(s@) ==> r@ == ascii_lowered(s@),
{
    s.to_lowercase()
}

/// What `format!("{:?}", s)` writes for a string slice: the text in double
/// quotes with `std`'s debug escapes.
pub uninterp spec fn debug_quoted(s: Seq<char>) -> Seq<char>;

/// Calls `<str as Debug>::fmt` through `format!`. Claimed: the result is
/// `debug_quoted` of the argument.
#[verifier::external_body]
pub(crate) fn debug_str(s: &str) -> (r: String)
    ensures
        r@ == debug_quoted(s@),
{
    format!("{:?}", s)
}

/// The SHA-256 digest of a byte string.
pub uninterp spec fn sha256_of(data: Seq<u8>) -> Seq<u8>;

/// Calls `sha2::Sha256::digest`. Claimed: the result is `sha256_of` of the
/// input and, as the algorithm defines, 32 bytes long.
#[verifier::external_body]
pub(crate) fn sha256(data: &[u8]) -> (r: Vec<u8>)
    ensures
        r@ == sha256_of(data@),
        r@.len() == 32,
{
    sha2::Sha256::digest(data).to_vec()
}

/// A SHA-256 computation fed piece by piece. Its state is a
/// `sha2::Sha256`, which Verus cannot declare (the name stands for one
/// instance of the crate's generic wrapper types), so the struct is opaque;
/// what it has been fed is named by `digest_input`.
#[verifier::external_body]
pub struct StreamDigest {
    hasher: sha2::Sha256,
}

/// The bytes fed to a running SHA-256 computation so far, in order.
pub uninterp spec fn digest_input(d: StreamDigest) -> Seq<u8>;

/// Calls `<sha2::Sha256 as Digest>::new`. Claimed: a new computation has
/// been fed nothing.
#[verifier::external_body]
pub(crate) fn digest_start() -> (d: StreamDigest)
    ensures
        digest_input(d) == Seq::<u8>::empty(),
{
    StreamDigest { hasher: sha2::Sha256::new() }
}

/// Calls `<sha2::Sha256 as Digest>::update`. Claimed: the chunk is appended
/// to what the computation has been fed.
#[verifier::external_body]
pub(crate) fn digest_feed(d: &mut StreamDigest, chunk: &[u8])
    ensures
        digest_input(*final(d)) == digest_input(*old(d)) + chunk@,
{
    d.hasher.update(chunk)
}

/// Calls `<sha2::Sha256 as Digest>::finalize`. Claimed: the result is the
/// SHA-256 digest (`sha256_of`, 32 bytes) of everything fed, as if it had
/// been given at once.
#[verifier::external_body]
pub(crate) fn digest_end(d: StreamDigest) -> (r: Vec<u8>)
    ensures
        r@ == sha256_of(digest_input(d)),
        r@.len() == 32,
{
    d.hasher.finalize().to_vec()
}

/// What `encoding_rs::GBK.decode` returns for a byte string (with its BOM
/// sniffing and replacement of malformed sequences).
pub uninterp spec fn gbk_decoded(bytes: Seq<u8>) -> Seq<char>;

/// Calls `encoding_rs::GBK.decode` and keeps the text. Claimed: the result
/// is `gbk_decoded` of the input; and, as the crate's source shows (no BOM
/// can start with an ASCII byte, and an all-ASCII input is borrowed as is),
/// an input of ASCII bytes decodes to the same characters.
#[verifier::external_body]
pub(crate) fn gbk_decode(bytes: &[u8]) -> (r: String)
    ensures
        r@ == gbk_decoded(bytes@),
        (forall|i: int| 0 <= i < bytes@.len() ==> bytes@[i] < 0x80) ==> r@ == Seq::new(
            bytes@.len(),
            |i: int| bytes@[i] as char,
        ),
{
    encoding_rs::GBK.decode(bytes).0.into_owned()
}

/// What `String::from_utf8_lossy` returns for a byte string.
pub uninterp spec fn utf8_lossy(bytes: Seq<u8>) -> Seq<char>;

/// Calls `String::from_utf8_lossy`. Claimed: the result is `utf8_lossy` of
/// the input, and, as `std` documents, valid UTF-8 decodes to its text.
#[verifier::external_body]
pub(crate) fn from_utf8_lossy(bytes: &[u8]) -> (r: String)
    ensures
        r@ == utf8_lossy(bytes@),
        vstd::utf8::valid_utf8(bytes@) ==> r@ == vstd::utf8::decode_utf8(bytes@),
{
    String::from_utf8_lossy(bytes).into_owned()
}

} // verus!
