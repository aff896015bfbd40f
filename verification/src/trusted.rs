//! What this library takes on trust: the types of other crates and of std
//! that it carries through, and the functions of theirs that it calls. The
//! contracts in this file are believed, not proved.

use reqwest::Url;
use std::path::PathBuf;
use std::time::SystemTime;
use vstd::prelude::*;
use vstd::utf8::decode_utf8;
use vstd::utf8::valid_utf8;

verus! {

/// `std::time::SystemTime`: a point of wall-clock time, carried through the
/// queue without being read.
#[verifier::external_type_specification]
#[verifier::external_body]
pub struct ExSystemTime(SystemTime);

/// Reads the system clock with `std::time::SystemTime::now`. Nothing is
/// claimed of the value: two calls may differ.
#[verifier::external_body]
pub(crate) fn now() -> (t: SystemTime) {
    SystemTime::now()
}

/// `std::path::PathBuf`: a path in the file system, carried through without
/// being read.
#[verifier::external_type_specification]
#[verifier::external_body]
pub struct ExPathBuf(PathBuf);

/// `String::push` appends the character to the end of the string and leaves
/// the rest as it is.
pub assume_specification[ String::push ](s: &mut String, ch: char)
    ensures
        final(s)@ == old(s)@.push(ch),
;

/// `reqwest::Url`, which is the `Url` of the `url` crate: an address, carried
/// through without being read.
#[verifier::external_type_specification]
#[verifier::external_body]
pub struct ExUrl(Url);

/// The text of an address: the serialization that `Url::as_str` hands out.
pub uninterp spec fn url_text(url: Url) -> Seq<char>;

/// The address that `Url::parse` reads a text as, if it reads it as one.
pub uninterp spec fn url_parsed(text: Seq<char>) -> Option<Url>;

/// The address that `Url::set_query` makes of `url` when it is given
/// `query`.
pub uninterp spec fn url_with_query(url: Url, query: Seq<char>) -> Url;

/// The text that `String::from_utf8_lossy` makes of bytes that need not be
/// UTF-8.
pub uninterp spec fn utf8_lossy(bytes: Seq<u8>) -> Seq<char>;

/// Reads `text` as an address with `Url::parse`. The claim is that the
/// outcome depends on the text alone: the same text is always refused or
/// always read as the same address.
#[verifier::external_body]
pub(crate) fn url_parse(text: &str) -> (res: Option<Url>)
    ensures
        res == url_parsed(text@),
{
    Url::parse(text).ok()
}

/// Copies the serialization of `url`, which `Url::as_str` hands out. The
/// claim is that it is the text that [`url_text`] stands for.
#[verifier::external_body]
pub(crate) fn url_string(url: &Url) -> (res: String)
    ensures
        res@ == url_text(*url),
{
    url.as_str().to_owned()
}

/// Replaces the query of a copy of `url` with `Url::set_query`. The claim
/// is that the outcome depends on the address and the query alone. The
/// call is made only where the new serialization stays within the 32 bits
/// in which the crate counts its bytes, beyond which it panics: a character
/// takes at most four bytes, and a byte of the query at most three once it
/// is escaped.
#[verifier::external_body]
pub(crate) fn url_set_query(url: &Url, query: &str) -> (res: Url)
    requires
        4 * url_text(*url).len() + 12 * query@.len() + 1 <= u32::MAX,
    ensures
        res == url_with_query(*url, query@),
{
    let mut next = url.clone();
    next.set_query(Some(query));
    next
}

/// Decodes `bytes` with `String::from_utf8_lossy`. The claim is that the
/// outcome depends on the bytes alone, and that valid UTF-8 is decoded as
/// it stands; what is made of other bytes is left to [`utf8_lossy`].
#[verifier::external_body]
pub(crate) fn decode_lossy(bytes: &Vec<u8>) -> (res: String)
    ensures
        res@ == utf8_lossy(bytes@),
        valid_utf8(bytes@) ==> res@ == decode_utf8(bytes@),
{
    String::from_utf8_lossy(bytes).into_owned()
}

} // verus!
