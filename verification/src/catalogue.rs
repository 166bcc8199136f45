//! The addresses at which the catalogue answers.

use crate::media::StreamKind;
use vstd::prelude::*;
use vstd::string::*;

verus! {

/// Where the catalogue lives.
pub const CATALOGUE: &'static str = "https://v3-cinemeta.strem.io";

/// A byte that a form leaves as it is: a letter, a digit, or one of `*`,
/// `-`, `.` and `_`.
pub open spec fn unchanged(byte: u8) -> bool {
    ||| byte == 42
    ||| byte == 45
    ||| byte == 46
    ||| 48 <= byte <= 57
    ||| 65 <= byte <= 90
    ||| byte == 95
    ||| 97 <= byte <= 122
}

/// The upper-case hexadecimal digit for a value below sixteen.
pub open spec fn hex_digit(value: int) -> u8 {
    if value < 10 {
        (48 + value) as u8
    } else {
        (55 + value) as u8
    }
}

/// One byte as a form writes it: itself where it is left unchanged, `+` for
/// a space, else `%` and its two hexadecimal digits.
pub open spec fn serialized_byte(byte: u8) -> Seq<u8> {
    if unchanged(byte) {
        seq![byte]
    } else if byte == 32 {
        seq![43u8]
    } else {
        seq![37u8, hex_digit(byte as int / 16), hex_digit(byte as int % 16)]
    }
}

/// Bytes as a form writes them, one after the other.
pub open spec fn serialized(bytes: Seq<u8>) -> Seq<u8>
    decreases bytes.len(),
{
    if bytes.len() == 0 {
        Seq::empty()
    } else {
        serialized(bytes.drop_last()) + serialized_byte(bytes.last())
    }
}

/// `form_urlencoded::byte_serialize` of the url crate, collected: the bytes
/// as a form writes them.
#[verifier::external_body]
fn byte_serialize(input: &[u8]) -> (output: Vec<u8>)
    ensures
        output@ == serialized(input@),
{
    url::form_urlencoded::byte_serialize(input).collect::<String>().into_bytes()
}

/// The catalogue's word for a kind of stream.
pub open spec fn kind_word(kind: StreamKind) -> Seq<u8> {
    match kind {
        StreamKind::Movie => "movie".spec_bytes(),
        StreamKind::Series => "series".spec_bytes(),
    }
}

/// The address that searches the catalogue for `query`.
pub open spec fn search_address(kind: StreamKind, query: Seq<u8>) -> Seq<u8> {
    CATALOGUE.spec_bytes() + "/catalog/".spec_bytes() + kind_word(kind)
        + "/top/search=".spec_bytes() + serialized(query) + ".json".spec_bytes()
}

/// The address of what the catalogue knows of `id`.
pub open spec fn meta_address(kind: StreamKind, id: Seq<u8>) -> Seq<u8> {
    CATALOGUE.spec_bytes() + "/meta/".spec_bytes() + kind_word(kind) + "/".spec_bytes() + id
        + ".json".spec_bytes()
}

/// The catalogue's word for a kind of stream.
fn kind_name(kind: StreamKind) -> (word: &'static str)
    ensures
        word.spec_bytes() == kind_word(kind),
{
    match kind {
        StreamKind::Movie => "movie",
        StreamKind::Series => "series",
    }
}

/// Makes the address that searches the catalogue for `query`.
pub fn search_url(kind: StreamKind, query: &[u8]) -> (url: Vec<u8>)
    ensures
        url@ == search_address(kind, query@),
{
    let encoded = byte_serialize(query);
    let mut url: Vec<u8> = Vec::new();
    url.extend_from_slice(CATALOGUE.as_bytes());
    url.extend_from_slice("/catalog/".as_bytes());
    url.extend_from_slice(kind_name(kind).as_bytes());
    url.extend_from_slice("/top/search=".as_bytes());
    url.extend_from_slice(encoded.as_slice());
    url.extend_from_slice(".json".as_bytes());
    url
}

/// Makes the address of what the catalogue knows of `id`.
pub fn meta_url(kind: StreamKind, id: &[u8]) -> (url: Vec<u8>)
    ensures
        url@ == meta_address(kind, id@),
{
    let mut url: Vec<u8> = Vec::new();
    url.extend_from_slice(CATALOGUE.as_bytes());
    url.extend_from_slice("/meta/".as_bytes());
    url.extend_from_slice(kind_name(kind).as_bytes());
    url.extend_from_slice("/".as_bytes());
    url.extend_from_slice(id);
    url.extend_from_slice(".json".as_bytes());
    url
}

} // verus!
