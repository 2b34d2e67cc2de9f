//! Encodings, digests and addresses, as the outside crates compute them.
use itertools::Itertools;
use rand::RngExt;
use sha2::Digest;
use strong_id::StrongId;
use vstd::prelude::*;
use vstd::utf8::{decode_utf8, encode_utf8, encode_utf8_decode_utf8};
use crate::text::text_le;

verus! {

/// A byte that an encoded address keeps: a letter, a digit, or one of `-`, `.`, `_`, `~`.
pub open spec fn unreserved(b: u8) -> bool {
    ||| 0x30 <= b <= 0x39
    ||| 0x41 <= b <= 0x5a
    ||| 0x61 <= b <= 0x7a
    ||| b == 0x2d
    ||| b == 0x2e
    ||| b == 0x5f
    ||| b == 0x7e
}

/// The hexadecimal digit, in upper case, of a number below 16.
pub open spec fn hex_digit(n: int) -> char {
    if n < 10 {
        (0x30 + n) as char
    } else {
        (0x37 + n) as char
    }
}

/// How a byte is written in an encoded address.
pub open spec fn percent_encoded_byte(b: u8) -> Seq<char> {
    if unreserved(b) {
        seq![b as char]
    } else {
        seq!['%', hex_digit(b as int / 16), hex_digit(b as int % 16)]
    }
}

/// How bytes are written in an encoded address.
pub open spec fn percent_encoded_bytes(bytes: Seq<u8>) -> Seq<char>
    decreases bytes.len(),
{
    if bytes.len() == 0 {
        seq![]
    } else {
        percent_encoded_bytes(bytes.drop_last()) + percent_encoded_byte(bytes.last())
    }
}

/// How a text is written in an encoded address: its UTF-8 bytes, all but letters, digits and
/// `-`, `.`, `_`, `~` as `%` and two hexadecimal digits.
pub open spec fn percent_encoded(text: Seq<char>) -> Seq<char> {
    percent_encoded_bytes(encode_utf8(text))
}

/// `urlencoding::encode`: percent-encodes every byte except alphanumerics and `-`, `_`, `.`,
/// `~`, with upper-case digits.
#[verifier::external_body]
pub(crate) fn url_encode(text: &str) -> (encoded: String)
    ensures
        encoded@ == percent_encoded(text@),
{
    urlencoding::encode(text).into_owned()
}

/// The SHA-256 digest of bytes.
pub uninterp spec fn sha256_digest(bytes: Seq<u8>) -> Seq<u8>;

/// The SHA-256 digest that `sha2::Sha256` computes, which has 32 bytes.
#[verifier::external_body]
pub(crate) fn sha256(bytes: &[u8]) -> (digest: Vec<u8>)
    ensures
        digest@ == sha256_digest(bytes@),
        digest@.len() == 32,
{
    let mut hasher = sha2::Sha256::new();
    hasher.update(bytes);
    hasher.finalize().to_vec()
}

/// The standard base64 text of bytes, with padding.
pub uninterp spec fn base64_standard(bytes: Seq<u8>) -> Seq<char>;

/// `base64::encode_config` with `base64::STANDARD`. It panics where the length of the text
/// does not fit in `usize`.
#[verifier::external_body]
pub(crate) fn base64_encode(bytes: &Vec<u8>) -> (text: String)
    requires
        bytes@.len() / 3 * 4 + 4 <= usize::MAX,
    ensures
        text@ == base64_standard(bytes@),
{
    base64::encode_config(bytes, base64::STANDARD)
}

/// The parts of an address that the library reads.
#[derive(Debug)]
pub struct UrlParts {
    pub scheme: String,
    pub path: String,
    pub query: Option<String>,
}

pub struct UrlPartsView {
    pub scheme: Seq<char>,
    pub path: Seq<char>,
    pub query: Option<Seq<char>>,
}

impl DeepView for UrlParts {
    type V = UrlPartsView;

    open spec fn deep_view(&self) -> UrlPartsView {
        UrlPartsView {
            scheme: self.scheme@,
            path: self.path@,
            query: self.query.deep_view(),
        }
    }
}

/// The parts of the address that a text spells, if it spells one.
pub uninterp spec fn parsed_url(text: Seq<char>) -> Option<UrlPartsView>;

/// `url::Url::parse`, with the scheme, the path and the query of what it gives.
#[verifier::external_body]
pub(crate) fn parse_url(text: &str) -> (parts: Option<UrlParts>)
    ensures
        parts.deep_view() == parsed_url(text@),
{
    url::Url::parse(text).ok().map(
        |url|
            UrlParts {
                scheme: url.scheme().to_string(),
                path: url.path().to_string(),
                query: url.query().map(str::to_string),
            },
    )
}

/// The texts stand in ascending order.
pub open spec fn ascending(texts: Seq<Seq<char>>) -> bool {
    forall|i: int, j: int| 0 <= i <= j < texts.len() ==> text_le(texts[i], texts[j])
}

/// `itertools::Itertools::sorted`: the same texts, in ascending order.
#[verifier::external_body]
pub(crate) fn sorted_texts(texts: Vec<String>) -> (sorted: Vec<String>)
    ensures
        sorted.deep_view().to_multiset() == texts.deep_view().to_multiset(),
        ascending(sorted.deep_view()),
{
    texts.into_iter().sorted().collect()
}

/// `random_range` of `rand`'s thread generator: some number up to the limit.
#[verifier::external_body]
pub(crate) fn random_up_to(limit: u64) -> (n: u64)
    ensures
        n <= limit,
{
    rand::rng().random_range(0..=limit)
}

/// A byte that a header value may hold.
pub open spec fn header_byte(b: u8) -> bool {
    (b >= 32 && b != 127) || b == 9
}

/// A text that may stand as a header value.
pub open spec fn header_text(text: Seq<char>) -> bool {
    forall|i: int| 0 <= i < encode_utf8(text).len() ==> header_byte(#[trigger] encode_utf8(text)[i])
}

/// `http::HeaderValue::from_str`: whether it accepts a text. It does where every byte is a
/// tab, or is at least 32 and not 127.
#[verifier::external_body]
pub(crate) fn is_header_text(text: &str) -> (valid: bool)
    ensures
        valid == header_text(text@),
{
    http::HeaderValue::from_str(text).is_ok()
}

/// The prefix of an identifier that consists of a prefix and an encoded UUID.
pub uninterp spec fn id_prefix_of(id: Seq<char>) -> Option<Seq<char>>;

/// The prefix of an identifier that parses as a `strong_id::DynamicStrongId` with a UUID.
#[verifier::external_body]
pub(crate) fn id_prefix(id: &str) -> (prefix: Option<String>)
    ensures
        prefix.deep_view() == id_prefix_of(id@),
{
    let parsed = id.parse::<strong_id::DynamicStrongId<strong_id::uuid::Uuid>>().ok();
    parsed.and_then(|id| id.prefix().map(str::to_string))
}

/// The path of the directory that holds what a POSIX path names.
pub uninterp spec fn parent_of(path: Seq<char>) -> Option<Seq<char>>;

/// The text begins with another, and goes on after it.
pub open spec fn extends(text: Seq<char>, start: Seq<char>) -> bool {
    start.is_prefix_of(text) && start.len() < text.len()
}

/// `std::path::Path::parent` on POSIX: the path without its final component, where it has one.
/// A part of a path that is text is text.
#[verifier::external_body]
pub(crate) fn parent_path(path: &str) -> (parent: Option<String>)
    ensures
        parent.deep_view() == parent_of(path@),
        parent matches Some(dir) ==> extends(path@, dir@),
{
    std::path::Path::new(path).parent().map(|parent| parent.display().to_string())
}

/// Two POSIX paths are equal component by component.
pub uninterp spec fn same_path_as(a: Seq<char>, b: Seq<char>) -> bool;

/// `==` of `std::path::Path` on POSIX.
#[verifier::external_body]
pub(crate) fn same_path(a: &str, b: &str) -> (same: bool)
    ensures
        same == same_path_as(a@, b@),
{
    std::path::Path::new(a) == std::path::Path::new(b)
}

/// The final component of a POSIX path, where that is a name.
pub uninterp spec fn file_name_of(path: Seq<char>) -> Option<Seq<char>>;

/// `std::path::Path::file_name` on POSIX.
#[verifier::external_body]
pub(crate) fn file_name(path: &str) -> (name: Option<String>)
    ensures
        name.deep_view() == file_name_of(path@),
{
    std::path::Path::new(path).file_name().map(|name| name.to_string_lossy().to_string())
}

/// The number that a hexadecimal digit in upper case stands for.
pub open spec fn hex_value(c: char) -> int {
    if c as int <= 0x39 {
        c as int - 0x30
    } else {
        c as int - 0x37
    }
}

/// The bytes that an encoded address stands for: `%` and two hexadecimal digits are a byte, and
/// every other character stands for itself.
pub open spec fn percent_decoded_bytes(text: Seq<char>) -> Seq<u8>
    decreases text.len(),
{
    if text.len() == 0 {
        Seq::empty()
    } else if text[0] == '%' && text.len() >= 3 {
        seq![(16 * hex_value(text[1]) + hex_value(text[2])) as u8] + percent_decoded_bytes(
            text.skip(3),
        )
    } else {
        seq![text[0] as u8] + percent_decoded_bytes(text.skip(1))
    }
}

/// The text that an encoded address stands for.
pub open spec fn percent_decoded(text: Seq<char>) -> Seq<char> {
    decode_utf8(percent_decoded_bytes(text))
}

proof fn lemma_encoded_front(bytes: Seq<u8>)
    requires
        bytes.len() > 0,
    ensures
        percent_encoded_bytes(bytes) == percent_encoded_byte(bytes[0]) + percent_encoded_bytes(
            bytes.skip(1),
        ),
    decreases bytes.len(),
{
    reveal_with_fuel(percent_encoded_bytes, 2);
    if bytes.len() == 1 {
        assert(bytes.drop_last() =~= Seq::empty());
        assert(bytes.skip(1) =~= Seq::empty());
        assert(percent_encoded_bytes(bytes) =~= percent_encoded_byte(bytes[0])
            + percent_encoded_bytes(bytes.skip(1)));
    } else {
        let front = bytes.drop_last();
        lemma_encoded_front(front);
        assert(front.skip(1) =~= bytes.skip(1).drop_last());
        assert(front[0] == bytes[0]);
        assert(bytes.skip(1).last() == bytes.last());
        assert(percent_encoded_bytes(bytes) =~= percent_encoded_byte(bytes[0])
            + percent_encoded_bytes(bytes.skip(1)));
    }
}

proof fn lemma_decoded_byte(b: u8, rest: Seq<char>)
    ensures
        percent_decoded_bytes(percent_encoded_byte(b) + rest) == seq![b] + percent_decoded_bytes(
            rest,
        ),
{
    let text = percent_encoded_byte(b) + rest;
    if unreserved(b) {
        assert(text[0] == b as char);
        assert(text[0] as u8 == b);
        assert(text[0] != '%');
        assert(text.skip(1) =~= rest);
    } else {
        assert(text[0] == '%');
        assert(text[1] == hex_digit(b as int / 16));
        assert(text[2] == hex_digit(b as int % 16));
        assert(text.skip(3) =~= rest);
        assert(hex_value(text[1]) == b as int / 16);
        assert(hex_value(text[2]) == b as int % 16);
        assert(16 * (b as int / 16) + b as int % 16 == b as int);
    }
}

proof fn lemma_decoded_bytes(bytes: Seq<u8>)
    ensures
        percent_decoded_bytes(percent_encoded_bytes(bytes)) == bytes,
    decreases bytes.len(),
{
    if bytes.len() == 0 {
        assert(percent_decoded_bytes(percent_encoded_bytes(bytes)) =~= bytes);
    } else {
        lemma_encoded_front(bytes);
        lemma_decoded_byte(bytes[0], percent_encoded_bytes(bytes.skip(1)));
        lemma_decoded_bytes(bytes.skip(1));
        assert(seq![bytes[0]] + bytes.skip(1) =~= bytes);
    }
}

/// Decoding what was encoded gives it back.
pub proof fn law_encoded_text_is_decoded(text: Seq<char>)
    ensures
        percent_decoded(percent_encoded(text)) == text,
{
    lemma_decoded_bytes(encode_utf8(text));
    encode_utf8_decode_utf8(text);
}

/// An encoded text holds nothing that separates parameters.
pub proof fn law_encoded_text_separates_nothing(text: Seq<char>)
    ensures
        !percent_encoded(text).contains('&'),
        !percent_encoded(text).contains('='),
{
    lemma_encoded_chars(encode_utf8(text));
}

proof fn lemma_encoded_chars(bytes: Seq<u8>)
    ensures
        !percent_encoded_bytes(bytes).contains('&'),
        !percent_encoded_bytes(bytes).contains('='),
    decreases bytes.len(),
{
    if bytes.len() > 0 {
        let front = percent_encoded_bytes(bytes.drop_last());
        let back = percent_encoded_byte(bytes.last());
        lemma_encoded_chars(bytes.drop_last());
        let all = percent_encoded_bytes(bytes);
        assert forall|i: int| 0 <= i < all.len() implies (#[trigger] all[i]) != '&' && all[i] != '=' by {
            if i < front.len() {
                assert(front[i] == all[i]);
                assert(front.contains(front[i]));
            } else {
                assert(back[i - front.len()] == all[i]);
            }
        }
    }
}

} // verus!
