//! The enrichment client: the address that is asked for an artist, and the
//! seed that the answer holds.

use vstd::prelude::*;
use vstd::string::{StringExecFns, StringSliceAdditionalSpecFns};
use crate::json::{json_document, parse, Json, JsonValue, NotJson};
use crate::text::{nth_segment, segment};

verus! {

/// The bytes that stand for themselves in a query: ASCII letters and digits,
/// `-`, `.`, `_` and `~`.
pub open spec fn is_unreserved(b: u8) -> bool {
    0x30 <= b <= 0x39 || 0x41 <= b <= 0x5A || 0x61 <= b <= 0x7A || b == 0x2D || b == 0x2E || b
        == 0x5F || b == 0x7E
}

/// The upper-case hexadecimal digit of a number below sixteen.
pub open spec fn hex_digit(n: u8) -> char {
    if n < 10 {
        (0x30 + n) as u8 as char
    } else {
        (0x41 + (n - 10)) as u8 as char
    }
}

/// The percent-encoding of a run of bytes: every unreserved byte as it
/// stands, every other as `%` and its two hexadecimal digits.
pub open spec fn percent_encoded(bytes: Seq<u8>) -> Seq<char>
    decreases bytes.len(),
{
    if bytes.len() == 0 {
        Seq::empty()
    } else {
        let b = bytes[0];
        let head = if is_unreserved(b) {
            seq![b as char]
        } else {
            seq!['%', hex_digit(b / 16), hex_digit(b % 16)]
        };
        head + percent_encoded(bytes.drop_first())
    }
}

/// `urlencoding::encode`, which percent-encodes every byte of the UTF-8 form
/// of a text except ASCII letters and digits, `-`, `_`, `.` and `~`.
#[verifier::external_body]
fn encode_component(text: &str) -> (r: String)
    ensures
        r@ == percent_encoded(text.spec_bytes()),
{
    urlencoding::encode(text).into_owned()
}

/// The address that is asked for the best match of an artist name.
pub open spec fn search_address(artist: Seq<u8>) -> Seq<char> {
    "https://api.spotify.com/v1/search?q="@ + percent_encoded(artist) + "&type=artist&limit=1"@
}

/// Builds the address that is asked for the best match of `artist`.
pub fn search_url(artist: &str) -> (url: String)
    ensures
        url@ == search_address(artist.spec_bytes()),
{
    let query = encode_component(artist);
    let mut url = String::from_str("https://api.spotify.com/v1/search?q=");
    url.append(query.as_str());
    url.append("&type=artist&limit=1");
    url
}

/// The compound identifier of the best match: the string under `uri` of the
/// first element of `artists.items`.
pub open spec fn best_match_uri(doc: JsonValue) -> Option<Seq<char>> {
    match doc.member("artists"@) {
        None => None,
        Some(artists) => match artists.member("items"@) {
            None => None,
            Some(list) => match list.items() {
                None => None,
                Some(items) => if items.len() == 0 {
                    None
                } else {
                    match items[0].member("uri"@) {
                        None => None,
                        Some(uri) => uri.text(),
                    }
                },
            },
        },
    }
}

/// The seed that a search answer holds: the third of the stretches that the
/// colons cut the identifier of the best match into. Empty where there is no
/// match, no identifier, or no third stretch.
pub open spec fn seed_in(doc: JsonValue) -> Seq<char> {
    match best_match_uri(doc) {
        None => Seq::empty(),
        Some(uri) => match segment(uri, ':', 2) {
            None => Seq::empty(),
            Some(seed) => seed,
        },
    }
}

fn find_best_match_uri(doc: &Json) -> (r: Option<&str>)
    ensures
        match r {
            Some(uri) => best_match_uri(doc@) == Some(uri@),
            None => best_match_uri(doc@) is None,
        },
{
    let artists = match doc.get("artists") {
        Some(a) => a,
        None => { return None; },
    };
    let list = match artists.get("items") {
        Some(l) => l,
        None => { return None; },
    };
    let items = match list.as_array() {
        Some(i) => i,
        None => { return None; },
    };
    if items.len() == 0 {
        return None;
    }
    match items[0].get("uri") {
        Some(uri) => uri.as_text(),
        None => None,
    }
}

/// Reads the seed from the document of a search answer.
pub fn seed_of(doc: &Json) -> (seed: String)
    ensures
        seed@ == seed_in(doc@),
{
    match find_best_match_uri(doc) {
        None => String::new(),
        Some(uri) => match nth_segment(uri, ':', 2) {
            None => String::new(),
            Some(seed) => seed,
        },
    }
}

/// Reads the seed from the body of a search answer.
pub fn seed_in_body(body: &str) -> (r: Result<String, NotJson>)
    ensures
        match r {
            Ok(seed) => json_document(body@) matches Some(doc) && seed@ == seed_in(doc),
            Err(_) => json_document(body@) is None,
        },
{
    match parse(body) {
        Ok(doc) => Ok(seed_of(&doc)),
        Err(e) => Err(e),
    }
}

} // verus!
