//! The listening-history service: the addresses of its pages, and what a
//! response says about the number of pages and the artists on one.

use vstd::prelude::*;
use vstd::string::StringExecFns;
use crate::json::{json_document, parse, Json, JsonValue};
use crate::text::{decimal_digits, decimal_text, decimal_u64, parse_u64};

verus! {

/// Why a response of the service could not be used.
#[derive(Debug, Clone, Copy, PartialEq, Eq)]
pub enum FetchError {
    /// The body is not JSON.
    NotJson,
    /// The document has no `artists` member.
    NoArtists,
    /// `artists.@attr.totalPages` is absent or no string.
    NoPageCount,
    /// `artists.@attr.totalPages` is no unsigned decimal number.
    BadPageCount,
}

/// The address that is asked for the number of pages.
pub open spec fn probe_address(api_key: Seq<char>, username: Seq<char>) -> Seq<char> {
    "http://ws.audioscrobbler.com/2.0/?method=library.getartists&api_key="@ + api_key
        + "&limit=2000&user="@ + username + "&format=json"@
}

/// The address of page `page`.
pub open spec fn page_address(api_key: Seq<char>, page: nat, username: Seq<char>) -> Seq<char> {
    "http://ws.audioscrobbler.com/2.0/?method=library.getartists&api_key="@ + api_key
        + "&limit=2000&page="@ + decimal_digits(page) + "&user="@ + username + "&format=json"@
}

/// Builds the address that is asked for the number of pages.
pub fn probe_url(api_key: &str, username: &str) -> (url: String)
    ensures
        url@ == probe_address(api_key@, username@),
{
    let mut url = String::from_str(
        "http://ws.audioscrobbler.com/2.0/?method=library.getartists&api_key=",
    );
    url.append(api_key);
    url.append("&limit=2000&user=");
    url.append(username);
    url.append("&format=json");
    url
}

/// Builds the address of page `page`.
pub fn page_url(api_key: &str, page: u64, username: &str) -> (url: String)
    ensures
        url@ == page_address(api_key@, page as nat, username@),
{
    let number = decimal_text(page);
    let mut url = String::from_str(
        "http://ws.audioscrobbler.com/2.0/?method=library.getartists&api_key=",
    );
    url.append(api_key);
    url.append("&limit=2000&page=");
    url.append(number.as_str());
    url.append("&user=");
    url.append(username);
    url.append("&format=json");
    url
}

/// The number of pages that a document announces, under
/// `artists.@attr.totalPages`, as a string of decimal digits.
pub open spec fn announced_pages(doc: JsonValue) -> Result<u64, FetchError> {
    match doc.member("artists"@) {
        None => Err(FetchError::NoArtists),
        Some(artists) => match artists.member("@attr"@) {
            None => Err(FetchError::NoPageCount),
            Some(attr) => match attr.member("totalPages"@) {
                None => Err(FetchError::NoPageCount),
                Some(total) => match total.text() {
                    None => Err(FetchError::NoPageCount),
                    Some(digits) => match decimal_u64(digits) {
                        None => Err(FetchError::BadPageCount),
                        Some(n) => Ok(n),
                    },
                },
            },
        },
    }
}

/// Reads the number of pages from the document of a probe response.
pub fn total_pages(doc: &Json) -> (r: Result<u64, FetchError>)
    ensures
        r == announced_pages(doc@),
{
    let artists = match doc.get("artists") {
        Some(a) => a,
        None => { return Err(FetchError::NoArtists); },
    };
    let attr = match artists.get("@attr") {
        Some(a) => a,
        None => { return Err(FetchError::NoPageCount); },
    };
    let total = match attr.get("totalPages") {
        Some(t) => t,
        None => { return Err(FetchError::NoPageCount); },
    };
    let digits = match total.as_text() {
        Some(d) => d,
        None => { return Err(FetchError::NoPageCount); },
    };
    match parse_u64(digits) {
        Some(n) => Ok(n),
        None => Err(FetchError::BadPageCount),
    }
}

/// Reads the number of pages from the body of a probe response.
pub fn total_pages_in(body: &str) -> (r: Result<u64, FetchError>)
    ensures
        r == match json_document(body@) {
            None => Err(FetchError::NotJson),
            Some(doc) => announced_pages(doc),
        },
{
    match parse(body) {
        Ok(doc) => total_pages(&doc),
        Err(_) => Err(FetchError::NotJson),
    }
}

/// The numbers of the pages of a catalog of `total` pages: from one to
/// `total`.
pub open spec fn numbered_pages(total: u64) -> Seq<u64> {
    Seq::new(total as nat, |i: int| (i + 1) as u64)
}

/// Lists the numbers of the pages to fetch.
pub fn page_numbers(total: u64) -> (pages: Vec<u64>)
    requires
        total <= usize::MAX,
    ensures
        pages@ == numbered_pages(total),
{
    let mut pages: Vec<u64> = Vec::new();
    let mut page: u64 = 0;
    while page < total
        invariant
            page <= total <= usize::MAX,
            pages@ == numbered_pages(page),
        decreases total - page,
    {
        page += 1;
        pages.push(page);
    }
    pages
}

/// One artist record of a page, as the service sent it: what it holds under
/// `name` and under `playcount`, where that is a string.
#[derive(Debug, Clone, PartialEq, Eq)]
pub struct RawRecord {
    pub name: Option<String>,
    pub playcount: Option<String>,
}

/// The mathematical value of a [`RawRecord`].
pub struct RawRecordView {
    pub name: Option<Seq<char>>,
    pub playcount: Option<Seq<char>>,
}

impl View for RawRecord {
    type V = RawRecordView;

    open spec fn view(&self) -> RawRecordView {
        RawRecordView {
            name: match self.name {
                Some(s) => Some(s@),
                None => None,
            },
            playcount: match self.playcount {
                Some(s) => Some(s@),
                None => None,
            },
        }
    }
}

/// The values of a sequence of records.
pub open spec fn record_views(records: Seq<RawRecord>) -> Seq<RawRecordView> {
    records.map_values(|r: RawRecord| r@)
}

/// The string that a value holds under `key`, if it holds one.
pub open spec fn text_under(v: JsonValue, key: Seq<char>) -> Option<Seq<char>> {
    match v.member(key) {
        Some(inner) => inner.text(),
        None => None,
    }
}

/// The record that an element of the artist list is.
pub open spec fn record_of(v: JsonValue) -> RawRecordView {
    RawRecordView { name: text_under(v, "name"@), playcount: text_under(v, "playcount"@) }
}

/// The records that a page document lists under `artists.artist`: none where
/// that member is absent or no array.
pub open spec fn listed_records(doc: JsonValue) -> Result<Seq<RawRecordView>, FetchError> {
    match doc.member("artists"@) {
        None => Err(FetchError::NoArtists),
        Some(artists) => match artists.member("artist"@) {
            None => Ok(Seq::empty()),
            Some(list) => match list.items() {
                None => Ok(Seq::empty()),
                Some(items) => Ok(items.map_values(|v: JsonValue| record_of(v))),
            },
        },
    }
}

/// An outcome of reading records, the records taken by their values.
pub open spec fn outcome_view(r: Result<Vec<RawRecord>, FetchError>) -> Result<
    Seq<RawRecordView>,
    FetchError,
> {
    match r {
        Ok(records) => Ok(record_views(records@)),
        Err(e) => Err(e),
    }
}

fn owned_text_under(v: &Json, key: &str) -> (r: Option<String>)
    ensures
        match r {
            Some(s) => text_under(v@, key@) == Some(s@),
            None => text_under(v@, key@) is None,
        },
{
    match v.get(key) {
        Some(inner) => match inner.as_text() {
            Some(s) => Some(s.to_owned()),
            None => None,
        },
        None => None,
    }
}

/// Reads one element of the artist list.
pub fn raw_record(v: &Json) -> (r: RawRecord)
    ensures
        r@ == record_of(v@),
{
    RawRecord { name: owned_text_under(v, "name"), playcount: owned_text_under(v, "playcount") }
}

/// Reads the artist records from the document of a page response.
pub fn page_records(doc: &Json) -> (r: Result<Vec<RawRecord>, FetchError>)
    ensures
        outcome_view(r) == listed_records(doc@),
{
    let artists = match doc.get("artists") {
        Some(a) => a,
        None => { return Err(FetchError::NoArtists); },
    };
    let mut records: Vec<RawRecord> = Vec::new();
    let items = match artists.get("artist") {
        Some(list) => match list.as_array() {
            Some(items) => items,
            None => {
                assert(record_views(records@) =~= Seq::empty());
                return Ok(records);
            },
        },
        None => {
            assert(record_views(records@) =~= Seq::empty());
            return Ok(records);
        },
    };
    let ghost values = items@.map_values(|j: Json| j@);
    let mut i: usize = 0;
    while i < items.len()
        invariant
            i <= items.len(),
            records@.len() == i,
            values == items@.map_values(|j: Json| j@),
            record_views(records@) == values.take(i as int).map_values(
                |v: JsonValue| record_of(v),
            ),
        decreases items.len() - i,
    {
        let ghost before = record_views(records@);
        records.push(raw_record(&items[i]));
        assert forall|k: int| 0 <= k < i + 1 implies #[trigger] record_views(records@)[k]
            == record_of(values[k]) by {
            if k < i {
                assert(before[k] == record_of(values.take(i as int)[k]));
            }
        }
        i += 1;
    }
    assert(values.take(items@.len() as int) =~= values);
    Ok(records)
}

/// Reads the artist records from the body of a page response.
pub fn page_records_in(body: &str) -> (r: Result<Vec<RawRecord>, FetchError>)
    ensures
        outcome_view(r) == match json_document(body@) {
            None => Err(FetchError::NotJson),
            Some(doc) => listed_records(doc),
        },
{
    match parse(body) {
        Ok(doc) => page_records(&doc),
        Err(_) => Err(FetchError::NotJson),
    }
}

} // verus!
