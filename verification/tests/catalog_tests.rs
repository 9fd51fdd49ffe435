use artist_sync::catalog::{
    page_numbers, page_records, page_records_in, page_url, probe_url, raw_record, total_pages, total_pages_in,
    FetchError, RawRecord,
};
use artist_sync::json::Json;

fn object(members: Vec<(&str, Json)>) -> Json {
    Json::Object(members.into_iter().map(|(k, v)| (k.to_string(), v)).collect())
}

fn text(s: &str) -> Json {
    Json::Text(s.to_string())
}

#[test]
fn probe_url_is_spelled_out() {
    assert_eq!(
        probe_url("KEY", "someone"),
        "http://ws.audioscrobbler.com/2.0/?method=library.getartists&api_key=KEY&limit=2000&user=someone&format=json"
    );
}

#[test]
fn page_url_is_spelled_out() {
    assert_eq!(
        page_url("KEY", 12, "someone"),
        "http://ws.audioscrobbler.com/2.0/?method=library.getartists&api_key=KEY&limit=2000&page=12&user=someone&format=json"
    );
    assert_eq!(
        page_url("", 0, ""),
        "http://ws.audioscrobbler.com/2.0/?method=library.getartists&api_key=&limit=2000&page=0&user=&format=json"
    );
}

#[test]
fn total_pages_reads_the_envelope() {
    let doc = object(vec![(
        "artists",
        object(vec![("@attr", object(vec![("page", text("1")), ("totalPages", text("17"))]))]),
    )]);
    assert_eq!(total_pages(&doc), Ok(17));
}

#[test]
fn total_pages_reports_what_is_missing() {
    assert_eq!(total_pages(&Json::Null), Err(FetchError::NoArtists));
    assert_eq!(total_pages(&object(vec![])), Err(FetchError::NoArtists));
    assert_eq!(total_pages(&object(vec![("artists", object(vec![]))])), Err(FetchError::NoPageCount));
    assert_eq!(
        total_pages(&object(vec![("artists", object(vec![("@attr", object(vec![]))]))])),
        Err(FetchError::NoPageCount)
    );
    let number = object(vec![(
        "artists",
        object(vec![("@attr", object(vec![("totalPages", Json::Number(Some(3)))]))]),
    )]);
    assert_eq!(total_pages(&number), Err(FetchError::NoPageCount));
}

#[test]
fn total_pages_reports_a_count_that_is_no_number() {
    let doc = object(vec![(
        "artists",
        object(vec![("@attr", object(vec![("totalPages", text("many"))]))]),
    )]);
    assert_eq!(total_pages(&doc), Err(FetchError::BadPageCount));
}

#[test]
fn total_pages_in_reads_a_body() {
    assert_eq!(
        total_pages_in("{\"artists\":{\"artist\":[],\"@attr\":{\"page\":\"1\",\"totalPages\":\"2\"}}}"),
        Ok(2)
    );
    assert_eq!(total_pages_in("not json"), Err(FetchError::NotJson));
    assert_eq!(total_pages_in("{\"error\":6}"), Err(FetchError::NoArtists));
    assert_eq!(total_pages_in("{\"artists\":{\"@attr\":{\"totalPages\":\"-2\"}}}"), Err(FetchError::BadPageCount));
}

#[test]
fn raw_record_keeps_the_two_strings() {
    let rec = object(vec![("name", text("A")), ("playcount", text("10")), ("url", text("u"))]);
    assert_eq!(
        raw_record(&rec),
        RawRecord { name: Some("A".to_string()), playcount: Some("10".to_string()) }
    );
    let odd = object(vec![("name", Json::Number(Some(1)))]);
    assert_eq!(raw_record(&odd), RawRecord { name: None, playcount: None });
    assert_eq!(raw_record(&Json::Null), RawRecord { name: None, playcount: None });
}

#[test]
fn page_records_lists_the_artists() {
    let doc = object(vec![(
        "artists",
        object(vec![(
            "artist",
            Json::Array(vec![
                object(vec![("name", text("A")), ("playcount", text("10"))]),
                object(vec![("name", text("B")), ("playcount", text("x"))]),
                Json::Null,
            ]),
        )]),
    )]);
    assert_eq!(
        page_records(&doc),
        Ok(vec![
            RawRecord { name: Some("A".to_string()), playcount: Some("10".to_string()) },
            RawRecord { name: Some("B".to_string()), playcount: Some("x".to_string()) },
            RawRecord { name: None, playcount: None },
        ])
    );
}

#[test]
fn page_records_is_empty_where_the_list_is_absent() {
    assert_eq!(page_records(&object(vec![("artists", object(vec![]))])), Ok(vec![]));
    assert_eq!(page_records(&object(vec![("artists", Json::Null)])), Ok(vec![]));
    assert_eq!(
        page_records(&object(vec![("artists", object(vec![("artist", text("none"))]))])),
        Ok(vec![])
    );
}

#[test]
fn page_records_needs_the_artists_member() {
    assert_eq!(page_records(&object(vec![])), Err(FetchError::NoArtists));
    assert_eq!(page_records(&Json::Array(vec![])), Err(FetchError::NoArtists));
}

#[test]
fn page_records_in_reads_a_body() {
    assert_eq!(
        page_records_in("{\"artists\":{\"artist\":[{\"name\":\"A\",\"playcount\":\"10\"}]}}"),
        Ok(vec![RawRecord { name: Some("A".to_string()), playcount: Some("10".to_string()) }])
    );
    assert_eq!(page_records_in("{\"artists\":{}}"), Ok(vec![]));
    assert_eq!(page_records_in("{}"), Err(FetchError::NoArtists));
    assert_eq!(page_records_in("oops"), Err(FetchError::NotJson));
}

#[test]
fn page_numbers_run_from_one_to_the_total() {
    assert_eq!(page_numbers(0), Vec::<u64>::new());
    assert_eq!(page_numbers(1), vec![1]);
    assert_eq!(page_numbers(2), vec![1, 2]);
    assert_eq!(page_numbers(5), vec![1, 2, 3, 4, 5]);
}
