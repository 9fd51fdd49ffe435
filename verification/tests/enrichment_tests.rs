use artist_sync::enrichment::{search_url, seed_in_body, seed_of};
use artist_sync::json::{Json, NotJson};

fn object(members: Vec<(&str, Json)>) -> Json {
    Json::Object(members.into_iter().map(|(k, v)| (k.to_string(), v)).collect())
}

fn answer(first: Json) -> Json {
    object(vec![("artists", object(vec![("items", Json::Array(vec![first]))]))])
}

#[test]
fn search_url_keeps_plain_names() {
    assert_eq!(search_url("Radiohead"), "https://api.spotify.com/v1/search?q=Radiohead&type=artist&limit=1");
    assert_eq!(search_url("a-b_c.d~e"), "https://api.spotify.com/v1/search?q=a-b_c.d~e&type=artist&limit=1");
}

#[test]
fn search_url_encodes_the_rest() {
    assert_eq!(search_url("AC/DC"), "https://api.spotify.com/v1/search?q=AC%2FDC&type=artist&limit=1");
    assert_eq!(
        search_url("Sigur Rós & co"),
        "https://api.spotify.com/v1/search?q=Sigur%20R%C3%B3s%20%26%20co&type=artist&limit=1"
    );
    assert_eq!(search_url(""), "https://api.spotify.com/v1/search?q=&type=artist&limit=1");
}

#[test]
fn seed_of_takes_the_third_stretch() {
    let doc = answer(object(vec![("uri", Json::Text("spotify:artist:4Z8W4fKeB5YxbusRsdQVPb".to_string()))]));
    assert_eq!(seed_of(&doc), "4Z8W4fKeB5YxbusRsdQVPb");
    let longer = answer(object(vec![("uri", Json::Text("a:b:c:d".to_string()))]));
    assert_eq!(seed_of(&longer), "c");
}

#[test]
fn seed_of_is_empty_without_a_match() {
    assert_eq!(seed_of(&Json::Null), "");
    assert_eq!(seed_of(&object(vec![])), "");
    assert_eq!(seed_of(&object(vec![("artists", object(vec![]))])), "");
    assert_eq!(seed_of(&object(vec![("artists", object(vec![("items", Json::Array(vec![]))]))])), "");
    assert_eq!(seed_of(&object(vec![("artists", object(vec![("items", Json::Null)]))])), "");
}

#[test]
fn seed_of_is_empty_for_a_malformed_identifier() {
    assert_eq!(seed_of(&answer(object(vec![]))), "");
    assert_eq!(seed_of(&answer(object(vec![("uri", Json::Number(Some(1)))]))), "");
    assert_eq!(seed_of(&answer(object(vec![("uri", Json::Text("spotify:artist".to_string()))]))), "");
    assert_eq!(seed_of(&answer(object(vec![("uri", Json::Text(String::new()))]))), "");
}

#[test]
fn seed_in_body_reads_an_answer() {
    assert_eq!(
        seed_in_body("{\"artists\":{\"items\":[{\"uri\":\"spotify:artist:abc\"},{\"uri\":\"spotify:artist:def\"}]}}"),
        Ok("abc".to_string())
    );
    assert_eq!(seed_in_body("{\"artists\":{\"items\":[]}}"), Ok(String::new()));
    assert_eq!(seed_in_body("{\"error\":{\"status\":401}}"), Ok(String::new()));
    assert_eq!(seed_in_body("unauthorized"), Err(NotJson));
}
