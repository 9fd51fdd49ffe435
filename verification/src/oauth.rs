//! The OAuth2 exchanges with the provider of the external catalog: the
//! address a user authorizes the client at, the code that comes back on the
//! redirect, the forms of the two grants, and what a token response holds.

use vstd::prelude::*;
use vstd::string::StringExecFns;
use crate::json::{json_document, parse, Json, JsonValue};
use crate::text::{after_first, chars_of, find_after, run_end, string_of, trim, trimmed, until_any};

verus! {

/// What the provider knows this client by.
#[derive(Debug, Clone, PartialEq, Eq)]
pub struct ClientConfig {
    pub client_id: String,
    pub client_secret: String,
    pub redirect_uri: String,
}

/// The mathematical value of a [`ClientConfig`].
pub struct ClientConfigView {
    pub client_id: Seq<char>,
    pub client_secret: Seq<char>,
    pub redirect_uri: Seq<char>,
}

impl View for ClientConfig {
    type V = ClientConfigView;

    open spec fn view(&self) -> ClientConfigView {
        ClientConfigView {
            client_id: self.client_id@,
            client_secret: self.client_secret@,
            redirect_uri: self.redirect_uri@,
        }
    }
}

/// The address at which the user authorizes the client.
pub open spec fn authorize_address(config: ClientConfigView) -> Seq<char> {
    "https://accounts.spotify.com/authorize?client_id="@ + config.client_id
        + "&response_type=code&redirect_uri="@ + config.redirect_uri
        + "&scope=playlist-read-private"@
}

/// Builds the address at which the user authorizes the client.
pub fn authorize_url(config: &ClientConfig) -> (url: String)
    ensures
        url@ == authorize_address(config@),
{
    let mut url = String::from_str("https://accounts.spotify.com/authorize?client_id=");
    url.append(config.client_id.as_str());
    url.append("&response_type=code&redirect_uri=");
    url.append(config.redirect_uri.as_str());
    url.append("&scope=playlist-read-private");
    url
}

/// The local port on which the redirect is awaited.
pub const REDIRECT_PORT: u16 = 7979;

/// How many bytes of the redirected request are read at most.
pub const REQUEST_CAPACITY: usize = 1024;

/// The address both grants are posted to.
pub fn token_endpoint() -> (url: &'static str)
    ensures
        url@ == "https://accounts.spotify.com/api/token"@,
{
    "https://accounts.spotify.com/api/token"
}

/// The characters that end an authorization code in a request.
pub open spec fn code_stops() -> Seq<char> {
    seq![' ', '&', '\n']
}

/// The authorization code that a redirected request carries: what stands
/// behind the first `code=`, up to the next blank, `&` or line feed, or to
/// the end of the request. `None` where the request has no `code=`.
pub open spec fn code_in(request: Seq<char>) -> Option<Seq<char>> {
    match after_first(request, "code="@) {
        Some(rest) => Some(until_any(rest, code_stops())),
        None => None,
    }
}

/// Reads the authorization code from the text of a redirected request.
pub fn extract_code(request: &str) -> (r: Option<String>)
    ensures
        match r {
            Some(code) => code_in(request@) == Some(code@),
            None => code_in(request@) is None,
        },
{
    let text = chars_of(request);
    let marker = chars_of("code=");
    let mut stops: Vec<char> = Vec::new();
    stops.push(' ');
    stops.push('&');
    stops.push('\n');
    assert(stops@ =~= code_stops());
    match find_after(&text, &marker) {
        Some(start) => {
            let end = run_end(&text, start, &stops);
            Some(string_of(&text, start, end))
        },
        None => None,
    }
}

/// The fields of a form, each a name and a value.
pub open spec fn field_views(form: Seq<(String, String)>) -> Seq<(Seq<char>, Seq<char>)> {
    form.map_values(|f: (String, String)| (f.0@, f.1@))
}

/// The form of the authorization-code grant. The code is sent without the
/// white space around it.
pub open spec fn code_grant_fields(code: Seq<char>, config: ClientConfigView) -> Seq<
    (Seq<char>, Seq<char>),
> {
    seq![
        ("grant_type"@, "authorization_code"@),
        ("code"@, trimmed(code)),
        ("redirect_uri"@, config.redirect_uri),
        ("client_id"@, config.client_id),
        ("client_secret"@, config.client_secret),
    ]
}

/// The form of the refresh grant. The token is sent without the white space
/// around it.
pub open spec fn refresh_grant_fields(refresh_token: Seq<char>, config: ClientConfigView) -> Seq<
    (Seq<char>, Seq<char>),
> {
    seq![
        ("grant_type"@, "refresh_token"@),
        ("refresh_token"@, trimmed(refresh_token)),
        ("client_id"@, config.client_id),
        ("client_secret"@, config.client_secret),
    ]
}

fn field(name: &str, value: String) -> (f: (String, String))
    ensures
        f.0@ == name@,
        f.1@ == value@,
{
    (String::from_str(name), value)
}

/// Builds the form that exchanges an authorization code for tokens.
pub fn code_grant_form(code: &str, config: &ClientConfig) -> (form: Vec<(String, String)>)
    ensures
        field_views(form@) == code_grant_fields(code@, config@),
{
    let mut form: Vec<(String, String)> = Vec::new();
    form.push(field("grant_type", String::from_str("authorization_code")));
    form.push(field("code", trim(code)));
    form.push(field("redirect_uri", config.redirect_uri.clone()));
    form.push(field("client_id", config.client_id.clone()));
    form.push(field("client_secret", config.client_secret.clone()));
    form
}

/// Builds the form that exchanges a refresh token for a new access token.
pub fn refresh_grant_form(refresh_token: &str, config: &ClientConfig) -> (form: Vec<
    (String, String),
>)
    ensures
        field_views(form@) == refresh_grant_fields(refresh_token@, config@),
{
    let mut form: Vec<(String, String)> = Vec::new();
    form.push(field("grant_type", String::from_str("refresh_token")));
    form.push(field("refresh_token", trim(refresh_token)));
    form.push(field("client_id", config.client_id.clone()));
    form.push(field("client_secret", config.client_secret.clone()));
    form
}

/// What the provider grants: an access token, how many seconds it lasts,
/// and perhaps a refresh token.
#[derive(Debug, Clone, PartialEq, Eq)]
pub struct TokenGrant {
    pub access_token: String,
    pub refresh_token: Option<String>,
    pub expires_in: u64,
}

/// The mathematical value of a [`TokenGrant`].
pub struct TokenGrantView {
    pub access_token: Seq<char>,
    pub refresh_token: Option<Seq<char>>,
    pub expires_in: u64,
}

impl View for TokenGrant {
    type V = TokenGrantView;

    open spec fn view(&self) -> TokenGrantView {
        TokenGrantView {
            access_token: self.access_token@,
            refresh_token: match self.refresh_token {
                Some(t) => Some(t@),
                None => None,
            },
            expires_in: self.expires_in,
        }
    }
}

/// A possible grant, taken by its value.
pub open spec fn grant_view(g: Option<TokenGrant>) -> Option<TokenGrantView> {
    match g {
        Some(g) => Some(g@),
        None => None,
    }
}

/// The refresh token of a response: `Ok(None)` where `refresh_token` is
/// absent or null, the string where it is one, `Err` for anything else.
pub open spec fn refresh_token_in(doc: JsonValue) -> Result<Option<Seq<char>>, ()> {
    match doc.member("refresh_token"@) {
        None => Ok(None),
        Some(JsonValue::Null) => Ok(None),
        Some(JsonValue::Text(t)) => Ok(Some(t)),
        Some(_) => Err(()),
    }
}

/// The grant that a token response holds: a string under `access_token`, a
/// non-negative integer below 2^64 under `expires_in`, and under
/// `refresh_token` a string, null or nothing. `None` for every other
/// document.
pub open spec fn grant_in(doc: JsonValue) -> Option<TokenGrantView> {
    match doc.member("access_token"@) {
        None => None,
        Some(access) => match access.text() {
            None => None,
            Some(access_token) => match refresh_token_in(doc) {
                Err(_) => None,
                Ok(refresh_token) => match doc.member("expires_in"@) {
                    None => None,
                    Some(seconds) => match seconds.unsigned() {
                        None => None,
                        Some(expires_in) => Some(
                            TokenGrantView { access_token, refresh_token, expires_in },
                        ),
                    },
                },
            },
        },
    }
}

/// Reads the grant from the document of a token response.
pub fn read_grant(doc: &Json) -> (r: Option<TokenGrant>)
    ensures
        grant_view(r) == grant_in(doc@),
{
    let access_token = match doc.get("access_token") {
        Some(access) => match access.as_text() {
            Some(t) => t.to_owned(),
            None => { return None; },
        },
        None => { return None; },
    };
    let refresh_token = match doc.get("refresh_token") {
        None => None,
        Some(Json::Null) => None,
        Some(Json::Text(t)) => Some(t.clone()),
        Some(_) => { return None; },
    };
    let expires_in = match doc.get("expires_in") {
        Some(seconds) => match seconds.as_u64() {
            Some(n) => n,
            None => { return None; },
        },
        None => { return None; },
    };
    Some(TokenGrant { access_token, refresh_token, expires_in })
}

/// Reads the grant from the body of a token response.
pub fn read_grant_in(body: &str) -> (r: Option<TokenGrant>)
    ensures
        grant_view(r) == match json_document(body@) {
            Some(doc) => grant_in(doc),
            None => None,
        },
{
    match parse(body) {
        Ok(doc) => read_grant(&doc),
        Err(_) => None,
    }
}

} // verus!
