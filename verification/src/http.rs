//! Requests to the official endpoints as plain values, and what comes back.

use vstd::prelude::*;

use crate::json::{parse_bytes, parsed_bytes, Json, JsonV};

verus! {

#[derive(Debug)]
pub enum Method {
    Get,
    /// With the body that is sent.
    Post(String),
}

/// A request, ready to be sent.
#[derive(Debug)]
pub struct Request {
    pub method: Method,
    pub url: String,
    /// Names and values, in the order in which they are set.
    pub headers: Vec<(String, String)>,
    pub timeout_secs: u64,
}

pub enum MethodV {
    Get,
    Post(Seq<char>),
}

pub struct RequestV {
    pub method: MethodV,
    pub url: Seq<char>,
    pub headers: Seq<(Seq<char>, Seq<char>)>,
    pub timeout_secs: u64,
}

/// Pairs of texts as pairs of character sequences.
pub open spec fn pairs_of(pairs: Seq<(String, String)>) -> Seq<(Seq<char>, Seq<char>)> {
    pairs.map_values(|p: (String, String)| (p.0@, p.1@))
}

impl View for Request {
    type V = RequestV;

    open spec fn view(&self) -> RequestV {
        RequestV {
            method: match self.method {
                Method::Get => MethodV::Get,
                Method::Post(body) => MethodV::Post(body@),
            },
            url: self.url@,
            headers: pairs_of(self.headers@),
            timeout_secs: self.timeout_secs,
        }
    }
}

/// What came back for a request.
#[derive(Debug)]
pub enum Reply {
    /// A success, with the body where it could be read.
    Body(Option<Vec<u8>>),
    /// Another status, with the body that came with it.
    Status(u16, String),
    /// No reply; the text says why.
    Failed(String),
}

pub enum ReplyV {
    Body(Option<Seq<u8>>),
    Status(u16, Seq<char>),
    Failed(Seq<char>),
}

impl View for Reply {
    type V = ReplyV;

    open spec fn view(&self) -> ReplyV {
        match self {
            Reply::Body(Some(b)) => ReplyV::Body(Some(b@)),
            Reply::Body(None) => ReplyV::Body(None),
            Reply::Status(code, text) => ReplyV::Status(*code, text@),
            Reply::Failed(why) => ReplyV::Failed(why@),
        }
    }
}

/// The document in the body of a success, where there is one that can be read.
pub open spec fn body_document(body: Option<Seq<u8>>) -> Option<JsonV> {
    match body {
        Some(bytes) => match parsed_bytes(bytes) {
            Ok(v) => Some(v),
            Err(_) => None,
        },
        None => None,
    }
}

/// Reads the document in the body of a success.
pub fn body_json(body: &Option<Vec<u8>>) -> (r: Option<Json>)
    ensures
        (match r {
            Some(j) => Some(j@),
            None => None,
        }) == body_document(
            match body {
                Some(b) => Some(b@),
                None => None,
            },
        ),
{
    match body {
        Some(bytes) => match parse_bytes(bytes.as_slice()) {
            Ok(j) => Some(j),
            Err(_) => None,
        },
        None => None,
    }
}

/// The value of the header that carries a token.
pub open spec fn bearer(token: Seq<char>) -> Seq<char> {
    "Bearer "@ + token
}

fn bearer_of(token: &str) -> (r: String)
    ensures
        r@ == bearer(token@),
{
    let mut s: String = "Bearer ".to_owned();
    s.append(token);
    s
}

fn push_header(headers: &mut Vec<(String, String)>, name: &str, value: &str)
    ensures
        pairs_of(final(headers)@) == pairs_of(old(headers)@).push((name@, value@)),
{
    let ghost before = headers@;
    headers.push((name.to_owned(), value.to_owned()));
    assert(pairs_of(headers@) =~= pairs_of(before).push((name@, value@)));
}

/// The headers of a request that sends JSON.
pub open spec fn json_headers() -> Seq<(Seq<char>, Seq<char>)> {
    seq![("Content-Type"@, "application/json"@)]
}

/// A posted JSON body: which headers follow the content type is up to the endpoint.
pub open spec fn json_post(
    url: Seq<char>,
    more: Seq<(Seq<char>, Seq<char>)>,
    body: Seq<char>,
    timeout_secs: u64,
) -> RequestV {
    RequestV { method: MethodV::Post(body), url, headers: json_headers() + more, timeout_secs }
}

/// The headers that name the platform, with the token behind them where there is one.
pub open spec fn platform_then_token(token: Option<Seq<char>>) -> Seq<(Seq<char>, Seq<char>)> {
    match token {
        Some(t) => seq![("x-msh-platform"@, "web"@), ("Authorization"@, bearer(t))],
        None => seq![("x-msh-platform"@, "web"@)],
    }
}

/// The headers that carry the token, with the platform behind them.
pub open spec fn token_then_platform(token: Seq<char>) -> Seq<(Seq<char>, Seq<char>)> {
    seq![("Authorization"@, bearer(token)), ("x-msh-platform"@, "web"@)]
}

/// The headers that carry the token alone.
pub open spec fn token_alone(token: Seq<char>) -> Seq<(Seq<char>, Seq<char>)> {
    seq![("Authorization"@, bearer(token))]
}

/// A request that gets an address with a token.
pub(crate) fn get_with_token(url: &str, token: &str, timeout_secs: u64) -> (r: Request)
    ensures
        r@ == (RequestV {
            method: MethodV::Get,
            url: url@,
            headers: token_then_platform(token@),
            timeout_secs,
        }),
{
    let mut headers: Vec<(String, String)> = Vec::new();
    assert(pairs_of(headers@) =~= Seq::<(Seq<char>, Seq<char>)>::empty());
    push_header(&mut headers, "Authorization", bearer_of(token).as_str());
    push_header(&mut headers, "x-msh-platform", "web");
    assert(pairs_of(headers@) =~= token_then_platform(token@));
    Request { method: Method::Get, url: url.to_owned(), headers, timeout_secs }
}

/// A request that posts JSON with a token, with the platform behind it or without.
pub(crate) fn post_with_token(
    url: String,
    token: &str,
    with_platform: bool,
    body: String,
    timeout_secs: u64,
) -> (r: Request)
    ensures
        r@ == json_post(
            url@,
            if with_platform {
                token_then_platform(token@)
            } else {
                token_alone(token@)
            },
            body@,
            timeout_secs,
        ),
{
    let mut headers: Vec<(String, String)> = Vec::new();
    assert(pairs_of(headers@) =~= Seq::<(Seq<char>, Seq<char>)>::empty());
    push_header(&mut headers, "Content-Type", "application/json");
    push_header(&mut headers, "Authorization", bearer_of(token).as_str());
    if with_platform {
        push_header(&mut headers, "x-msh-platform", "web");
        assert(pairs_of(headers@) =~= json_headers() + token_then_platform(token@));
    } else {
        assert(pairs_of(headers@) =~= json_headers() + token_alone(token@));
    }
    Request { method: Method::Post(body), url, headers, timeout_secs }
}

/// A request that posts JSON, with a token where there is one.
pub(crate) fn post_maybe_token(
    url: String,
    token: Option<&str>,
    body: String,
    timeout_secs: u64,
) -> (r: Request)
    ensures
        r@ == json_post(
            url@,
            platform_then_token(
                match token {
                    Some(t) => Some(t@),
                    None => None,
                },
            ),
            body@,
            timeout_secs,
        ),
{
    let mut headers: Vec<(String, String)> = Vec::new();
    assert(pairs_of(headers@) =~= Seq::<(Seq<char>, Seq<char>)>::empty());
    push_header(&mut headers, "Content-Type", "application/json");
    push_header(&mut headers, "x-msh-platform", "web");
    if let Some(t) = token {
        push_header(&mut headers, "Authorization", bearer_of(t).as_str());
        assert(pairs_of(headers@) =~= json_headers() + platform_then_token(Some(t@)));
    } else {
        assert(pairs_of(headers@) =~= json_headers() + platform_then_token(None));
    }
    Request { method: Method::Post(body), url, headers, timeout_secs }
}

// ---- what requests carry ----

/// A posted document goes to its address as it is, as JSON, with the headers of the endpoint.
pub proof fn law_posts_carry_their_body(
    url: Seq<char>,
    more: Seq<(Seq<char>, Seq<char>)>,
    body: Seq<char>,
    timeout_secs: u64,
    i: int,
)
    ensures
        json_post(url, more, body, timeout_secs).method == MethodV::Post(body),
        json_post(url, more, body, timeout_secs).url == url,
        json_post(url, more, body, timeout_secs).timeout_secs == timeout_secs,
        json_post(url, more, body, timeout_secs).headers.len() == 1 + more.len(),
        json_post(url, more, body, timeout_secs).headers[0] == (
            "Content-Type"@,
            "application/json"@,
        ),
        0 <= i < more.len() ==> json_post(url, more, body, timeout_secs).headers[1 + i] == more[i],
{
}

/// A token is carried by the header `Authorization`, after the word `Bearer`, and the platform is
/// `web` where it is named; a request without a token carries none.
pub proof fn law_headers_carry_the_token(token: Seq<char>)
    ensures
        token_alone(token) == seq![("Authorization"@, "Bearer "@ + token)],
        token_then_platform(token) == seq![
            ("Authorization"@, "Bearer "@ + token),
            ("x-msh-platform"@, "web"@),
        ],
        platform_then_token(Some(token)) == seq![
            ("x-msh-platform"@, "web"@),
            ("Authorization"@, "Bearer "@ + token),
        ],
        platform_then_token(None) == seq![("x-msh-platform"@, "web"@)],
{
}

/// The body of a success is the document that its bytes hold, where there are bytes and they
/// hold one.
pub proof fn law_bodies_are_read_as_documents(bytes: Seq<u8>)
    ensures
        body_document(None) is None,
        body_document(Some(bytes)) is Some <==> parsed_bytes(bytes) is Ok,
        body_document(Some(bytes)) is Some ==> parsed_bytes(bytes) == Ok::<JsonV, Seq<char>>(
            body_document(Some(bytes))->0,
        ),
{
}

} // verus!
