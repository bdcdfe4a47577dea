//! The official authentication service: its requests, its replies, and what it says when it
//! refuses.

use vstd::prelude::*;

use crate::error::{plain_error, AuthError, ErrorKind, ErrorV};
use crate::http::{
    body_document, body_json, json_post, platform_then_token, post_maybe_token, Reply, ReplyV,
    Request, RequestV,
};
use crate::json::{chars_in, parse, parsed_text, Json, JsonV};
use crate::store::document_outcome;
use crate::text::{decimal, decimal_of};

verus! {

/// A request to a method of the authentication service.
pub open spec fn rpc_request(
    method: Seq<char>,
    body: Seq<char>,
    token: Option<Seq<char>>,
) -> RequestV {
    json_post("https://auth.kimi.com/api/"@ + method, platform_then_token(token), body, 15)
}

/// Makes a request to a method of the authentication service.
pub fn auth_rpc(method: &str, body: String, token: Option<&str>) -> (r: Request)
    ensures
        r@ == rpc_request(method@, body@, chars_in(token)),
{
    let mut url: String = "https://auth.kimi.com/api/".to_owned();
    url.append(method);
    post_maybe_token(url, token, body, 15)
}

/// What a refusal says, in the order of preference: the message for people, the reason, the
/// code with the status, or the status alone.
pub open spec fn refusal_in(doc: JsonV, code: u16) -> Seq<char> {
    let debug = doc.get("details"@).at(0).get("debug"@);
    match debug.get("localizedMessage"@).get("message"@).text() {
        Some(m) => m,
        None => match debug.get("reason"@).text() {
            Some(m) => m,
            None => match doc.get("code"@).text() {
                Some(m) => decimal(code as nat) + " "@ + m,
                None => "认证接口返回 "@ + decimal(code as nat),
            },
        },
    }
}

/// Finds what a refusal says in its document.
pub fn refusal_message(doc: &Json, code: u16) -> (r: String)
    ensures
        r@ == refusal_in(doc@, code),
{
    let none: Json = Json::Null;
    let details: &Json = match doc.member("details") {
        Some(j) => j,
        None => &none,
    };
    let first: &Json = match details.item(0) {
        Some(j) => j,
        None => &none,
    };
    let debug: &Json = match first.member("debug") {
        Some(j) => j,
        None => &none,
    };
    let localized: &Json = match debug.member("localizedMessage") {
        Some(j) => j,
        None => &none,
    };
    if let Some(m) = localized.text_at("message") {
        return m.to_owned();
    }
    if let Some(m) = debug.text_at("reason") {
        return m.to_owned();
    }
    if let Some(m) = doc.text_at("code") {
        let mut s: String = decimal_of(code as u64);
        s.append(" ");
        s.append(m);
        return s;
    }
    let mut s: String = "认证接口返回 ".to_owned();
    s.append(decimal_of(code as u64).as_str());
    s
}

/// What the text of a refusal says; a text that is no document says nothing but its status.
pub open spec fn refusal(text: Seq<char>, code: u16) -> Seq<char> {
    match parsed_text(text) {
        Ok(doc) => refusal_in(doc, code),
        Err(_) => refusal_in(JsonV::Null, code),
    }
}

/// Finds what the text of a refusal says.
pub fn connect_error_message(body: &str, code: u16) -> (r: String)
    ensures
        r@ == refusal(body@, code),
{
    match parse(body) {
        Ok(doc) => refusal_message(&doc, code),
        Err(_) => refusal_message(&Json::Null, code),
    }
}

/// What a reply of the authentication service means.
pub open spec fn rpc_meaning(reply: ReplyV) -> Result<JsonV, ErrorV> {
    match reply {
        ReplyV::Body(body) => match body_document(body) {
            Some(doc) => Ok(doc),
            None => Err(plain_error(ErrorKind::RpcUnreadable)),
        },
        ReplyV::Status(code, text) => Err(
            ErrorV { kind: ErrorKind::RpcRefused, detail: refusal(text, code) },
        ),
        ReplyV::Failed(why) => Err(ErrorV { kind: ErrorKind::RpcFailed, detail: why }),
    }
}

/// Reads a reply of the authentication service.
pub fn rpc_reply(reply: Reply) -> (r: Result<Json, AuthError>)
    ensures
        document_outcome(r) == rpc_meaning(reply@),
{
    match reply {
        Reply::Body(body) => match body_json(&body) {
            Some(doc) => Ok(doc),
            None => Err(AuthError::new(ErrorKind::RpcUnreadable)),
        },
        Reply::Status(code, text) => Err(
            AuthError::with(ErrorKind::RpcRefused, connect_error_message(text.as_str(), code)),
        ),
        Reply::Failed(why) => Err(AuthError::with(ErrorKind::RpcFailed, why)),
    }
}

// ---- what requests carry, and what replies say ----

/// A request to the authentication service posts its body to the method's address, and carries
/// the token where there is one.
pub proof fn law_rpc_requests_go_to_their_method(
    method: Seq<char>,
    body: Seq<char>,
    token: Seq<char>,
)
    ensures
        rpc_request(method, body, None).url == "https://auth.kimi.com/api/"@ + method,
        rpc_request(method, body, Some(token)).url == "https://auth.kimi.com/api/"@ + method,
        rpc_request(method, body, None).method == crate::http::MethodV::Post(body),
        rpc_request(method, body, Some(token)).method == crate::http::MethodV::Post(body),
        rpc_request(method, body, None).headers == seq![
            ("Content-Type"@, "application/json"@),
            ("x-msh-platform"@, "web"@),
        ],
        rpc_request(method, body, Some(token)).headers == seq![
            ("Content-Type"@, "application/json"@),
            ("x-msh-platform"@, "web"@),
            ("Authorization"@, "Bearer "@ + token),
        ],
        rpc_request(method, body, None).timeout_secs == 15,
        rpc_request(method, body, Some(token)).timeout_secs == 15,
{
}

/// A refusal is told by its message for people where it has one, whatever else it holds; else by
/// its reason; else by its status with its code; and by its status alone where it has none of
/// them.
pub proof fn law_refusals_are_told_for_people_first(doc: JsonV, code: u16)
    ensures
        ({
            let debug = doc.get("details"@).at(0).get("debug"@);
            let message = debug.get("localizedMessage"@).get("message"@);
            let reason = debug.get("reason"@);
            let word = doc.get("code"@);
            let told = refusal_in(doc, code);
            &&& message is Str ==> message == JsonV::Str(told)
            &&& !(message is Str) && reason is Str ==> reason == JsonV::Str(told)
            &&& !(message is Str) && !(reason is Str) && word is Str ==> told == decimal(
                code as nat,
            ) + " "@ + word->Str_0
            &&& !(message is Str) && !(reason is Str) && !(word is Str) ==> told == "认证接口返回 "@
                + decimal(code as nat)
        }),
{
}

/// A refusal that is no document is told by its status alone.
pub proof fn law_unreadable_refusals_are_told_by_their_status(text: Seq<char>, code: u16)
    ensures
        parsed_text(text) is Err ==> refusal(text, code) == "认证接口返回 "@ + decimal(code as nat),
        parsed_text(text) is Ok ==> refusal(text, code) == refusal_in(parsed_text(text)->Ok_0, code),
{
}

/// A reply of the authentication service is the document in it, or tells why there is none: what
/// a refusal says, or the transport's words.
pub proof fn law_rpc_replies_are_told_apart(reply: ReplyV)
    ensures
        rpc_meaning(reply) is Ok ==> reply is Body && body_document(reply->Body_0) == Some(
            rpc_meaning(reply)->Ok_0,
        ),
        rpc_meaning(reply) is Err ==> match rpc_meaning(reply)->Err_0.kind {
            ErrorKind::RpcUnreadable => reply is Body && body_document(reply->Body_0) is None,
            ErrorKind::RpcRefused => reply is Status && rpc_meaning(reply)->Err_0.detail == refusal(
                reply->Status_1,
                reply->Status_0,
            ),
            ErrorKind::RpcFailed => reply is Failed && rpc_meaning(reply)->Err_0.detail
                == reply->Failed_0,
            _ => false,
        },
{
}

} // verus!
