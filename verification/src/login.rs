//! Signing in: with a QR code that a phone scans, with a code by SMS, and what either leaves
//! behind as the card's own session.

use vstd::prelude::*;

use crate::codec::text_outcome;
use crate::error::{plain_error, AuthError, ErrorKind, ErrorV};
use crate::http::Request;
use crate::json::{chars_in, compact_text, render, Json, JsonV};
use crate::rpc::{auth_rpc, rpc_request};
use crate::store::{document_outcome, text_json};
use crate::text::same_text;

verus! {

// ---- sessions ----

/// The text of the first of two members that is one: the service writes names in camel case,
/// and may come to write them with underscores.
pub open spec fn either_text(doc: JsonV, camel: Seq<char>, snake: Seq<char>) -> Option<Seq<char>> {
    match doc.get(camel).text() {
        Some(t) => Some(t),
        None => doc.get(snake).text(),
    }
}

/// Reads the text of the first of two members that is one.
pub fn field<'a>(doc: &'a Json, camel: &str, snake: &str) -> (r: Option<&'a str>)
    ensures
        chars_in(r) == either_text(doc@, camel@, snake@),
{
    match doc.text_at(camel) {
        Some(t) => Some(t),
        None => doc.text_at(snake),
    }
}

pub open spec fn or_empty(text: Option<Seq<char>>) -> Seq<char> {
    match text {
        Some(t) => t,
        None => Seq::empty(),
    }
}

fn field_or_empty(doc: &Json, camel: &str, snake: &str) -> (r: String)
    ensures
        r@ == or_empty(either_text(doc@, camel@, snake@)),
{
    match field(doc, camel, snake) {
        Some(t) => t.to_owned(),
        None => String::new(),
    }
}

/// The card's own session.
pub open spec fn session(
    access: Seq<char>,
    refresh: Seq<char>,
    user: Seq<char>,
    source: Seq<char>,
) -> JsonV {
    JsonV::Null.with("access_token"@, JsonV::Str(access)).with(
        "refresh_token"@,
        JsonV::Str(refresh),
    ).with("user_id"@, JsonV::Str(user)).with("source"@, JsonV::Str(source))
}

/// Makes the card's own session; `source` says how the user signed in.
pub fn session_of(access: &str, refresh: &str, user: &str, source: &str) -> (r: Json)
    ensures
        r@ == session(access@, refresh@, user@, source@),
{
    Json::Null.set("access_token", text_json(access)).set("refresh_token", text_json(refresh)).set(
        "user_id",
        text_json(user),
    ).set("source", text_json(source))
}

/// A session holds no fraction and nests one deep, so what is written of it is read back as it
/// was.
pub proof fn law_sessions_are_readable(
    access: Seq<char>,
    refresh: Seq<char>,
    user: Seq<char>,
    source: Seq<char>,
)
    ensures
        session(access, refresh, user, source).plain(crate::json::MAX_DEPTH as nat),
{
    let members = session(access, refresh, user, source)->Obj_0;
    assert forall|k: Seq<char>| #[trigger] members.contains_key(k) implies members[k].plain(
        (crate::json::MAX_DEPTH - 1) as nat,
    ) by {
        assert(members[k] is Str);
    }
}

/// The session that a reply brings: both tokens must be there.
pub open spec fn session_in(doc: JsonV, source: Seq<char>) -> Result<JsonV, ErrorV> {
    let access = or_empty(either_text(doc, "accessToken"@, "access_token"@));
    let refresh = or_empty(either_text(doc, "refreshToken"@, "refresh_token"@));
    let user = or_empty(either_text(doc, "userId"@, "user_id"@));
    if access.len() == 0 || refresh.len() == 0 {
        Err(plain_error(ErrorKind::NoTokens))
    } else {
        Ok(session(access, refresh, user, source))
    }
}

/// Makes the session that a reply brings.
pub fn session_from(doc: &Json, source: &str) -> (r: Result<Json, AuthError>)
    ensures
        document_outcome(r) == session_in(doc@, source@),
{
    let access: String = field_or_empty(doc, "accessToken", "access_token");
    let refresh: String = field_or_empty(doc, "refreshToken", "refresh_token");
    let user: String = field_or_empty(doc, "userId", "user_id");
    if access.as_str().is_empty() || refresh.as_str().is_empty() {
        return Err(AuthError::new(ErrorKind::NoTokens));
    }
    Ok(session_of(access.as_str(), refresh.as_str(), user.as_str(), source))
}

// ---- QR codes ----

/// The request for a login ticket.
pub fn login_qr_create() -> (r: Request)
    ensures
        r@ == rpc_request("account.gateway.v1.AuthService/CreateLoginQRCode"@, "{}"@, None),
{
    auth_rpc("account.gateway.v1.AuthService/CreateLoginQRCode", "{}".to_owned(), None)
}

/// A login ticket, and the address that its QR code leads to.
#[derive(Debug)]
pub struct Ticket {
    pub code: String,
    pub url: String,
}

pub open spec fn ticket_outcome(r: Result<Ticket, AuthError>) -> Result<
    (Seq<char>, Seq<char>),
    ErrorV,
> {
    match r {
        Ok(t) => Ok((t.code@, t.url@)),
        Err(e) => Err(e@),
    }
}

/// The address that a ticket's QR code leads to.
pub open spec fn ticket_url(code: Seq<char>, device: Seq<char>) -> Seq<char> {
    "https://www.kimi.com/wechat/mp/auth?id="@ + code + "&device_id="@ + device
}

/// The ticket that a reply brings.
pub open spec fn ticket_in(doc: JsonV, device: Seq<char>) -> Result<(Seq<char>, Seq<char>), ErrorV> {
    match doc.get("code"@).text() {
        Some(code) => Ok((code, ticket_url(code, device))),
        None => Err(plain_error(ErrorKind::NoTicket)),
    }
}

/// Takes the code of the ticket out of a reply.
pub fn ticket_code(doc: &Json) -> (r: Result<String, AuthError>)
    ensures
        text_outcome(r) == match doc@.get("code"@).text() {
            Some(code) => Ok(code),
            None => Err(plain_error(ErrorKind::NoTicket)),
        },
{
    match doc.text_at("code") {
        Some(code) => Ok(code.to_owned()),
        None => Err(AuthError::new(ErrorKind::NoTicket)),
    }
}

/// Takes the ticket out of a reply; the address carries the device's id.
pub fn ticket_from(doc: &Json, device: &str) -> (r: Result<Ticket, AuthError>)
    ensures
        ticket_outcome(r) == ticket_in(doc@, device@),
{
    match doc.text_at("code") {
        Some(code) => {
            let mut url: String = "https://www.kimi.com/wechat/mp/auth?id=".to_owned();
            url.append(code);
            url.append("&device_id=");
            url.append(device);
            Ok(Ticket { code: code.to_owned(), url })
        },
        None => Err(AuthError::new(ErrorKind::NoTicket)),
    }
}

/// The request for the state of a ticket.
pub fn poll_login_qr_status(code: &str) -> (r: Request)
    ensures
        r@ == rpc_request(
            "account.gateway.v1.AuthService/GetLoginQRCodeStatus"@,
            compact_text(JsonV::Null.with("code"@, JsonV::Str(code@))),
            None,
        ),
{
    let body: String = render(Json::Null.set("code", text_json(code)));
    auth_rpc("account.gateway.v1.AuthService/GetLoginQRCodeStatus", body, None)
}

/// What the state of a ticket leads to.
#[derive(Debug)]
pub struct Polled {
    pub status: String,
    /// The session to be written, once the login was confirmed.
    pub session: Option<Json>,
}

pub struct PolledV {
    pub status: Seq<char>,
    pub session: Option<JsonV>,
}

impl View for Polled {
    type V = PolledV;

    open spec fn view(&self) -> PolledV {
        PolledV {
            status: self.status@,
            session: match self.session {
                Some(j) => Some(j@),
                None => None,
            },
        }
    }
}

pub open spec fn polled_outcome(r: Result<Polled, AuthError>) -> Result<PolledV, ErrorV> {
    match r {
        Ok(p) => Ok(p@),
        Err(e) => Err(e@),
    }
}

/// What the state of a ticket leads to: a session where the login was confirmed, else nothing
/// yet. A reply without a state counts as pending.
pub open spec fn polled_in(doc: JsonV) -> Result<PolledV, ErrorV> {
    let status = match doc.get("status"@).text() {
        Some(s) => s,
        None => "STATUS_PENDING"@,
    };
    if status == "STATUS_SUCCESS"@ {
        match session_in(doc, "qr"@) {
            Ok(session) => Ok(PolledV { status, session: Some(session) }),
            Err(e) => Err(e),
        }
    } else {
        Ok(PolledV { status, session: None })
    }
}

/// Reads the state of a ticket.
pub fn login_qr_poll(doc: &Json) -> (r: Result<Polled, AuthError>)
    ensures
        polled_outcome(r) == polled_in(doc@),
{
    let status: String = match doc.text_at("status") {
        Some(s) => s.to_owned(),
        None => "STATUS_PENDING".to_owned(),
    };
    if same_text(status.as_str(), "STATUS_SUCCESS") {
        match session_from(doc, "qr") {
            Ok(session) => Ok(Polled { status, session: Some(session) }),
            Err(e) => Err(e),
        }
    } else {
        Ok(Polled { status, session: None })
    }
}

/// What the card is told of a ticket's state.
pub fn status_document(status: &str) -> (r: Json)
    ensures
        r@ == JsonV::Null.with("status"@, JsonV::Str(status@)).with("ok"@, JsonV::Bool(true)),
{
    Json::Null.set("status", text_json(status)).set("ok", Json::Bool(true))
}

/// The request that confirms a ticket as the phone does after a scan.
pub fn confirm_login_qr(code: &str, device: &str, token: &str) -> (r: Request)
    ensures
        r@ == rpc_request(
            "account.gateway.v1.AuthService/ConfirmLoginQRCode"@,
            compact_text(
                JsonV::Null.with("code"@, JsonV::Str(code@)).with(
                    "device_id"@,
                    JsonV::Str(device@),
                ),
            ),
            Some(token@),
        ),
{
    let body: String = render(
        Json::Null.set("code", text_json(code)).set("device_id", text_json(device)),
    );
    auth_rpc("account.gateway.v1.AuthService/ConfirmLoginQRCode", body, Some(token))
}

/// A text, or `Null` where there is none.
pub open spec fn text_or_null(text: Option<Seq<char>>) -> JsonV {
    match text {
        Some(t) => JsonV::Str(t),
        None => JsonV::Null,
    }
}

pub(crate) fn json_or_null(text: Option<&str>) -> (r: Json)
    ensures
        r@ == text_or_null(chars_in(text)),
{
    match text {
        Some(t) => text_json(t),
        None => Json::Null,
    }
}

/// The report of the self-test of the QR login.
pub open spec fn qr_report(doc: JsonV) -> JsonV {
    let has_access = or_empty(either_text(doc, "accessToken"@, "access_token"@)).len() > 0;
    let has_refresh = or_empty(either_text(doc, "refreshToken"@, "refresh_token"@)).len() > 0;
    JsonV::Null.with(
        "ok"@,
        JsonV::Bool(
            doc.get("status"@).text() == Some("STATUS_SUCCESS"@) && has_access && has_refresh,
        ),
    ).with("status"@, doc.get("status"@)).with("hasAccessToken"@, JsonV::Bool(has_access)).with(
        "hasRefreshToken"@,
        JsonV::Bool(has_refresh),
    ).with("userId"@, text_or_null(either_text(doc, "userId"@, "user_id"@)))
}

/// Reports on the self-test of the QR login, from the state of the ticket that was confirmed.
pub fn qr_report_of(doc: Json) -> (r: Json)
    ensures
        r@ == qr_report(doc@),
{
    let has_access: bool = !field_or_empty(
        &doc,
        "accessToken",
        "access_token",
    ).as_str().is_empty();
    let has_refresh: bool = !field_or_empty(
        &doc,
        "refreshToken",
        "refresh_token",
    ).as_str().is_empty();
    let confirmed: bool = match doc.text_at("status") {
        Some(s) => same_text(s, "STATUS_SUCCESS"),
        None => false,
    };
    let user: Json = json_or_null(field(&doc, "userId", "user_id"));
    let status: Json = doc.into_member("status");
    Json::Null.set("ok", Json::Bool(confirmed && has_access && has_refresh)).set(
        "status",
        status,
    ).set("hasAccessToken", Json::Bool(has_access)).set(
        "hasRefreshToken",
        Json::Bool(has_refresh),
    ).set("userId", user)
}

// ---- SMS ----

/// A telephone number as the service takes it.
pub open spec fn phone(country_code: Seq<char>, number: Seq<char>) -> JsonV {
    JsonV::Null.with("country_code"@, JsonV::Str(country_code)).with(
        "number"@,
        JsonV::Str(number),
    )
}

fn phone_of(country_code: &str, number: &str) -> (r: Json)
    ensures
        r@ == phone(country_code@, number@),
{
    Json::Null.set("country_code", text_json(country_code)).set("number", text_json(number))
}

/// The request to send a code to a telephone.
pub fn login_sms_send(country_code: &str, number: &str) -> (r: Request)
    ensures
        r@ == rpc_request(
            "account.gateway.v1.SMSService/SendVerifyCode"@,
            compact_text(
                JsonV::Null.with("scene"@, JsonV::Str("SCENE_LOGIN"@)).with(
                    "phone"@,
                    phone(country_code@, number@),
                ),
            ),
            None,
        ),
{
    let body: String = render(
        Json::Null.set("scene", text_json("SCENE_LOGIN")).set(
            "phone",
            phone_of(country_code, number),
        ),
    );
    auth_rpc("account.gateway.v1.SMSService/SendVerifyCode", body, None)
}

/// The request to exchange a telephone number and the code sent to it for a session.
pub fn login_sms_verify(country_code: &str, number: &str, verify_code: &str) -> (r: Request)
    ensures
        r@ == rpc_request(
            "account.gateway.v1.AuthService/LoginWithSMS"@,
            compact_text(
                JsonV::Null.with("phone"@, phone(country_code@, number@)).with(
                    "verify_code"@,
                    JsonV::Str(verify_code@),
                ),
            ),
            None,
        ),
{
    let body: String = render(
        Json::Null.set("phone", phone_of(country_code, number)).set(
            "verify_code",
            text_json(verify_code),
        ),
    );
    auth_rpc("account.gateway.v1.AuthService/LoginWithSMS", body, None)
}

/// Makes the session that the reply to a code by SMS brings.
pub fn login_sms_session(doc: &Json) -> (r: Result<Json, AuthError>)
    ensures
        document_outcome(r) == session_in(doc@, "sms"@),
{
    session_from(doc, "sms")
}

// ---- what a login leaves behind, member by member ----

/// Whether a text is the one under the first of two names, or under the second where the first
/// holds no text; and empty just where neither holds one.
pub open spec fn told_by_either(text: Seq<char>, doc: JsonV, first: Seq<char>, second: Seq<char>) -> bool {
    &&& doc.get(first) is Str ==> doc.get(first) == JsonV::Str(text)
    &&& !(doc.get(first) is Str) && doc.get(second) is Str ==> doc.get(second) == JsonV::Str(text)
    &&& !(doc.get(first) is Str) && !(doc.get(second) is Str) ==> text.len() == 0
}

/// A session holds the tokens, the user and the way of signing in that it was made of, each under
/// its own name, and nothing else.
pub proof fn law_a_session_holds_what_it_was_made_of(
    access: Seq<char>,
    refresh: Seq<char>,
    user: Seq<char>,
    source: Seq<char>,
    name: Seq<char>,
)
    ensures
        session(access, refresh, user, source).get("access_token"@) == JsonV::Str(access),
        session(access, refresh, user, source).get("refresh_token"@) == JsonV::Str(refresh),
        session(access, refresh, user, source).get("user_id"@) == JsonV::Str(user),
        session(access, refresh, user, source).get("source"@) == JsonV::Str(source),
        name != "access_token"@ && name != "refresh_token"@ && name != "user_id"@ && name
            != "source"@ ==> session(access, refresh, user, source).member(name) is None,
{
    reveal_strlit("access_token");
    reveal_strlit("refresh_token");
    reveal_strlit("user_id");
    reveal_strlit("source");
    assert("access_token"@.len() == 12 && "refresh_token"@.len() == 13 && "user_id"@.len() == 7);
    assert("source"@.len() == 6);
}

/// A reply makes a session just where it brings both tokens, in either spelling; the session then
/// holds those tokens, the user of the reply, and the way of signing in.
pub proof fn law_a_reply_makes_its_session(doc: JsonV, source: Seq<char>)
    ensures
        match session_in(doc, source) {
            Ok(s) => {
                &&& s.get("access_token"@) is Str && s.get("access_token"@)->Str_0.len() > 0
                &&& s.get("refresh_token"@) is Str && s.get("refresh_token"@)->Str_0.len() > 0
                &&& s.get("user_id"@) is Str
                &&& told_by_either(
                    s.get("access_token"@)->Str_0,
                    doc,
                    "accessToken"@,
                    "access_token"@,
                )
                &&& told_by_either(
                    s.get("refresh_token"@)->Str_0,
                    doc,
                    "refreshToken"@,
                    "refresh_token"@,
                )
                &&& told_by_either(s.get("user_id"@)->Str_0, doc, "userId"@, "user_id"@)
                &&& s.get("source"@) == JsonV::Str(source)
            },
            Err(e) => {
                &&& e == plain_error(ErrorKind::NoTokens)
                &&& told_by_either(Seq::empty(), doc, "accessToken"@, "access_token"@)
                    || told_by_either(Seq::empty(), doc, "refreshToken"@, "refresh_token"@)
            },
        },
{
    let access = or_empty(either_text(doc, "accessToken"@, "access_token"@));
    let refresh = or_empty(either_text(doc, "refreshToken"@, "refresh_token"@));
    let user = or_empty(either_text(doc, "userId"@, "user_id"@));
    law_a_session_holds_what_it_was_made_of(access, refresh, user, source, Seq::empty());
    if access.len() == 0 {
        assert(access =~= Seq::empty());
    }
    if refresh.len() == 0 {
        assert(refresh =~= Seq::empty());
    }
}

/// A ticket that was confirmed leaves a session behind, with the tokens and the user of the reply
/// and the source `qr`; one without its tokens is an error; and every other ticket leaves none.
/// The state that is told is the one of the reply, pending where it has none.
pub proof fn law_a_confirmed_ticket_leaves_its_session(doc: JsonV)
    ensures
        polled_in(doc) is Ok ==> {
            let p = polled_in(doc)->Ok_0;
            &&& doc.get("status"@) is Str ==> doc.get("status"@) == JsonV::Str(p.status)
            &&& !(doc.get("status"@) is Str) ==> p.status == "STATUS_PENDING"@
            &&& p.session is Some <==> doc.get("status"@) == JsonV::Str("STATUS_SUCCESS"@)
            &&& p.session is Some ==> {
                let s = p.session->0;
                &&& s.get("access_token"@) is Str && s.get("access_token"@)->Str_0.len() > 0
                &&& s.get("refresh_token"@) is Str && s.get("refresh_token"@)->Str_0.len() > 0
                &&& s.get("user_id"@) is Str
                &&& told_by_either(
                    s.get("access_token"@)->Str_0,
                    doc,
                    "accessToken"@,
                    "access_token"@,
                )
                &&& told_by_either(
                    s.get("refresh_token"@)->Str_0,
                    doc,
                    "refreshToken"@,
                    "refresh_token"@,
                )
                &&& told_by_either(s.get("user_id"@)->Str_0, doc, "userId"@, "user_id"@)
                &&& s.get("source"@) == JsonV::Str("qr"@)
            }
        },
        polled_in(doc) is Err ==> {
            &&& polled_in(doc)->Err_0 == plain_error(ErrorKind::NoTokens)
            &&& doc.get("status"@) == JsonV::Str("STATUS_SUCCESS"@)
            &&& told_by_either(Seq::empty(), doc, "accessToken"@, "access_token"@)
                || told_by_either(Seq::empty(), doc, "refreshToken"@, "refresh_token"@)
        },
{
    law_a_reply_makes_its_session(doc, "qr"@);
    reveal_strlit("STATUS_SUCCESS");
    reveal_strlit("STATUS_PENDING");
    assert("STATUS_SUCCESS"@[7] == 'S' && "STATUS_PENDING"@[7] == 'P');
}

/// A ticket is the code of the reply, and its address leads to the official page with that code
/// and the device's id at its end.
pub proof fn law_a_ticket_carries_code_and_device(doc: JsonV, device: Seq<char>)
    ensures
        ticket_in(doc, device) is Ok <==> doc.get("code"@) is Str,
        ticket_in(doc, device) is Ok ==> {
            let (code, url) = ticket_in(doc, device)->Ok_0;
            &&& doc.get("code"@) == JsonV::Str(code)
            &&& url == "https://www.kimi.com/wechat/mp/auth?id="@ + code + ("&device_id="@ + device)
        },
        ticket_in(doc, device) is Err ==> ticket_in(doc, device)->Err_0 == plain_error(
            ErrorKind::NoTicket,
        ),
{
    if let Ok((code, url)) = ticket_in(doc, device) {
        assert(url =~= "https://www.kimi.com/wechat/mp/auth?id="@ + code + ("&device_id="@
            + device));
    }
}

/// The report of the self-test tells the state of the ticket as it is, whether each token came,
/// and the user of the reply.
pub proof fn law_the_qr_report_tells_what_came(doc: JsonV)
    ensures
        ({
            let r = qr_report(doc);
            let no_access = told_by_either(Seq::empty(), doc, "accessToken"@, "access_token"@);
            let no_refresh = told_by_either(Seq::empty(), doc, "refreshToken"@, "refresh_token"@);
            &&& r.get("status"@) == doc.get("status"@)
            &&& r.get("hasAccessToken"@) == JsonV::Bool(!no_access)
            &&& r.get("hasRefreshToken"@) == JsonV::Bool(!no_refresh)
            &&& r.get("ok"@) == JsonV::Bool(
                doc.get("status"@) == JsonV::Str("STATUS_SUCCESS"@) && !no_access && !no_refresh,
            )
            &&& doc.get("userId"@) is Str ==> r.get("userId"@) == doc.get("userId"@)
            &&& !(doc.get("userId"@) is Str) && doc.get("user_id"@) is Str ==> r.get("userId"@)
                == doc.get("user_id"@)
            &&& !(doc.get("userId"@) is Str) && !(doc.get("user_id"@) is Str) ==> r.get(
                "userId"@,
            ) is Null
        }),
{
    reveal_strlit("ok");
    reveal_strlit("status");
    reveal_strlit("hasAccessToken");
    reveal_strlit("hasRefreshToken");
    reveal_strlit("userId");
    assert("ok"@.len() == 2 && "status"@.len() == 6 && "hasAccessToken"@.len() == 14);
    assert("hasRefreshToken"@.len() == 15 && "userId"@.len() == 6);
    assert("status"@[0] == 's');
    assert("userId"@[0] == 'u');
    let access = or_empty(either_text(doc, "accessToken"@, "access_token"@));
    let refresh = or_empty(either_text(doc, "refreshToken"@, "refresh_token"@));
    if access.len() == 0 {
        assert(access =~= Seq::empty());
    }
    if refresh.len() == 0 {
        assert(refresh =~= Seq::empty());
    }
}

/// A telephone number as the service takes it holds the country's code and the number, each under
/// its own name.
pub proof fn law_a_phone_holds_country_and_number(country_code: Seq<char>, number: Seq<char>)
    ensures
        phone(country_code, number).get("country_code"@) == JsonV::Str(country_code),
        phone(country_code, number).get("number"@) == JsonV::Str(number),
{
    reveal_strlit("country_code");
    reveal_strlit("number");
    assert("country_code"@.len() == 12 && "number"@.len() == 6);
}

/// The first of two members that is a text is read, and none where neither is.
pub proof fn law_the_first_text_is_read(doc: JsonV, camel: Seq<char>, snake: Seq<char>)
    ensures
        doc.get(camel) is Str ==> either_text(doc, camel, snake) == Some(doc.get(camel)->Str_0),
        !(doc.get(camel) is Str) && doc.get(snake) is Str ==> either_text(doc, camel, snake)
            == Some(doc.get(snake)->Str_0),
        !(doc.get(camel) is Str) && !(doc.get(snake) is Str) ==> either_text(
            doc,
            camel,
            snake,
        ) is None,
{
}

// ---- what the calls give ----

/// The request to send a code names the telephone that the code is to go to.
pub proof fn law_codes_go_to_the_telephone(country_code: &str, number: &str, r: Request)
    requires
        call_ensures(login_sms_send, (country_code, number), r),
    ensures
        r@.url == "https://auth.kimi.com/api/"@ + "account.gateway.v1.SMSService/SendVerifyCode"@,
        r@.headers == seq![("Content-Type"@, "application/json"@), ("x-msh-platform"@, "web"@)],
        exists|doc: JsonV| #[trigger]
            names_phone(doc, country_code@, number@) && doc.get("scene"@) == JsonV::Str(
                "SCENE_LOGIN"@,
            ) && r@.method == crate::http::MethodV::Post(compact_text(doc)),
{
    reveal_strlit("country_code");
    reveal_strlit("number");
    reveal_strlit("scene");
    reveal_strlit("phone");
    assert("country_code"@.len() == 12 && "number"@.len() == 6 && "scene"@.len() == 5);
    assert("phone"@.len() == 5);
    assert("scene"@[0] == 's');
    assert("phone"@[0] == 'p');
    let doc = JsonV::Null.with("scene"@, JsonV::Str("SCENE_LOGIN"@)).with(
        "phone"@,
        phone(country_code@, number@),
    );
    assert(names_phone(doc, country_code@, number@));
    assert(doc.get("scene"@) == JsonV::Str("SCENE_LOGIN"@));
}

/// Whether a document names that telephone.
pub open spec fn names_phone(doc: JsonV, country_code: Seq<char>, number: Seq<char>) -> bool {
    &&& doc.get("phone"@).get("country_code"@) == JsonV::Str(country_code)
    &&& doc.get("phone"@).get("number"@) == JsonV::Str(number)
}

/// The request to exchange a code names the telephone that it went to, and the code as it was
/// typed.
pub proof fn law_codes_are_exchanged_with_their_telephone(
    country_code: &str,
    number: &str,
    verify_code: &str,
    r: Request,
)
    requires
        call_ensures(login_sms_verify, (country_code, number, verify_code), r),
    ensures
        r@.url == "https://auth.kimi.com/api/"@ + "account.gateway.v1.AuthService/LoginWithSMS"@,
        r@.headers == seq![("Content-Type"@, "application/json"@), ("x-msh-platform"@, "web"@)],
        exists|doc: JsonV| #[trigger]
            names_phone(doc, country_code@, number@) && doc.get("verify_code"@) == JsonV::Str(
                verify_code@,
            ) && r@.method == crate::http::MethodV::Post(compact_text(doc)),
{
    reveal_strlit("country_code");
    reveal_strlit("number");
    reveal_strlit("verify_code");
    reveal_strlit("phone");
    assert("country_code"@.len() == 12 && "number"@.len() == 6 && "verify_code"@.len() == 11);
    assert("phone"@.len() == 5);
    let doc = JsonV::Null.with("phone"@, phone(country_code@, number@)).with(
        "verify_code"@,
        JsonV::Str(verify_code@),
    );
    assert(names_phone(doc, country_code@, number@));
    assert(doc.get("verify_code"@) == JsonV::Str(verify_code@));
}

/// The same reply leaves the same session behind, whether it came for a ticket or for a code by
/// SMS, but for the way of signing in.
pub proof fn law_ways_of_signing_in_differ_in_the_source(
    doc: &Json,
    sms: Result<Json, AuthError>,
    name: Seq<char>,
)
    requires
        call_ensures(login_sms_session, (doc,), sms),
        doc@.get("status"@) == JsonV::Str("STATUS_SUCCESS"@),
    ensures
        sms is Ok <==> polled_in(doc@) is Ok,
        sms is Ok ==> sms->Ok_0@.get("source"@) == JsonV::Str("sms"@)
            && polled_in(doc@)->Ok_0.session is Some && (name != "source"@ ==> sms->Ok_0@.member(
            name,
        ) == polled_in(doc@)->Ok_0.session->0.member(name)),
{
    law_a_reply_makes_its_session(doc@, "sms"@);
    law_a_confirmed_ticket_leaves_its_session(doc@);
}

/// What the card is told of a ticket's state is that state, and that all is well.
pub proof fn law_the_card_is_told_the_state_of_a_ticket(status: &str, r: Json)
    requires
        call_ensures(status_document, (status,), r),
    ensures
        r@.get("status"@) == JsonV::Str(status@),
        r@.get("ok"@) == JsonV::Bool(true),
{
    reveal_strlit("status");
    reveal_strlit("ok");
    assert("status"@.len() == 6 && "ok"@.len() == 2);
}

} // verus!
