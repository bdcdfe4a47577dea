//! The quota: asking for it, asking once more with a renewed token, and what the card shows.

use vstd::prelude::*;

use crate::error::{clean_error, cleaned, error_text, plain_error, AuthError, ErrorKind, ErrorV};
use crate::http::{
    body_document, body_json, json_post, post_with_token, token_then_platform, Reply, ReplyV,
    Request, RequestV,
};
use crate::json::{chars_in, seen, Json, JsonV};
use crate::store::document_outcome;
use crate::text::{contains_text, occurs, trim, without_white_end, without_white_start};

verus! {

// ---- the request and its reply ----

/// The request for the quota with that token.
pub open spec fn quota_request(token: Seq<char>) -> RequestV {
    json_post(
        "https://www.kimi.com/apiv2/kimi.gateway.membership.v2.MembershipService/GetSubscriptionStats"@,
        token_then_platform(token),
        "{}"@,
        15,
    )
}

/// Makes the request for the quota.
pub fn fetch_quota(access_token: &str) -> (r: Request)
    ensures
        r@ == quota_request(access_token@),
{
    post_with_token(
        "https://www.kimi.com/apiv2/kimi.gateway.membership.v2.MembershipService/GetSubscriptionStats".to_owned(),
        access_token,
        true,
        "{}".to_owned(),
        15,
    )
}

/// What a reply to the request for the quota means: the status 401, or a refusal that says
/// `unauthenticated`, means that the token has expired.
pub open spec fn quota_meaning(reply: ReplyV) -> Result<JsonV, ErrorV> {
    match reply {
        ReplyV::Body(body) => match body_document(body) {
            Some(doc) => Ok(doc),
            None => Err(plain_error(ErrorKind::QuotaUnreadable)),
        },
        ReplyV::Status(code, text) => if code == 401 || occurs("unauthenticated"@, text) {
            Err(plain_error(ErrorKind::QuotaExpired))
        } else {
            Err(plain_error(ErrorKind::QuotaStatus(code)))
        },
        ReplyV::Failed(why) => Err(ErrorV { kind: ErrorKind::QuotaFailed, detail: why }),
    }
}

/// Reads a reply to the request for the quota.
pub fn quota_reply(reply: Reply) -> (r: Result<Json, AuthError>)
    ensures
        document_outcome(r) == quota_meaning(reply@),
{
    match reply {
        Reply::Body(body) => match body_json(&body) {
            Some(doc) => Ok(doc),
            None => Err(AuthError::new(ErrorKind::QuotaUnreadable)),
        },
        Reply::Status(code, text) => if code == 401 || contains_text(
            text.as_str(),
            "unauthenticated",
        ) {
            Err(AuthError::new(ErrorKind::QuotaExpired))
        } else {
            Err(AuthError::new(ErrorKind::QuotaStatus(code)))
        },
        Reply::Failed(why) => Err(AuthError::with(ErrorKind::QuotaFailed, why)),
    }
}

/// Of the errors that a request for the quota can end in, the one that says the token has
/// expired is the one whose words start with `AUTH_EXPIRED`.
pub proof fn law_expired_by_its_words(reply: ReplyV)
    requires
        quota_meaning(reply) is Err,
    ensures
        ({
            let e = quota_meaning(reply)->Err_0;
            "AUTH_EXPIRED"@.is_prefix_of(error_text(e)) <==> e.kind == ErrorKind::QuotaExpired
        }),
{
    let e = quota_meaning(reply)->Err_0;
    reveal_strlit("AUTH_EXPIRED");
    reveal_strlit("AUTH_EXPIRED: 登录已过期");
    reveal_strlit("额度接口返回 ");
    reveal_strlit("额度接口响应解析失败");
    reveal_strlit("额度接口请求失败: ");
    let t = error_text(e);
    if e.kind == ErrorKind::QuotaExpired {
        assert("AUTH_EXPIRED"@ =~= t.subrange(0, 12));
    } else {
        assert(t[0] == '额');
        if "AUTH_EXPIRED"@.is_prefix_of(t) {
            assert("AUTH_EXPIRED"@[0] == t.subrange(0, 12)[0]);
        }
    }
}

// ---- asking once more ----

/// Where the way to the quota stands.
#[derive(Debug)]
pub enum QuotaState {
    /// A token is being got, for the second time where `again`.
    Token { again: bool },
    /// The quota is being asked for, for the second time where `again`.
    Asked { again: bool },
    End,
}

/// What is to be done next.
#[derive(Debug)]
pub enum QuotaAction {
    /// Get a token, with a forced renewal or without.
    GetToken(bool),
    Ask(Request),
    /// Nothing: this is the result.
    Finish(Result<Json, AuthError>),
}

/// What came of it.
#[derive(Debug)]
pub enum QuotaEvent {
    Token(Result<String, AuthError>),
    Answer(Result<Json, AuthError>),
}

pub enum QuotaActionV {
    GetToken(bool),
    Ask(RequestV),
    Finish(Result<JsonV, ErrorV>),
}

pub enum QuotaEventV {
    Token(Result<Seq<char>, ErrorV>),
    Answer(Result<JsonV, ErrorV>),
}

impl View for QuotaAction {
    type V = QuotaActionV;

    open spec fn view(&self) -> QuotaActionV {
        match self {
            QuotaAction::GetToken(force) => QuotaActionV::GetToken(*force),
            QuotaAction::Ask(request) => QuotaActionV::Ask(request@),
            QuotaAction::Finish(r) => QuotaActionV::Finish(document_outcome(*r)),
        }
    }
}

impl View for QuotaEvent {
    type V = QuotaEventV;

    open spec fn view(&self) -> QuotaEventV {
        match self {
            QuotaEvent::Token(r) => QuotaEventV::Token(crate::codec::text_outcome(*r)),
            QuotaEvent::Answer(r) => QuotaEventV::Answer(document_outcome(*r)),
        }
    }
}

impl QuotaState {
    /// Whether that is what can come of the action that the state waits for.
    pub open spec fn awaits(self, event: QuotaEventV) -> bool {
        match self {
            QuotaState::Token { .. } => event is Token,
            QuotaState::Asked { .. } => event is Answer,
            QuotaState::End => false,
        }
    }

    /// How many steps are left at most.
    pub open spec fn steps_left(self) -> nat {
        match self {
            QuotaState::Token { again: false } => 4,
            QuotaState::Asked { again: false } => 3,
            QuotaState::Token { again: true } => 2,
            QuotaState::Asked { again: true } => 1,
            QuotaState::End => 0,
        }
    }
}

/// What an event leads to: a refusal of the first token leads to a second one, whose renewal
/// is forced; every other outcome is the result.
pub open spec fn quota_step(state: QuotaState, event: QuotaEventV) -> (QuotaState, QuotaActionV) {
    match (state, event) {
        (QuotaState::Token { again }, QuotaEventV::Token(Ok(token))) => (
            QuotaState::Asked { again },
            QuotaActionV::Ask(quota_request(token)),
        ),
        (QuotaState::Token { .. }, QuotaEventV::Token(Err(e))) => (
            QuotaState::End,
            QuotaActionV::Finish(Err(e)),
        ),
        (QuotaState::Asked { again: false }, QuotaEventV::Answer(Err(e))) => if e.kind
            == ErrorKind::QuotaExpired {
            (QuotaState::Token { again: true }, QuotaActionV::GetToken(true))
        } else {
            (QuotaState::End, QuotaActionV::Finish(Err(e)))
        },
        (QuotaState::Asked { .. }, QuotaEventV::Answer(r)) => (
            QuotaState::End,
            QuotaActionV::Finish(r),
        ),
        _ => (QuotaState::End, QuotaActionV::Finish(Err(plain_error(ErrorKind::System)))),
    }
}

/// Starts the way to the quota.
pub fn fetch_quota_smart() -> (r: (QuotaState, QuotaAction))
    ensures
        r.0 == (QuotaState::Token { again: false }),
        r.1@ == QuotaActionV::GetToken(false),
{
    (QuotaState::Token { again: false }, QuotaAction::GetToken(false))
}

/// Goes one step on. There are at most two requests for the quota.
pub fn quota_next(state: QuotaState, event: QuotaEvent) -> (r: (QuotaState, QuotaAction))
    requires
        state.awaits(event@),
    ensures
        (r.0, r.1@) == quota_step(state, event@),
        r.0.steps_left() < state.steps_left(),
        r.1@ is Finish <==> r.0 is End,
{
    match (state, event) {
        (QuotaState::Token { again }, QuotaEvent::Token(Ok(token))) => (
            QuotaState::Asked { again },
            QuotaAction::Ask(fetch_quota(token.as_str())),
        ),
        (QuotaState::Token { .. }, QuotaEvent::Token(Err(e))) => (
            QuotaState::End,
            QuotaAction::Finish(Err(e)),
        ),
        (QuotaState::Asked { again }, QuotaEvent::Answer(Err(e))) => if !again && e.kind
            == ErrorKind::QuotaExpired {
            (QuotaState::Token { again: true }, QuotaAction::GetToken(true))
        } else {
            (QuotaState::End, QuotaAction::Finish(Err(e)))
        },
        (QuotaState::Asked { .. }, QuotaEvent::Answer(Ok(doc))) => (
            QuotaState::End,
            QuotaAction::Finish(Ok(doc)),
        ),
        _ => (QuotaState::End, QuotaAction::Finish(Err(AuthError::new(ErrorKind::System)))),
    }
}

/// A refused token is answered with exactly one more request, after a forced renewal: the
/// second refusal is the result.
pub proof fn law_one_retry(expired: ErrorV, token: Seq<char>, second: Result<JsonV, ErrorV>)
    requires
        expired.kind == ErrorKind::QuotaExpired,
    ensures
        ({
            let (s1, a1) = quota_step(
                QuotaState::Asked { again: false },
                QuotaEventV::Answer(Err(expired)),
            );
            let (s2, a2) = quota_step(s1, QuotaEventV::Token(Ok(token)));
            let (s3, a3) = quota_step(s2, QuotaEventV::Answer(second));
            &&& a1 == QuotaActionV::GetToken(true)
            &&& a2 == QuotaActionV::Ask(quota_request(token))
            &&& a3 == QuotaActionV::Finish(second)
            &&& s3 is End
        }),
{
}

/// A renewal is forced only after the server refused a token.
pub proof fn law_force_only_after_refusal(state: QuotaState, event: QuotaEventV)
    requires
        quota_step(state, event).1 == QuotaActionV::GetToken(true),
    ensures
        event is Answer && event->Answer_0 is Err && event->Answer_0->Err_0.kind
            == ErrorKind::QuotaExpired,
{
}

// ---- what the card shows ----

/// How much of a quota is used, as far as it can be said without fractions.
#[derive(Debug)]
pub enum Used<'a> {
    /// Nothing is known of the quota, or its use is given as something that is no number.
    Unknown,
    /// The quota is known and its use is not given, which the server does where it is zero.
    Zero,
    /// The use is this number.
    Number(&'a Json),
    /// The use is the number that this text denotes; unknown where it denotes none.
    Quoted(&'a str),
}

pub enum UsedV {
    Unknown,
    Zero,
    Number(JsonV),
    Quoted(Seq<char>),
}

impl<'a> View for Used<'a> {
    type V = UsedV;

    open spec fn view(&self) -> UsedV {
        match self {
            Used::Unknown => UsedV::Unknown,
            Used::Zero => UsedV::Zero,
            Used::Number(n) => UsedV::Number(n@),
            Used::Quoted(s) => UsedV::Quoted(s@),
        }
    }
}

/// The whole quota of the subscription.
#[derive(Debug)]
pub struct Balance<'a> {
    pub used: Used<'a>,
    pub code_used: Used<'a>,
    pub reset_time: Option<&'a str>,
}

/// The quota of a span of time.
#[derive(Debug)]
pub struct Window<'a> {
    pub used: Used<'a>,
    pub enabled: bool,
    pub reset_time: Option<&'a str>,
}

/// What the card shows.
#[derive(Debug)]
pub struct Quota<'a> {
    pub fetched_at: u64,
    pub total: Balance<'a>,
    pub five_hour: Window<'a>,
    pub seven_day: Window<'a>,
}

pub struct BalanceV {
    pub used: UsedV,
    pub code_used: UsedV,
    pub reset_time: Option<Seq<char>>,
}

pub struct WindowV {
    pub used: UsedV,
    pub enabled: bool,
    pub reset_time: Option<Seq<char>>,
}

pub struct QuotaV {
    pub fetched_at: u64,
    pub total: BalanceV,
    pub five_hour: WindowV,
    pub seven_day: WindowV,
}

impl<'a> View for Balance<'a> {
    type V = BalanceV;

    open spec fn view(&self) -> BalanceV {
        BalanceV {
            used: self.used@,
            code_used: self.code_used@,
            reset_time: chars_in(self.reset_time),
        }
    }
}

impl<'a> View for Window<'a> {
    type V = WindowV;

    open spec fn view(&self) -> WindowV {
        WindowV {
            used: self.used@,
            enabled: self.enabled,
            reset_time: chars_in(self.reset_time),
        }
    }
}

impl<'a> View for Quota<'a> {
    type V = QuotaV;

    open spec fn view(&self) -> QuotaV {
        QuotaV {
            fetched_at: self.fetched_at,
            total: self.total@,
            five_hour: self.five_hour@,
            seven_day: self.seven_day@,
        }
    }
}

/// The first member that has one of the names; none where that member is `Null`.
pub open spec fn picked(raw: JsonV, names: Seq<Seq<char>>) -> Option<JsonV>
    decreases names.len(),
{
    if names.len() == 0 {
        None
    } else {
        match raw.member(names[0]) {
            Some(v) => if v is Null {
                None
            } else {
                Some(v)
            },
            None => picked(raw, names.drop_first()),
        }
    }
}

/// The characters of each text.
pub open spec fn names_of(names: Seq<&str>) -> Seq<Seq<char>> {
    names.map_values(|n: &str| n@)
}

/// Picks the first member that has one of the names.
pub fn pick<'a>(raw: &'a Json, names: &[&str]) -> (r: Option<&'a Json>)
    ensures
        seen(r) == picked(raw@, names_of(names@)),
{
    let mut i: usize = 0;
    assert(names_of(names@).skip(0) =~= names_of(names@));
    while i < names.len()
        invariant
            i <= names@.len(),
            picked(raw@, names_of(names@)) == picked(raw@, names_of(names@).skip(i as int)),
        decreases names@.len() - i,
    {
        assert(names_of(names@).skip(i as int)[0] == names@[i as int]@);
        assert(names_of(names@).skip(i as int).drop_first() =~= names_of(names@).skip(i + 1));
        match raw.member(names[i]) {
            Some(v) => {
                if v.is_null() {
                    return None;
                }
                return Some(v);
            },
            None => {},
        }
        i = i + 1;
    }
    None
}

/// The use that a member of a quota's statistics gives: a number, or a number in quotes. One that
/// is not given is zero; one that is given as something else is not known.
pub open spec fn used_in(stat: Option<JsonV>, name: Seq<char>) -> UsedV {
    match stat {
        None => UsedV::Unknown,
        Some(v) => match v.get(name) {
            JsonV::Int(n) => UsedV::Number(JsonV::Int(n)),
            JsonV::Fraction(f) => UsedV::Number(JsonV::Fraction(f)),
            JsonV::Str(s) => UsedV::Quoted(without_white_end(without_white_start(s))),
            JsonV::Null => UsedV::Zero,
            _ => UsedV::Unknown,
        },
    }
}

/// Reads the use that a member of a quota's statistics gives.
pub fn ratio_of<'a>(stat: Option<&'a Json>, name: &str) -> (r: Used<'a>)
    ensures
        r@ == used_in(seen(stat), name@),
{
    match stat {
        None => Used::Unknown,
        Some(v) => match v.member(name) {
            Some(m) => match m {
                Json::Int(_) => Used::Number(m),
                Json::Large(_) => Used::Number(m),
                Json::Fraction(_) => Used::Number(m),
                Json::Str(s) => Used::Quoted(trim(s.as_str())),
                Json::Null => Used::Zero,
                _ => Used::Unknown,
            },
            None => Used::Zero,
        },
    }
}

/// The text of a member of a quota's statistics.
pub open spec fn text_in(stat: Option<JsonV>, name: Seq<char>) -> Option<Seq<char>> {
    match stat {
        Some(v) => v.get(name).text(),
        None => None,
    }
}

/// Reads the text of a member of a quota's statistics.
pub fn str_of<'a>(stat: Option<&'a Json>, name: &str) -> (r: Option<&'a str>)
    ensures
        chars_in(r) == text_in(seen(stat), name@),
{
    match stat {
        Some(v) => v.text_at(name),
        None => None,
    }
}

/// Whether a quota is in force: it is, unless its statistics say otherwise.
pub open spec fn enabled_in(stat: Option<JsonV>) -> bool {
    match stat {
        Some(v) => match v.get("enabled"@).flag() {
            Some(b) => b,
            None => true,
        },
        None => true,
    }
}

fn is_enabled(stat: Option<&Json>) -> (r: bool)
    ensures
        r == enabled_in(seen(stat)),
{
    match stat {
        Some(v) => match v.member("enabled") {
            Some(m) => match m.as_bool() {
                Some(b) => b,
                None => true,
            },
            None => true,
        },
        None => true,
    }
}

pub open spec fn window_in(stat: Option<JsonV>) -> WindowV {
    WindowV {
        used: used_in(stat, "ratio"@),
        enabled: enabled_in(stat),
        reset_time: text_in(stat, "resetTime"@),
    }
}

fn window_of<'a>(stat: Option<&'a Json>) -> (r: Window<'a>)
    ensures
        r@ == window_in(seen(stat)),
{
    Window {
        used: ratio_of(stat, "ratio"),
        enabled: is_enabled(stat),
        reset_time: str_of(stat, "resetTime"),
    }
}

/// What the card shows of an answer to the request for the quota.
pub open spec fn normalized(raw: JsonV, now: u64) -> QuotaV {
    let balance = picked(raw, seq!["subscriptionBalance"@]);
    QuotaV {
        fetched_at: now,
        total: BalanceV {
            used: used_in(balance, "amountUsedRatio"@),
            code_used: used_in(balance, "kimiCodeUsedRatio"@),
            reset_time: text_in(balance, "expireTime"@),
        },
        five_hour: window_in(picked(raw, seq!["ratelimitCode5h"@, "ratelimit5h"@])),
        seven_day: window_in(picked(raw, seq!["ratelimitCode7d"@, "ratelimit7d"@])),
    }
}

/// Reads what the card shows from an answer to the request for the quota.
pub fn normalize<'a>(raw: &'a Json, now: u64) -> (r: Quota<'a>)
    ensures
        r@ == normalized(raw@, now),
{
    let balance_names: [&str; 1] = ["subscriptionBalance"];
    let five_names: [&str; 2] = ["ratelimitCode5h", "ratelimit5h"];
    let seven_names: [&str; 2] = ["ratelimitCode7d", "ratelimit7d"];
    proof {
        assert(names_of(balance_names@) =~= seq!["subscriptionBalance"@]);
        assert(names_of(five_names@) =~= seq!["ratelimitCode5h"@, "ratelimit5h"@]);
        assert(names_of(seven_names@) =~= seq!["ratelimitCode7d"@, "ratelimit7d"@]);
    }
    let balance: Option<&'a Json> = pick(raw, balance_names.as_slice());
    let five: Option<&'a Json> = pick(raw, five_names.as_slice());
    let seven: Option<&'a Json> = pick(raw, seven_names.as_slice());
    Quota {
        fetched_at: now,
        total: Balance {
            used: ratio_of(balance, "amountUsedRatio"),
            code_used: ratio_of(balance, "kimiCodeUsedRatio"),
            reset_time: str_of(balance, "expireTime"),
        },
        five_hour: window_of(five),
        seven_day: window_of(seven),
    }
}

/// Where a quota's statistics are there, a use that is not given reads as zero, and nothing else
/// does: whatever is given in another encoding never turns into zero.
pub proof fn law_only_a_missing_use_is_zero(stat: JsonV, name: Seq<char>)
    ensures
        used_in(Some(stat), name) is Zero <==> stat.get(name) is Null,
{
}

// ---- failures ----

/// What the card is told of a failure.
pub open spec fn failure(message: Seq<char>) -> JsonV {
    JsonV::Null.with("ok"@, JsonV::Bool(false)).with("error"@, JsonV::Str(cleaned(message)))
}

/// Says what went wrong in a way that the card can show.
pub fn failure_of(e: &AuthError) -> (r: Json)
    ensures
        r@ == failure(error_text(e@)),
{
    Json::Null.set("ok", Json::Bool(false)).set(
        "error",
        Json::Str(clean_error(e.message().as_str())),
    )
}

/// A document, or what the card is told of the failure to make one.
pub fn ok_or_err(r: Result<Json, AuthError>) -> (doc: Json)
    ensures
        doc@ == match r {
            Ok(j) => j@,
            Err(e) => failure(error_text(e@)),
        },
{
    match r {
        Ok(j) => j,
        Err(e) => failure_of(&e),
    }
}

// ---- what an answer and a reply mean, member by member ----

/// Whether a use is what a member of a quota's statistics gives, whatever else they hold.
pub open spec fn tells_use(used: UsedV, given: JsonV) -> bool {
    &&& used is Number <==> given is Int || given is Fraction
    &&& used is Number ==> used->Number_0 == given
    &&& used is Quoted <==> given is Str
    &&& used is Quoted ==> used->Quoted_0 == without_white_end(without_white_start(given->Str_0))
    &&& used is Zero <==> given is Null
    &&& used is Unknown <==> given is Bool || given is Arr || given is Obj
}

/// Whether a window is the one that those statistics are of.
pub open spec fn tells_window(w: WindowV, stat: JsonV) -> bool {
    &&& tells_use(w.used, stat.get("ratio"@))
    &&& w.enabled <==> stat.get("enabled"@) != JsonV::Bool(false)
    &&& w.reset_time is Some <==> stat.get("resetTime"@) is Str
    &&& w.reset_time is Some ==> stat.get("resetTime"@) == JsonV::Str(w.reset_time->0)
}

/// Whether a window is one of which nothing is known.
pub open spec fn tells_nothing(w: WindowV) -> bool {
    w.used is Unknown && w.enabled && w.reset_time is None
}

/// The seven-day window shows the statistics under `ratelimitCode7d` where that member is there,
/// else those under `ratelimit7d`, and nothing where the member is `Null` or neither is there.
pub proof fn law_seven_days_show_their_own_statistics(raw: JsonV, now: u64)
    ensures
        ({
            let w = normalized(raw, now).seven_day;
            let code = raw.member("ratelimitCode7d"@);
            let plain = raw.member("ratelimit7d"@);
            &&& code is Some && !(code->0 is Null) ==> tells_window(w, code->0)
            &&& code is Some && code->0 is Null ==> tells_nothing(w)
            &&& code is None && plain is Some && !(plain->0 is Null) ==> tells_window(w, plain->0)
            &&& code is None && (plain is None || plain->0 is Null) ==> tells_nothing(w)
        }),
{
    let names = seq!["ratelimitCode7d"@, "ratelimit7d"@];
    reveal_with_fuel(picked, 3);
    assert(names.drop_first() =~= seq!["ratelimit7d"@]);
    assert(names.drop_first().drop_first() =~= Seq::<Seq<char>>::empty());
}

/// The five-hour window shows the statistics under `ratelimitCode5h` where that member is there,
/// else those under `ratelimit5h`, and nothing where the member is `Null` or neither is there.
pub proof fn law_five_hours_show_their_own_statistics(raw: JsonV, now: u64)
    ensures
        ({
            let w = normalized(raw, now).five_hour;
            let code = raw.member("ratelimitCode5h"@);
            let plain = raw.member("ratelimit5h"@);
            &&& code is Some && !(code->0 is Null) ==> tells_window(w, code->0)
            &&& code is Some && code->0 is Null ==> tells_nothing(w)
            &&& code is None && plain is Some && !(plain->0 is Null) ==> tells_window(w, plain->0)
            &&& code is None && (plain is None || plain->0 is Null) ==> tells_nothing(w)
        }),
{
    let names = seq!["ratelimitCode5h"@, "ratelimit5h"@];
    reveal_with_fuel(picked, 3);
    assert(names.drop_first() =~= seq!["ratelimit5h"@]);
    assert(names.drop_first().drop_first() =~= Seq::<Seq<char>>::empty());
}

/// The whole quota shows the balance of the subscription: its use, the part of it that is used by
/// code, and when it runs out; and nothing where there is no balance. The time is the one at
/// which the answer came.
pub proof fn law_the_whole_shows_the_balance(raw: JsonV, now: u64)
    ensures
        ({
            let b = normalized(raw, now).total;
            let stat = raw.get("subscriptionBalance"@);
            &&& normalized(raw, now).fetched_at == now
            &&& stat is Null ==> b.used is Unknown && b.code_used is Unknown && b.reset_time is None
            &&& !(stat is Null) ==> tells_use(b.used, stat.get("amountUsedRatio"@))
            &&& !(stat is Null) ==> tells_use(b.code_used, stat.get("kimiCodeUsedRatio"@))
            &&& !(stat is Null) ==> (b.reset_time is Some <==> stat.get("expireTime"@) is Str)
            &&& !(stat is Null) && b.reset_time is Some ==> stat.get("expireTime"@) == JsonV::Str(
                b.reset_time->0,
            )
        }),
{
    let names = seq!["subscriptionBalance"@];
    reveal_with_fuel(picked, 2);
    assert(names.drop_first() =~= Seq::<Seq<char>>::empty());
}

/// No window depends on the statistics of another: two answers that agree on the members of one
/// show the same there, whatever else they hold and whenever they came.
pub proof fn law_windows_do_not_mix(a: JsonV, b: JsonV, then: u64, now: u64)
    ensures
        a.member("ratelimitCode7d"@) == b.member("ratelimitCode7d"@) && a.member("ratelimit7d"@)
            == b.member("ratelimit7d"@) ==> normalized(a, then).seven_day == normalized(
            b,
            now,
        ).seven_day,
        a.member("ratelimitCode5h"@) == b.member("ratelimitCode5h"@) && a.member("ratelimit5h"@)
            == b.member("ratelimit5h"@) ==> normalized(a, then).five_hour == normalized(
            b,
            now,
        ).five_hour,
        a.member("subscriptionBalance"@) == b.member("subscriptionBalance"@) ==> normalized(
            a,
            then,
        ).total == normalized(b, now).total,
{
    reveal_with_fuel(picked, 3);
    let seven = seq!["ratelimitCode7d"@, "ratelimit7d"@];
    let five = seq!["ratelimitCode5h"@, "ratelimit5h"@];
    let balance = seq!["subscriptionBalance"@];
    assert(seven.drop_first() =~= seq!["ratelimit7d"@]);
    assert(five.drop_first() =~= seq!["ratelimit5h"@]);
    assert(seven.drop_first().drop_first() =~= Seq::<Seq<char>>::empty());
    assert(five.drop_first().drop_first() =~= Seq::<Seq<char>>::empty());
    assert(balance.drop_first() =~= Seq::<Seq<char>>::empty());
}

/// A member that is picked has the first of the names that the answer has a member of.
pub proof fn law_the_first_name_wins(raw: JsonV, names: Seq<Seq<char>>, i: int)
    requires
        0 <= i < names.len(),
        raw.member(names[i]) is Some,
        forall|j: int| 0 <= j < i ==> raw.member(#[trigger] names[j]) is None,
    ensures
        raw.member(names[i])->0 is Null ==> picked(raw, names) is None,
        !(raw.member(names[i])->0 is Null) ==> picked(raw, names) == raw.member(names[i]),
    decreases names.len(),
{
    if i > 0 {
        assert(raw.member(names[0]) is None);
        assert forall|j: int| 0 <= j < i - 1 implies raw.member(
            #[trigger] names.drop_first()[j],
        ) is None by {
            assert(names.drop_first()[j] == names[j + 1]);
        }
        law_the_first_name_wins(raw, names.drop_first(), i - 1);
    }
}

/// A reply to the request for the quota is the document in it, or tells why there is none: the
/// token has expired just where the status is 401 or the refusal says so, another status is told
/// by its number, and a request that failed by the transport's words.
pub proof fn law_quota_replies_are_told_apart(reply: ReplyV)
    ensures
        quota_meaning(reply) is Ok ==> reply is Body && body_document(reply->Body_0) == Some(
            quota_meaning(reply)->Ok_0,
        ),
        quota_meaning(reply) is Err ==> match quota_meaning(reply)->Err_0.kind {
            ErrorKind::QuotaUnreadable => reply is Body && body_document(reply->Body_0) is None,
            ErrorKind::QuotaExpired => reply is Status && (reply->Status_0 == 401 || occurs(
                "unauthenticated"@,
                reply->Status_1,
            )),
            ErrorKind::QuotaStatus(code) => reply is Status && code == reply->Status_0 && code
                != 401 && !occurs("unauthenticated"@, reply->Status_1),
            ErrorKind::QuotaFailed => reply is Failed && quota_meaning(reply)->Err_0.detail
                == reply->Failed_0,
            _ => false,
        },
{
}

/// A request for the quota carries the token, and posts an empty JSON object to the official
/// endpoint.
pub proof fn law_quota_requests_carry_the_token(token: Seq<char>)
    ensures
        quota_request(token).method == crate::http::MethodV::Post("{}"@),
        quota_request(token).url
            == "https://www.kimi.com/apiv2/kimi.gateway.membership.v2.MembershipService/GetSubscriptionStats"@,
        quota_request(token).headers.contains(("Authorization"@, "Bearer "@ + token)),
        quota_request(token).headers.contains(("Content-Type"@, "application/json"@)),
        quota_request(token).headers.contains(("x-msh-platform"@, "web"@)),
        quota_request(token).headers.len() == 3,
        quota_request(token).timeout_secs == 15,
{
    let h = quota_request(token).headers;
    assert(h[0] == ("Content-Type"@, "application/json"@));
    assert(h[1] == ("Authorization"@, "Bearer "@ + token));
    assert(h[2] == ("x-msh-platform"@, "web"@));
}

/// The quota is asked for with the token that was got, on the first try and on the second; a
/// failure to get one, and every answer but the first refusal, is the result.
pub proof fn law_the_quota_is_asked_with_the_token_got(
    again: bool,
    token: Seq<char>,
    e: ErrorV,
    doc: JsonV,
)
    ensures
        quota_step(QuotaState::Token { again }, QuotaEventV::Token(Ok(token))) == (
            QuotaState::Asked { again },
            QuotaActionV::Ask(quota_request(token)),
        ),
        quota_step(QuotaState::Token { again }, QuotaEventV::Token(Err(e))).1
            == QuotaActionV::Finish(Err::<JsonV, ErrorV>(e)),
        quota_step(QuotaState::Asked { again }, QuotaEventV::Answer(Ok(doc))).1
            == QuotaActionV::Finish(Ok::<JsonV, ErrorV>(doc)),
        again || e.kind != ErrorKind::QuotaExpired ==> quota_step(
            QuotaState::Asked { again },
            QuotaEventV::Answer(Err(e)),
        ).1 == QuotaActionV::Finish(Err::<JsonV, ErrorV>(e)),
        !again && e.kind == ErrorKind::QuotaExpired ==> quota_step(
            QuotaState::Asked { again },
            QuotaEventV::Answer(Err(e)),
        ) == (QuotaState::Token { again: true }, QuotaActionV::GetToken(true)),
{
}

/// What the card is told of a failure says that it is one, and why, without a mark.
pub proof fn law_failures_say_why(message: Seq<char>)
    ensures
        failure(message).get("ok"@) == JsonV::Bool(false),
        failure(message).get("error"@) == JsonV::Str(cleaned(message)),
        forall|k: Seq<char>| #[trigger]
            failure(message).member(k) is Some ==> k == "ok"@ || k == "error"@,
{
    reveal_strlit("ok");
    reveal_strlit("error");
    assert("ok"@.len() == 2 && "error"@.len() == 5);
}

/// A document is handed on as it is, and a failure is told as one, in its words without a mark.
pub proof fn law_results_are_told_as_they_are(r: Result<Json, AuthError>, doc: Json)
    requires
        call_ensures(ok_or_err, (r,), doc),
    ensures
        r is Ok ==> doc@ == r->Ok_0@,
        r is Err ==> doc@.get("ok"@) == JsonV::Bool(false) && doc@.get("error"@) == JsonV::Str(
            cleaned(error_text(r->Err_0@)),
        ),
{
    if r is Err {
        law_failures_say_why(error_text(r->Err_0@));
    }
}

} // verus!
