//! The account that the card follows: its state, its membership, and signing out.

use vstd::prelude::*;

use crate::error::{clean_error, cleaned, error_text, plain_error, AuthError, ErrorKind, ErrorV};
use crate::http::{
    body_document, body_json, json_post, post_with_token, token_alone, Request, RequestV,
};
use crate::json::{owned_chars, Json, JsonV};
use crate::login::{json_or_null, text_or_null};
use crate::rpc::{auth_rpc, rpc_request};
use crate::store::{document_outcome, session_outcome};
use crate::stored::{
    disk_after_stored, stored_next, stored_step, DiskV, StoredAction, StoredActionV, StoredEvent,
    StoredEventV, StoredState,
};

verus! {

// ---- the mark of an explicit sign-out ----

/// Whether the user has signed out: `marker` says whether the mark is there, and is `None`
/// where there is no place for it.
pub fn is_logged_out(marker: Option<bool>) -> (r: bool)
    ensures
        r == (marker == Some(true)),
{
    match marker {
        Some(there) => there,
        None => false,
    }
}

/// What happens to the mark.
#[derive(Clone, Copy, PartialEq, Eq, Structural, Debug)]
pub enum MarkerChange {
    Raise,
    Clear,
    Keep,
}

/// Whether the mark is there after the change.
pub open spec fn marker_after(change: MarkerChange, there: bool) -> bool {
    match change {
        MarkerChange::Raise => true,
        MarkerChange::Clear => false,
        MarkerChange::Keep => there,
    }
}

/// Decides what happens to the mark; afterwards it is there just where the user has signed
/// out. A mark that is to go and is not there is left alone.
pub fn set_logged_out(out: bool, there: bool) -> (r: MarkerChange)
    ensures
        marker_after(r, there) == out,
        r == MarkerChange::Raise <==> out,
        r == MarkerChange::Clear <==> !out && there,
{
    if out {
        MarkerChange::Raise
    } else if there {
        MarkerChange::Clear
    } else {
        MarkerChange::Keep
    }
}

/// Decides what happens to the mark once a session was to be written: a login that was
/// written clears it, one that was not leaves it as it is.
pub fn marker_after_save(written: bool, there: bool) -> (r: MarkerChange)
    ensures
        marker_after(r, there) == (there && !written),
        r != MarkerChange::Raise,
        r == MarkerChange::Clear <==> written && there,
{
    if written {
        set_logged_out(false, there)
    } else {
        MarkerChange::Keep
    }
}

// ---- the state of the account ----

/// The state of the account: of the card's own session where it has one, else whether there is
/// a desktop client to follow.
pub open spec fn status(session: Option<JsonV>, store_exists: bool, logged_out: bool) -> JsonV {
    match session {
        Some(s) => JsonV::Null.with("ownSession"@, JsonV::Bool(true)).with(
            "userId"@,
            text_or_null(s.get("user_id"@).text()),
        ).with("source"@, text_or_null(s.get("source"@).text())),
        None => JsonV::Null.with("ownSession"@, JsonV::Bool(false)).with(
            "followingDesktop"@,
            JsonV::Bool(store_exists),
        ).with("loggedOut"@, JsonV::Bool(logged_out)),
    }
}

/// Tells the card the state of the account. A session of its own that cannot be read counts as
/// none.
pub fn session_status(
    session: &Result<Option<Json>, AuthError>,
    store_exists: bool,
    logged_out: bool,
) -> (r: Json)
    ensures
        r@ == status(
            match session_outcome(*session) {
                Ok(s) => s,
                Err(_) => None,
            },
            store_exists,
            logged_out,
        ),
{
    match session {
        Ok(Some(s)) => Json::Null.set("ownSession", Json::Bool(true)).set(
            "userId",
            json_or_null(s.text_at("user_id")),
        ).set("source", json_or_null(s.text_at("source"))),
        _ => Json::Null.set("ownSession", Json::Bool(false)).set(
            "followingDesktop",
            Json::Bool(store_exists),
        ).set("loggedOut", Json::Bool(logged_out)),
    }
}

// ---- membership ----

/// The request for the membership.
pub fn fetch_membership_summary(token: &str) -> (r: Request)
    ensures
        r@ == json_post(
            "https://www.kimi.com/apiv2/kimi.gateway.membership.v2.MembershipService/GetSubscription"@,
            token_alone(token@),
            "{}"@,
            12,
        ),
{
    post_with_token(
        "https://www.kimi.com/apiv2/kimi.gateway.membership.v2.MembershipService/GetSubscription".to_owned(),
        token,
        false,
        "{}".to_owned(),
        12,
    )
}

/// Plan, level and expiry, from the answer to the request for the membership.
pub open spec fn summary(doc: JsonV) -> JsonV {
    let sub = doc.get("subscription"@);
    let goods = sub.get("goods"@);
    JsonV::Null.with("plan"@, text_or_null(goods.get("title"@).text())).with(
        "level"@,
        text_or_null(goods.get("membershipLevel"@).text()),
    ).with("status"@, text_or_null(sub.get("status"@).text())).with(
        "active"@,
        JsonV::Bool(sub.get("active"@).flag() == Some(true)),
    ).with("periodEnd"@, text_or_null(sub.get("currentEndTime"@).text())).with(
        "nextBilling"@,
        text_or_null(sub.get("nextBillingTime"@).text()),
    )
}

/// Sums up the answer to the request for the membership.
pub fn membership_summary(doc: &Json) -> (r: Json)
    ensures
        r@ == summary(doc@),
{
    let none: Json = Json::Null;
    let sub: &Json = match doc.member("subscription") {
        Some(j) => j,
        None => &none,
    };
    let goods: &Json = match sub.member("goods") {
        Some(j) => j,
        None => &none,
    };
    let active: bool = match sub.member("active") {
        Some(j) => match j.as_bool() {
            Some(b) => b,
            None => false,
        },
        None => false,
    };
    Json::Null.set("plan", json_or_null(goods.text_at("title"))).set(
        "level",
        json_or_null(goods.text_at("membershipLevel")),
    ).set("status", json_or_null(sub.text_at("status"))).set("active", Json::Bool(active)).set(
        "periodEnd",
        json_or_null(sub.text_at("currentEndTime")),
    ).set("nextBilling", json_or_null(sub.text_at("nextBillingTime")))
}

/// What came back for the membership: the body of a success, where it could be read, or why
/// there was none.
pub open spec fn membership_meaning(reply: Result<Option<Seq<u8>>, Seq<char>>) -> Result<
    JsonV,
    ErrorV,
> {
    match reply {
        Ok(body) => match body_document(body) {
            Some(doc) => Ok(summary(doc)),
            None => Err(plain_error(ErrorKind::MembershipUnreadable)),
        },
        Err(why) => Err(ErrorV { kind: ErrorKind::MembershipFailed, detail: why }),
    }
}

/// Reads what came back for the membership.
pub fn membership_reply(reply: Result<Option<Vec<u8>>, String>) -> (r: Result<Json, AuthError>)
    ensures
        document_outcome(r) == membership_meaning(
            match reply {
                Ok(Some(b)) => Ok(Some(b@)),
                Ok(None) => Ok(None),
                Err(e) => Err(e@),
            },
        ),
{
    match reply {
        Ok(body) => match body_json(&body) {
            Some(doc) => Ok(membership_summary(&doc)),
            None => Err(AuthError::new(ErrorKind::MembershipUnreadable)),
        },
        Err(why) => Err(AuthError::with(ErrorKind::MembershipFailed, why)),
    }
}

/// Whether the user's id has to be read from a token, because the state does not have it.
pub fn needs_user_id(state: &Json) -> (r: bool)
    ensures
        r == (state@.get("userId"@) is Null),
{
    match state.member("userId") {
        Some(j) => j.is_null(),
        None => true,
    }
}

/// The personal center: the state of the account, the user's id, and the membership or why
/// there is none.
pub open spec fn profile(
    state: JsonV,
    user: Option<Seq<char>>,
    membership: Result<JsonV, ErrorV>,
) -> JsonV {
    let with_user = if state.get("userId"@) is Null {
        state.with("userId"@, text_or_null(user))
    } else {
        state
    };
    (match membership {
        Ok(m) => with_user.with("membership"@, m),
        Err(e) => with_user.with("membershipError"@, JsonV::Str(cleaned(error_text(e)))),
    }).with("ok"@, JsonV::Bool(true))
}

fn user_json(user: Option<String>) -> (r: Json)
    ensures
        r@ == text_or_null(owned_chars(user)),
{
    match user {
        Some(u) => Json::Str(u),
        None => Json::Null,
    }
}

/// Puts the personal center together. `user` is the id from the token, for a state that does
/// not have it.
pub fn get_profile(state: Json, user: Option<String>, membership: Result<Json, AuthError>) -> (r:
    Json)
    requires
        state@.takes_members(),
    ensures
        r@ == profile(state@, owned_chars(user), document_outcome(membership)),
{
    let with_user: Json = if needs_user_id(&state) {
        state.set("userId", user_json(user))
    } else {
        state
    };
    let with_membership: Json = match membership {
        Ok(m) => with_user.set("membership", m),
        Err(e) => with_user.set(
            "membershipError",
            Json::Str(clean_error(e.message().as_str())),
        ),
    };
    with_membership.set("ok", Json::Bool(true))
}

/// The report of the self-test of the personal center.
pub fn check_profile(summary: Json, user: Option<String>) -> (r: Json)
    requires
        summary@.takes_members(),
    ensures
        r@ == summary@.with("ok"@, JsonV::Bool(true)).with(
            "userId"@,
            text_or_null(owned_chars(user)),
        ),
{
    summary.set("ok", Json::Bool(true)).set("userId", user_json(user))
}

// ---- signing out, step by step ----

/// Where signing out stands.
#[derive(Clone, Copy, PartialEq, Eq, Structural, Debug)]
pub enum LogoutState {
    /// The card's own session is being looked for.
    Session,
    /// The session's token is being revoked.
    OwnRevoke,
    /// The session is being deleted.
    Delete,
    /// There is no session; the stored token of the account that is followed is being got, as it
    /// is.
    Token(StoredState),
    /// That token is being revoked.
    Revoke,
    /// The mark of the sign-out is being raised.
    Raise,
    End,
}

/// What is to be done next.
#[derive(Debug)]
pub enum LogoutAction {
    LoadSession,
    /// Send this request; what comes of it does not matter.
    Revoke(Request),
    DeleteSession,
    /// Do this on the way to the stored token.
    Stored(StoredAction),
    RaiseMarker,
    /// Nothing: the user is signed out, or this is why not.
    Finish(Result<(), AuthError>),
}

/// What came of it.
#[derive(Debug)]
pub enum LogoutEvent {
    Session(Result<Option<Json>, AuthError>),
    Revoked,
    Deleted(Result<(), AuthError>),
    Stored(StoredEvent),
    Raised,
}

pub enum LogoutActionV {
    LoadSession,
    Revoke(RequestV),
    DeleteSession,
    Stored(StoredActionV),
    RaiseMarker,
    Finish(Result<(), ErrorV>),
}

pub enum LogoutEventV {
    Session(Result<Option<JsonV>, ErrorV>),
    Revoked,
    Deleted(Result<(), ErrorV>),
    Stored(StoredEventV),
    Raised,
}

/// The outcome of something that yields nothing.
pub open spec fn unit_outcome(r: Result<(), AuthError>) -> Result<(), ErrorV> {
    match r {
        Ok(()) => Ok(()),
        Err(e) => Err(e@),
    }
}

impl View for LogoutAction {
    type V = LogoutActionV;

    open spec fn view(&self) -> LogoutActionV {
        match self {
            LogoutAction::LoadSession => LogoutActionV::LoadSession,
            LogoutAction::Revoke(request) => LogoutActionV::Revoke(request@),
            LogoutAction::DeleteSession => LogoutActionV::DeleteSession,
            LogoutAction::Stored(action) => LogoutActionV::Stored(action@),
            LogoutAction::RaiseMarker => LogoutActionV::RaiseMarker,
            LogoutAction::Finish(r) => LogoutActionV::Finish(unit_outcome(*r)),
        }
    }
}

impl View for LogoutEvent {
    type V = LogoutEventV;

    open spec fn view(&self) -> LogoutEventV {
        match self {
            LogoutEvent::Session(r) => LogoutEventV::Session(session_outcome(*r)),
            LogoutEvent::Revoked => LogoutEventV::Revoked,
            LogoutEvent::Deleted(r) => LogoutEventV::Deleted(unit_outcome(*r)),
            LogoutEvent::Stored(event) => LogoutEventV::Stored(event@),
            LogoutEvent::Raised => LogoutEventV::Raised,
        }
    }
}

impl LogoutState {
    /// Whether that is what can come of the action that the state waits for.
    pub open spec fn awaits(self, event: LogoutEventV) -> bool {
        match self {
            LogoutState::Session => event is Session,
            LogoutState::OwnRevoke => event is Revoked,
            LogoutState::Delete => event is Deleted,
            LogoutState::Token(stored) => event is Stored && stored.awaits(event->Stored_0),
            LogoutState::Revoke => event is Revoked,
            LogoutState::Raise => event is Raised,
            LogoutState::End => false,
        }
    }

    /// How many steps are left at most.
    pub open spec fn steps_left(self) -> nat {
        match self {
            LogoutState::Session => 6,
            LogoutState::OwnRevoke => 3,
            LogoutState::Token(stored) => 2 + stored.steps_left(),
            LogoutState::Delete => 2,
            LogoutState::Revoke => 2,
            LogoutState::Raise => 1,
            LogoutState::End => 0,
        }
    }
}

/// The request to revoke a token.
pub open spec fn revoke_request(token: Seq<char>) -> RequestV {
    rpc_request("account.gateway.v1.AuthService/Logout"@, "{}"@, Some(token))
}

fn revoke(token: &str) -> (r: Request)
    ensures
        r@ == revoke_request(token@),
{
    auth_rpc("account.gateway.v1.AuthService/Logout", "{}".to_owned(), Some(token))
}

/// What an event leads to. The card's own session is revoked and deleted; without one, the
/// stored token of the account that is followed is revoked as it is, as far as there is one.
/// Either way the mark of the sign-out is raised at last.
pub open spec fn logout_step(state: LogoutState, event: LogoutEventV) -> (
    LogoutState,
    LogoutActionV,
) {
    match (state, event) {
        (LogoutState::Session, LogoutEventV::Session(Err(e))) => (
            LogoutState::End,
            LogoutActionV::Finish(Err(e)),
        ),
        (LogoutState::Session, LogoutEventV::Session(Ok(Some(session)))) => match session.get(
            "access_token"@,
        ).text() {
            Some(token) => (LogoutState::OwnRevoke, LogoutActionV::Revoke(revoke_request(token))),
            None => (LogoutState::Delete, LogoutActionV::DeleteSession),
        },
        (LogoutState::Session, LogoutEventV::Session(Ok(None))) => (
            LogoutState::Token(StoredState::Marker),
            LogoutActionV::Stored(StoredActionV::CheckMarker),
        ),
        (LogoutState::OwnRevoke, _) => (LogoutState::Delete, LogoutActionV::DeleteSession),
        (LogoutState::Delete, LogoutEventV::Deleted(Ok(()))) => (
            LogoutState::Raise,
            LogoutActionV::RaiseMarker,
        ),
        (LogoutState::Delete, LogoutEventV::Deleted(Err(e))) => (
            LogoutState::End,
            LogoutActionV::Finish(Err(e)),
        ),
        (LogoutState::Token(stored), LogoutEventV::Stored(e)) => {
            let (next, action) = stored_step(stored, e);
            match action {
                StoredActionV::Finish(Ok(token)) => (
                    LogoutState::Revoke,
                    LogoutActionV::Revoke(revoke_request(token)),
                ),
                StoredActionV::Finish(Err(_)) => (LogoutState::Raise, LogoutActionV::RaiseMarker),
                _ => (LogoutState::Token(next), LogoutActionV::Stored(action)),
            }
        },
        (LogoutState::Revoke, _) => (LogoutState::Raise, LogoutActionV::RaiseMarker),
        (LogoutState::Raise, _) => (LogoutState::End, LogoutActionV::Finish(Ok(()))),
        _ => (LogoutState::End, LogoutActionV::Finish(Err(plain_error(ErrorKind::System)))),
    }
}

/// Starts signing out of whatever account the card follows.
pub fn logout_any() -> (r: (LogoutState, LogoutAction))
    ensures
        r.0 == LogoutState::Session,
        r.1@ == LogoutActionV::LoadSession,
{
    (LogoutState::Session, LogoutAction::LoadSession)
}

/// Goes one step on.
pub fn logout_next(state: LogoutState, event: LogoutEvent) -> (r: (LogoutState, LogoutAction))
    requires
        state.awaits(event@),
    ensures
        (r.0, r.1@) == logout_step(state, event@),
        r.0.steps_left() < state.steps_left(),
        r.1@ is Finish <==> r.0 is End,
{
    match (state, event) {
        (LogoutState::Session, LogoutEvent::Session(Err(e))) => (
            LogoutState::End,
            LogoutAction::Finish(Err(e)),
        ),
        (LogoutState::Session, LogoutEvent::Session(Ok(Some(session)))) => match session.text_at(
            "access_token",
        ) {
            Some(token) => (LogoutState::OwnRevoke, LogoutAction::Revoke(revoke(token))),
            None => (LogoutState::Delete, LogoutAction::DeleteSession),
        },
        (LogoutState::Session, LogoutEvent::Session(Ok(None))) => (
            LogoutState::Token(StoredState::Marker),
            LogoutAction::Stored(StoredAction::CheckMarker),
        ),
        (LogoutState::OwnRevoke, _) => (LogoutState::Delete, LogoutAction::DeleteSession),
        (LogoutState::Delete, LogoutEvent::Deleted(Ok(()))) => (
            LogoutState::Raise,
            LogoutAction::RaiseMarker,
        ),
        (LogoutState::Delete, LogoutEvent::Deleted(Err(e))) => (
            LogoutState::End,
            LogoutAction::Finish(Err(e)),
        ),
        (LogoutState::Token(stored), LogoutEvent::Stored(e)) => {
            let (next, action) = stored_next(stored, e);
            match action {
                StoredAction::Finish(Ok(token)) => (
                    LogoutState::Revoke,
                    LogoutAction::Revoke(revoke(token.as_str())),
                ),
                StoredAction::Finish(Err(_)) => (LogoutState::Raise, LogoutAction::RaiseMarker),
                other => (LogoutState::Token(next), LogoutAction::Stored(other)),
            }
        },
        (LogoutState::Revoke, _) => (LogoutState::Raise, LogoutAction::RaiseMarker),
        (LogoutState::Raise, _) => (LogoutState::End, LogoutAction::Finish(Ok(()))),
        _ => (LogoutState::End, LogoutAction::Finish(Err(AuthError::new(ErrorKind::System)))),
    }
}

// ---- what holds of signing out as a whole ----

/// What is on disk once an action was carried out, and that came of it.
pub open spec fn disk_after_logout(action: LogoutActionV, event: LogoutEventV, disk: DiskV) -> DiskV {
    match action {
        LogoutActionV::LoadSession => disk,
        LogoutActionV::Revoke(_) => disk,
        LogoutActionV::DeleteSession => if event is Deleted && event->Deleted_0 is Ok {
            DiskV { session: None, ..disk }
        } else {
            disk
        },
        LogoutActionV::Stored(stored) => disk_after_stored(stored, disk),
        LogoutActionV::RaiseMarker => DiskV { marker: true, ..disk },
        LogoutActionV::Finish(_) => disk,
    }
}

/// Where signing out stands after a sequence of events, what is to be done then, and what is on
/// disk.
pub open spec fn logout_run(
    state: LogoutState,
    action: LogoutActionV,
    events: Seq<LogoutEventV>,
    disk: DiskV,
) -> (LogoutState, LogoutActionV, DiskV)
    decreases events.len(),
{
    if events.len() == 0 {
        (state, action, disk)
    } else {
        let (next, then) = logout_step(state, events[0]);
        logout_run(next, then, events.drop_first(), disk_after_logout(action, events[0], disk))
    }
}

/// Whether each event of a sequence is one that is awaited when it comes, and that tells of the
/// card's own session as it is on disk.
pub open spec fn logout_events_fit(
    state: LogoutState,
    events: Seq<LogoutEventV>,
    disk: DiskV,
) -> bool
    decreases events.len(),
{
    events.len() > 0 ==> {
        &&& state.awaits(events[0])
        &&& events[0] is Session && events[0]->Session_0 is Ok ==> events[0]->Session_0->Ok_0
            == disk.session
        &&& logout_events_fit(logout_step(state, events[0]).0, events.drop_first(), disk)
    }
}

/// Which action a state waits for, and what it knows of the disk: `start` is how that was when
/// signing out began.
spec fn logout_stands(state: LogoutState, action: LogoutActionV, start: DiskV, disk: DiskV) -> bool {
    &&& disk.store == start.store
    &&& match state {
        LogoutState::Session => action is LoadSession && disk == start,
        LogoutState::OwnRevoke => action is Revoke && disk == start,
        LogoutState::Delete => action is DeleteSession && disk == start,
        LogoutState::Token(_) => action is Stored && disk == start && disk.session is None,
        LogoutState::Revoke => action is Revoke && disk == start && disk.session is None,
        LogoutState::Raise => action is RaiseMarker && disk.session is None && disk.marker
            == start.marker,
        LogoutState::End => action is Finish && if action->Finish_0 is Ok {
            disk.session is None && disk.marker
        } else {
            disk == start
        },
    }
}

proof fn lemma_logout_stands(
    state: LogoutState,
    action: LogoutActionV,
    events: Seq<LogoutEventV>,
    start: DiskV,
    disk: DiskV,
)
    requires
        logout_events_fit(state, events, start),
        logout_stands(state, action, start, disk),
    ensures
        ({
            let (s, a, d) = logout_run(state, action, events, disk);
            logout_stands(s, a, start, d)
        }),
    decreases events.len(),
{
    if events.len() > 0 {
        let (next, then) = logout_step(state, events[0]);
        lemma_logout_stands(
            next,
            then,
            events.drop_first(),
            start,
            disk_after_logout(action, events[0], disk),
        );
    }
}

/// Signing out leaves the desktop client untouched: at no point on the way does its store differ
/// from what it was before, however old the token in it is.
pub proof fn law_logout_leaves_the_client_untouched(events: Seq<LogoutEventV>, disk: DiskV)
    requires
        logout_events_fit(LogoutState::Session, events, disk),
    ensures
        logout_run(LogoutState::Session, LogoutActionV::LoadSession, events, disk).2.store
            == disk.store,
{
    lemma_logout_stands(LogoutState::Session, LogoutActionV::LoadSession, events, disk, disk);
}

/// Who is signed out is signed out for good: no session of the card's own is left, and the mark
/// is raised.
pub proof fn law_logout_leaves_no_session(events: Seq<LogoutEventV>, disk: DiskV)
    requires
        logout_events_fit(LogoutState::Session, events, disk),
        ({
            let end = logout_run(LogoutState::Session, LogoutActionV::LoadSession, events, disk);
            end.1 is Finish && end.1->Finish_0 is Ok
        }),
    ensures
        ({
            let end = logout_run(LogoutState::Session, LogoutActionV::LoadSession, events, disk);
            end.2.session is None && end.2.marker
        }),
{
    lemma_logout_stands(LogoutState::Session, LogoutActionV::LoadSession, events, disk, disk);
}

/// Where signing out fails, all is as it was: the card goes on as before.
pub proof fn law_failed_logout_changes_nothing(events: Seq<LogoutEventV>, disk: DiskV)
    requires
        logout_events_fit(LogoutState::Session, events, disk),
        ({
            let end = logout_run(LogoutState::Session, LogoutActionV::LoadSession, events, disk);
            end.1 is Finish && end.1->Finish_0 is Err
        }),
    ensures
        logout_run(LogoutState::Session, LogoutActionV::LoadSession, events, disk).2 == disk,
{
    lemma_logout_stands(LogoutState::Session, LogoutActionV::LoadSession, events, disk, disk);
}

// ---- what the card is told, member by member ----

/// Without a session of the card's own the state says that there is none, that the user signed
/// out just where the mark is there, and that a client is followed just where its store is there;
/// neither of the two bears on the other.
pub proof fn law_the_state_tells_of_the_sign_out(store_exists: bool, logged_out: bool)
    ensures
        ({
            let s = status(None, store_exists, logged_out);
            &&& s.get("ownSession"@) == JsonV::Bool(false)
            &&& s.get("loggedOut"@) == JsonV::Bool(true) <==> logged_out
            &&& s.get("loggedOut"@) == JsonV::Bool(false) <==> !logged_out
            &&& s.get("followingDesktop"@) == JsonV::Bool(true) <==> store_exists
            &&& s.get("followingDesktop"@) == JsonV::Bool(false) <==> !store_exists
            &&& s.get("userId"@) is Null
            &&& s.takes_members()
        }),
{
    reveal_strlit("ownSession");
    reveal_strlit("loggedOut");
    reveal_strlit("followingDesktop");
    reveal_strlit("userId");
    assert("ownSession"@.len() == 10 && "loggedOut"@.len() == 9 && "followingDesktop"@.len() == 16);
    assert("userId"@.len() == 6);
}

/// With a session of the card's own the state says so, and tells the user and the way of signing
/// in that the session holds, whatever else is on disk.
pub proof fn law_the_state_tells_of_the_session(
    session: JsonV,
    store_exists: bool,
    logged_out: bool,
)
    ensures
        ({
            let s = status(Some(session), store_exists, logged_out);
            &&& s.get("ownSession"@) == JsonV::Bool(true)
            &&& session.get("user_id"@) is Str ==> s.get("userId"@) == session.get("user_id"@)
            &&& !(session.get("user_id"@) is Str) ==> s.get("userId"@) is Null
            &&& session.get("source"@) is Str ==> s.get("source"@) == session.get("source"@)
            &&& !(session.get("source"@) is Str) ==> s.get("source"@) is Null
            &&& s.get("loggedOut"@) is Null && s.get("followingDesktop"@) is Null
            &&& s.takes_members()
        }),
{
    reveal_strlit("ownSession");
    reveal_strlit("userId");
    reveal_strlit("source");
    reveal_strlit("loggedOut");
    reveal_strlit("followingDesktop");
    assert("ownSession"@.len() == 10 && "userId"@.len() == 6 && "source"@.len() == 6);
    assert("loggedOut"@.len() == 9 && "followingDesktop"@.len() == 16);
    assert("userId"@[0] == 'u');
    assert("source"@[0] == 's');
}

/// Once a sign-out is complete, the state that the card is told says that the user signed out and
/// has no session, whether or not there is a client to follow.
pub proof fn law_a_completed_sign_out_is_told(events: Seq<LogoutEventV>, disk: DiskV)
    requires
        logout_events_fit(LogoutState::Session, events, disk),
        ({
            let end = logout_run(LogoutState::Session, LogoutActionV::LoadSession, events, disk);
            end.1 is Finish && end.1->Finish_0 is Ok
        }),
    ensures
        ({
            let end = logout_run(LogoutState::Session, LogoutActionV::LoadSession, events, disk).2;
            let s = status(end.session, end.store is Some, end.marker);
            &&& s.get("ownSession"@) == JsonV::Bool(false)
            &&& s.get("loggedOut"@) == JsonV::Bool(true)
            &&& s.get("followingDesktop"@) == JsonV::Bool(disk.store is Some)
        }),
{
    let end = logout_run(LogoutState::Session, LogoutActionV::LoadSession, events, disk).2;
    law_logout_leaves_no_session(events, disk);
    law_logout_leaves_the_client_untouched(events, disk);
    law_the_state_tells_of_the_sign_out(end.store is Some, end.marker);
}

/// A membership is shown as active just where the server says that it is; and plan, level,
/// status, end and next billing are the texts of the server, each its own, or `Null`.
pub proof fn law_the_summary_tells_what_the_server_says(doc: JsonV)
    ensures
        ({
            let s = summary(doc);
            let sub = doc.get("subscription"@);
            &&& s.get("active"@) == JsonV::Bool(true) <==> sub.get("active"@) == JsonV::Bool(true)
            &&& s.get("active"@) == JsonV::Bool(false) <==> sub.get("active"@) != JsonV::Bool(true)
            &&& same_text_or_null(s.get("plan"@), sub.get("goods"@).get("title"@))
            &&& same_text_or_null(s.get("level"@), sub.get("goods"@).get("membershipLevel"@))
            &&& same_text_or_null(s.get("status"@), sub.get("status"@))
            &&& same_text_or_null(s.get("periodEnd"@), sub.get("currentEndTime"@))
            &&& same_text_or_null(s.get("nextBilling"@), sub.get("nextBillingTime"@))
            &&& s.takes_members()
        }),
{
    reveal_strlit("plan");
    reveal_strlit("level");
    reveal_strlit("status");
    reveal_strlit("active");
    reveal_strlit("periodEnd");
    reveal_strlit("nextBilling");
    assert("plan"@.len() == 4 && "level"@.len() == 5 && "status"@.len() == 6);
    assert("active"@.len() == 6 && "periodEnd"@.len() == 9 && "nextBilling"@.len() == 11);
    assert("status"@[0] == 's');
    assert("active"@[0] == 'a');
}

/// Whether what is told is the text that is given, and `Null` where no text is given.
pub open spec fn same_text_or_null(told: JsonV, given: JsonV) -> bool {
    &&& given is Str ==> told == given
    &&& !(given is Str) ==> told is Null
}

/// A reply for the membership is summed up, or the failure tells whether it came from the reply
/// or from the transport, whose words it holds.
pub proof fn law_membership_replies_are_told_apart(reply: Result<Option<Seq<u8>>, Seq<char>>)
    ensures
        membership_meaning(reply) is Ok ==> reply is Ok && body_document(reply->Ok_0) is Some
            && membership_meaning(reply)->Ok_0 == summary(body_document(reply->Ok_0)->0),
        membership_meaning(reply) is Err ==> match membership_meaning(reply)->Err_0.kind {
            ErrorKind::MembershipUnreadable => reply is Ok && body_document(reply->Ok_0) is None,
            ErrorKind::MembershipFailed => reply is Err && membership_meaning(reply)->Err_0.detail
                == reply->Err_0,
            _ => false,
        },
{
}

/// The personal center keeps the state of the account and a user's id that is known; an id that
/// is not known comes from the token, and the membership is there or else the reason why not.
pub proof fn law_the_personal_center_is_complete(
    state: JsonV,
    user: Option<Seq<char>>,
    membership: Result<JsonV, ErrorV>,
    name: Seq<char>,
)
    requires
        state.takes_members(),
    ensures
        ({
            let p = profile(state, user, membership);
            &&& p.get("ok"@) == JsonV::Bool(true)
            &&& !(state.get("userId"@) is Null) ==> p.get("userId"@) == state.get("userId"@)
            &&& state.get("userId"@) is Null && user is Some ==> p.get("userId"@) == JsonV::Str(
                user->0,
            )
            &&& state.get("userId"@) is Null && user is None ==> p.get("userId"@) is Null
            &&& membership is Ok ==> p.get("membership"@) == membership->Ok_0
            &&& membership is Ok ==> p.get("membershipError"@) == state.get("membershipError"@)
            &&& membership is Err ==> p.get("membershipError"@) == JsonV::Str(
                cleaned(error_text(membership->Err_0)),
            )
            &&& membership is Err ==> p.get("membership"@) == state.get("membership"@)
            &&& name != "ok"@ && name != "userId"@ && name != "membership"@ && name
                != "membershipError"@ ==> p.member(name) == state.member(name)
        }),
{
    reveal_strlit("ok");
    reveal_strlit("userId");
    reveal_strlit("membership");
    reveal_strlit("membershipError");
    assert("ok"@.len() == 2 && "userId"@.len() == 6 && "membership"@.len() == 10);
    assert("membershipError"@.len() == 15);
}

/// Signing out revokes the access token that the session holds, or else the one that is stored,
/// and no other; and a session is deleted whether or not it holds a token.
pub proof fn law_the_token_held_is_revoked(session: JsonV, stored: StoredState, event: StoredEventV)
    ensures
        ({
            let (s, a) = logout_step(LogoutState::Session, LogoutEventV::Session(Ok(Some(session))));
            &&& session.get("access_token"@) is Str ==> s == LogoutState::OwnRevoke && a
                == LogoutActionV::Revoke(revoke_request(session.get("access_token"@)->Str_0))
            &&& !(session.get("access_token"@) is Str) ==> s == LogoutState::Delete && a
                == LogoutActionV::DeleteSession
        }),
        ({
            let (s, a) = logout_step(LogoutState::Token(stored), LogoutEventV::Stored(event));
            match stored_step(stored, event).1 {
                StoredActionV::Finish(Ok(token)) => a == LogoutActionV::Revoke(
                    revoke_request(token),
                ),
                StoredActionV::Finish(Err(_)) => a == LogoutActionV::RaiseMarker,
                other => a == LogoutActionV::Stored(other) && s == LogoutState::Token(
                    stored_step(stored, event).0,
                ),
            }
        }),
{
}

/// A request to revoke carries the token that is to be revoked.
pub proof fn law_revoking_carries_the_token(token: Seq<char>)
    ensures
        revoke_request(token).url
            == "https://auth.kimi.com/api/"@ + "account.gateway.v1.AuthService/Logout"@,
        revoke_request(token).method == crate::http::MethodV::Post("{}"@),
        revoke_request(token).headers.contains(("Authorization"@, "Bearer "@ + token)),
{
    assert(revoke_request(token).headers[2] == ("Authorization"@, "Bearer "@ + token));
}

/// A session that cannot be read, and one that cannot be deleted, end signing out with that very
/// error.
pub proof fn law_sign_out_tells_why_it_failed(e: ErrorV)
    ensures
        logout_step(LogoutState::Session, LogoutEventV::Session(Err(e))).1
            == LogoutActionV::Finish(Err::<(), ErrorV>(e)),
        logout_step(LogoutState::Delete, LogoutEventV::Deleted(Err(e))).1
            == LogoutActionV::Finish(Err::<(), ErrorV>(e)),
{
}

/// Signing out goes its way step by step: without a session the way to the stored token is taken
/// from the mark on; a token that was revoked, or could not be had, does not stop it; the session
/// is deleted before the mark is raised, and with the mark it is done.
pub proof fn law_the_way_of_signing_out()
    ensures
        logout_step(LogoutState::Session, LogoutEventV::Session(Ok(None))) == (
            LogoutState::Token(StoredState::Marker),
            LogoutActionV::Stored(StoredActionV::CheckMarker),
        ),
        logout_step(LogoutState::OwnRevoke, LogoutEventV::Revoked) == (
            LogoutState::Delete,
            LogoutActionV::DeleteSession,
        ),
        forall|r: Result<(), ErrorV>|
            r is Ok ==> (#[trigger] logout_step(LogoutState::Delete, LogoutEventV::Deleted(r))) == (
                LogoutState::Raise,
                LogoutActionV::RaiseMarker,
            ),
        logout_step(LogoutState::Revoke, LogoutEventV::Revoked) == (
            LogoutState::Raise,
            LogoutActionV::RaiseMarker,
        ),
        ({
            let (s, a) = logout_step(LogoutState::Raise, LogoutEventV::Raised);
            s is End && a is Finish && a->Finish_0 is Ok
        }),
{
}

// ---- what the calls give ----

/// A session that cannot be read is told like none; and what is told of a session that can be read
/// depends on nothing else.
pub proof fn law_an_unreadable_session_is_told_like_none(
    unreadable: &Result<Option<Json>, AuthError>,
    none: &Result<Option<Json>, AuthError>,
    store_exists: bool,
    logged_out: bool,
    a: Json,
    b: Json,
)
    requires
        *unreadable is Err,
        *none is Ok && (*none)->Ok_0 is None,
        call_ensures(session_status, (unreadable, store_exists, logged_out), a),
        call_ensures(session_status, (none, store_exists, logged_out), b),
    ensures
        a@ == b@,
        a@.get("loggedOut"@) == JsonV::Bool(logged_out),
        a@.get("followingDesktop"@) == JsonV::Bool(store_exists),
        a@.get("ownSession"@) == JsonV::Bool(false),
{
    law_the_state_tells_of_the_sign_out(store_exists, logged_out);
}

/// A request for the membership carries the token, and posts an empty JSON object to the official
/// endpoint.
pub proof fn law_membership_requests_carry_the_token(token: &str, r: Request)
    requires
        call_ensures(fetch_membership_summary, (token,), r),
    ensures
        r@.method == crate::http::MethodV::Post("{}"@),
        r@.url
            == "https://www.kimi.com/apiv2/kimi.gateway.membership.v2.MembershipService/GetSubscription"@,
        r@.headers == seq![
            ("Content-Type"@, "application/json"@),
            ("Authorization"@, "Bearer "@ + token@),
        ],
        r@.timeout_secs == 12,
{
}

/// The report of the self-test of the personal center is the summary with the user's id, and says
/// that all is well.
pub proof fn law_the_profile_report_is_the_summary(
    summary: Json,
    user: Option<String>,
    r: Json,
    name: Seq<char>,
)
    requires
        summary@.takes_members(),
        call_ensures(check_profile, (summary, user), r),
    ensures
        r@.get("ok"@) == JsonV::Bool(true),
        user is Some ==> r@.get("userId"@) == JsonV::Str(user->0@),
        user is None ==> r@.get("userId"@) is Null,
        name != "ok"@ && name != "userId"@ ==> r@.member(name) == summary@.member(name),
{
    reveal_strlit("ok");
    reveal_strlit("userId");
    assert("ok"@.len() == 2 && "userId"@.len() == 6);
}

/// A user who signed out and signs in again is signed in: a login that was written takes the mark
/// away, one that was not leaves it, and no login raises it.
pub proof fn law_a_written_login_takes_the_mark_away(
    there: bool,
    raised: MarkerChange,
    saved: MarkerChange,
    failed: MarkerChange,
)
    requires
        call_ensures(set_logged_out, (true, there), raised),
        call_ensures(marker_after_save, (true, true), saved),
        call_ensures(marker_after_save, (false, there), failed),
    ensures
        marker_after(raised, there),
        !marker_after(saved, true),
        marker_after(failed, there) == there,
        marker_after(MarkerChange::Raise, there),
        !marker_after(MarkerChange::Clear, there),
        marker_after(MarkerChange::Keep, there) == there,
{
}

} // verus!
