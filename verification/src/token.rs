//! How the card comes by an access token that the server takes: the card's own session first,
//! then the desktop client's, each renewed when it runs out.

use vstd::prelude::*;

use crate::error::{error_text, plain_error, AuthError, ErrorKind, ErrorV};
use crate::http::{
    body_document, body_json, get_with_token, token_then_platform, MethodV, Reply, ReplyV, Request,
    RequestV,
};
use crate::json::{owned_chars, Json, JsonV};
use crate::jwt::{expiry, is_fresh, serves};
use crate::store::session_outcome;

verus! {

/// A renewed access token, with a new refresh token where the server rotated it.
#[derive(Debug)]
pub struct Renewed {
    pub access: String,
    pub refresh: Option<String>,
}

pub struct RenewedV {
    pub access: Seq<char>,
    pub refresh: Option<Seq<char>>,
}

impl View for Renewed {
    type V = RenewedV;

    open spec fn view(&self) -> RenewedV {
        RenewedV { access: self.access@, refresh: owned_chars(self.refresh) }
    }
}

/// The outcome of a renewal.
pub open spec fn renewal(r: Result<Renewed, AuthError>) -> Result<RenewedV, ErrorV> {
    match r {
        Ok(t) => Ok(t@),
        Err(e) => Err(e@),
    }
}

/// The request that asks the official endpoint to renew a pair of tokens.
pub fn refresh_tokens(refresh_token: &str) -> (r: Request)
    ensures
        r@ == (RequestV {
            method: MethodV::Get,
            url: "https://www.kimi.com/api/auth/token/refresh"@,
            headers: token_then_platform(refresh_token@),
            timeout_secs: 15,
        }),
{
    get_with_token("https://www.kimi.com/api/auth/token/refresh", refresh_token, 15)
}

/// The tokens in a document of the refresh endpoint.
pub open spec fn renewed_in(doc: JsonV) -> Result<RenewedV, ErrorV> {
    match doc.get("access_token"@).text() {
        Some(access) => Ok(RenewedV { access, refresh: doc.get("refresh_token"@).text() }),
        None => Err(plain_error(ErrorKind::RefreshNoToken)),
    }
}

/// Takes the tokens out of a document of the refresh endpoint.
pub fn renewed_of(doc: &Json) -> (r: Result<Renewed, AuthError>)
    ensures
        renewal(r) == renewed_in(doc@),
{
    match doc.text_at("access_token") {
        Some(access) => Ok(
            Renewed {
                access: access.to_owned(),
                refresh: match doc.text_at("refresh_token") {
                    Some(t) => Some(t.to_owned()),
                    None => None,
                },
            },
        ),
        None => Err(AuthError::new(ErrorKind::RefreshNoToken)),
    }
}

/// What a reply of the refresh endpoint means: the statuses 400 and 401 say that the refresh
/// token is dead.
pub open spec fn refresh_meaning(reply: ReplyV) -> Result<RenewedV, ErrorV> {
    match reply {
        ReplyV::Body(body) => match body_document(body) {
            Some(doc) => renewed_in(doc),
            None => Err(plain_error(ErrorKind::RefreshUnreadable)),
        },
        ReplyV::Status(code, _) => if code == 401 || code == 400 {
            Err(plain_error(ErrorKind::RefreshDead))
        } else {
            Err(plain_error(ErrorKind::RefreshStatus(code)))
        },
        ReplyV::Failed(why) => Err(ErrorV { kind: ErrorKind::RefreshFailed, detail: why }),
    }
}

/// Reads a reply of the refresh endpoint.
pub fn refresh_reply(reply: Reply) -> (r: Result<Renewed, AuthError>)
    ensures
        renewal(r) == refresh_meaning(reply@),
{
    match reply {
        Reply::Body(body) => match body_json(&body) {
            Some(doc) => renewed_of(&doc),
            None => Err(AuthError::new(ErrorKind::RefreshUnreadable)),
        },
        Reply::Status(code, _) => if code == 401 || code == 400 {
            Err(AuthError::new(ErrorKind::RefreshDead))
        } else {
            Err(AuthError::new(ErrorKind::RefreshStatus(code)))
        },
        Reply::Failed(why) => Err(AuthError::with(ErrorKind::RefreshFailed, why)),
    }
}

/// Of the errors that a refresh can end in, the one that says the token is dead is the one
/// whose words start with `AUTH_DEAD`.
pub proof fn law_dead_by_its_words(reply: ReplyV)
    requires
        refresh_meaning(reply) is Err,
    ensures
        ({
            let e = refresh_meaning(reply)->Err_0;
            "AUTH_DEAD"@.is_prefix_of(error_text(e)) <==> e.kind == ErrorKind::RefreshDead
        }),
{
    let e = refresh_meaning(reply)->Err_0;
    reveal_strlit("AUTH_DEAD");
    reveal_strlit("AUTH_DEAD: 刷新令牌已失效，请重新登录");
    reveal_strlit("刷新接口返回 ");
    reveal_strlit("刷新接口响应解析失败");
    reveal_strlit("刷新接口未返回 access_token");
    reveal_strlit("刷新接口请求失败: ");
    let t = error_text(e);
    if e.kind == ErrorKind::RefreshDead {
        assert("AUTH_DEAD"@ =~= t.subrange(0, 9));
    } else {
        assert(t[0] == '刷');
        if "AUTH_DEAD"@.is_prefix_of(t) {
            assert("AUTH_DEAD"@[0] == t.subrange(0, 9)[0]);
        }
    }
}

// ---- the way to a token, step by step ----

/// Where the way to a token stands.
#[derive(Debug)]
pub enum TokenState {
    /// The card's own session is being looked for.
    Session { force: bool },
    /// The session's tokens are being renewed.
    OwnRefresh { force: bool, session: Json },
    /// The renewed session is being written; this token is the result.
    OwnSave { token: String },
    /// The dead session is being deleted.
    OwnDrop { force: bool },
    /// The mark of an explicit sign-out is being looked for.
    Marker { force: bool },
    /// The desktop client's store is being read.
    Store { force: bool },
    /// The store's tokens are being renewed.
    StoreRefresh { store: Json },
    /// The renewed store is being written; this token is the result.
    StoreSave { token: String },
    /// The way has come to its end.
    End,
}

/// What is to be done next.
#[derive(Debug)]
pub enum TokenAction {
    LoadSession,
    /// Renew with this refresh token.
    Refresh(String),
    SaveSession(Json),
    DeleteSession,
    CheckMarker,
    LoadStore,
    SaveStore(Json),
    /// Nothing: this is the result.
    Finish(Result<String, AuthError>),
}

/// What came of it.
#[derive(Debug)]
pub enum TokenEvent {
    /// The session, where there is one, and the time in seconds since 1970.
    Session(Result<Option<Json>, AuthError>, i64),
    Refreshed(Result<Renewed, AuthError>),
    /// Writing ended, well or not.
    Saved,
    /// Deleting ended, well or not.
    Deleted,
    Marker(bool),
    /// The store, and the time in seconds since 1970.
    Store(Result<Json, AuthError>, i64),
}

pub enum TokenStateV {
    Session { force: bool },
    OwnRefresh { force: bool, session: JsonV },
    OwnSave { token: Seq<char> },
    OwnDrop { force: bool },
    Marker { force: bool },
    Store { force: bool },
    StoreRefresh { store: JsonV },
    StoreSave { token: Seq<char> },
    End,
}

pub enum TokenActionV {
    LoadSession,
    Refresh(Seq<char>),
    SaveSession(JsonV),
    DeleteSession,
    CheckMarker,
    LoadStore,
    SaveStore(JsonV),
    Finish(Result<Seq<char>, ErrorV>),
}

pub enum TokenEventV {
    Session(Result<Option<JsonV>, ErrorV>, int),
    Refreshed(Result<RenewedV, ErrorV>),
    Saved,
    Deleted,
    Marker(bool),
    Store(Result<JsonV, ErrorV>, int),
}

impl View for TokenState {
    type V = TokenStateV;

    open spec fn view(&self) -> TokenStateV {
        match self {
            TokenState::Session { force } => TokenStateV::Session { force: *force },
            TokenState::OwnRefresh { force, session } => TokenStateV::OwnRefresh {
                force: *force,
                session: session@,
            },
            TokenState::OwnSave { token } => TokenStateV::OwnSave { token: token@ },
            TokenState::OwnDrop { force } => TokenStateV::OwnDrop { force: *force },
            TokenState::Marker { force } => TokenStateV::Marker { force: *force },
            TokenState::Store { force } => TokenStateV::Store { force: *force },
            TokenState::StoreRefresh { store } => TokenStateV::StoreRefresh { store: store@ },
            TokenState::StoreSave { token } => TokenStateV::StoreSave { token: token@ },
            TokenState::End => TokenStateV::End,
        }
    }
}

impl View for TokenAction {
    type V = TokenActionV;

    open spec fn view(&self) -> TokenActionV {
        match self {
            TokenAction::LoadSession => TokenActionV::LoadSession,
            TokenAction::Refresh(t) => TokenActionV::Refresh(t@),
            TokenAction::SaveSession(j) => TokenActionV::SaveSession(j@),
            TokenAction::DeleteSession => TokenActionV::DeleteSession,
            TokenAction::CheckMarker => TokenActionV::CheckMarker,
            TokenAction::LoadStore => TokenActionV::LoadStore,
            TokenAction::SaveStore(j) => TokenActionV::SaveStore(j@),
            TokenAction::Finish(Ok(t)) => TokenActionV::Finish(Ok(t@)),
            TokenAction::Finish(Err(e)) => TokenActionV::Finish(Err(e@)),
        }
    }
}

impl View for TokenEvent {
    type V = TokenEventV;

    open spec fn view(&self) -> TokenEventV {
        match self {
            TokenEvent::Session(r, now) => TokenEventV::Session(session_outcome(*r), *now as int),
            TokenEvent::Refreshed(r) => TokenEventV::Refreshed(renewal(*r)),
            TokenEvent::Saved => TokenEventV::Saved,
            TokenEvent::Deleted => TokenEventV::Deleted,
            TokenEvent::Marker(b) => TokenEventV::Marker(*b),
            TokenEvent::Store(Ok(j), now) => TokenEventV::Store(Ok(j@), *now as int),
            TokenEvent::Store(Err(e), now) => TokenEventV::Store(Err(e@), *now as int),
        }
    }
}

/// Whether a stored token is used as it is: not where a renewal is forced.
pub open spec fn usable(force: bool, token: Seq<char>, now: int) -> bool {
    !force && serves(expiry(token), now) && token.len() > 0
}

/// A document with renewed tokens written to it; a refresh token that was not rotated stays.
pub open spec fn with_tokens(doc: JsonV, tokens: RenewedV) -> JsonV {
    let d = doc.with("access_token"@, JsonV::Str(tokens.access));
    match tokens.refresh {
        Some(t) => d.with("refresh_token"@, JsonV::Str(t)),
        None => d,
    }
}

/// The store with renewed tokens written to its member `tokens`.
pub open spec fn store_with_tokens(store: JsonV, tokens: RenewedV) -> JsonV {
    store.with("tokens"@, with_tokens(store.get("tokens"@), tokens))
}

impl TokenStateV {
    /// Whether tokens can be written to the store that is being renewed.
    pub open spec fn wf(self) -> bool {
        match self {
            TokenStateV::StoreRefresh { store } => store.takes_members() && store.get(
                "tokens"@,
            ).takes_members(),
            _ => true,
        }
    }

    /// Whether that is what can come of the action that the state waits for. Tokens are
    /// renewed only for a session to which they can be written.
    pub open spec fn awaits(self, event: TokenEventV) -> bool {
        match self {
            TokenStateV::Session { .. } => event is Session,
            TokenStateV::OwnRefresh { session, .. } => event is Refreshed && (
            event->Refreshed_0 is Ok ==> session.takes_members()),
            TokenStateV::OwnSave { .. } => event is Saved,
            TokenStateV::OwnDrop { .. } => event is Deleted,
            TokenStateV::Marker { .. } => event is Marker,
            TokenStateV::Store { .. } => event is Store,
            TokenStateV::StoreRefresh { .. } => event is Refreshed,
            TokenStateV::StoreSave { .. } => event is Saved,
            TokenStateV::End => false,
        }
    }

    /// How many steps are left at most.
    pub open spec fn steps_left(self) -> nat {
        match self {
            TokenStateV::Session { .. } => 7,
            TokenStateV::OwnRefresh { .. } => 6,
            TokenStateV::OwnDrop { .. } => 5,
            TokenStateV::Marker { .. } => 4,
            TokenStateV::Store { .. } => 3,
            TokenStateV::StoreRefresh { .. } => 2,
            TokenStateV::OwnSave { .. } => 1,
            TokenStateV::StoreSave { .. } => 1,
            TokenStateV::End => 0,
        }
    }
}

/// What an event leads to. A session that cannot be read counts as none.
pub open spec fn token_step(state: TokenStateV, event: TokenEventV) -> (TokenStateV, TokenActionV) {
    match (state, event) {
        (TokenStateV::Session { force }, TokenEventV::Session(Ok(Some(session)), now)) => {
            let access = session.get("access_token"@).text_or_empty();
            if usable(force, access, now) {
                (TokenStateV::End, TokenActionV::Finish(Ok(access)))
            } else {
                (
                    TokenStateV::OwnRefresh { force, session },
                    TokenActionV::Refresh(session.get("refresh_token"@).text_or_empty()),
                )
            }
        },
        (TokenStateV::Session { force }, TokenEventV::Session(_, _)) => (
            TokenStateV::Marker { force },
            TokenActionV::CheckMarker,
        ),
        (
            TokenStateV::OwnRefresh { session, .. },
            TokenEventV::Refreshed(Ok(tokens)),
        ) => (
            TokenStateV::OwnSave { token: tokens.access },
            TokenActionV::SaveSession(with_tokens(session, tokens)),
        ),
        (TokenStateV::OwnRefresh { force, .. }, TokenEventV::Refreshed(Err(e))) => if e.kind
            == ErrorKind::RefreshDead {
            (TokenStateV::OwnDrop { force }, TokenActionV::DeleteSession)
        } else {
            (TokenStateV::End, TokenActionV::Finish(Err(e)))
        },
        (TokenStateV::OwnDrop { force }, _) => (
            TokenStateV::Marker { force },
            TokenActionV::CheckMarker,
        ),
        (TokenStateV::Marker { force }, TokenEventV::Marker(signed_out)) => if signed_out {
            (TokenStateV::End, TokenActionV::Finish(Err(plain_error(ErrorKind::SignedOut))))
        } else {
            (TokenStateV::Store { force }, TokenActionV::LoadStore)
        },
        (TokenStateV::Store { .. }, TokenEventV::Store(Err(e), _)) => (
            TokenStateV::End,
            TokenActionV::Finish(Err(e)),
        ),
        (TokenStateV::Store { force }, TokenEventV::Store(Ok(store), now)) => {
            let access = store.get("tokens"@).get("access_token"@).text_or_empty();
            if usable(force, access, now) {
                (TokenStateV::End, TokenActionV::Finish(Ok(access)))
            } else {
                match store.get("tokens"@).get("refresh_token"@).text() {
                    Some(t) => (TokenStateV::StoreRefresh { store }, TokenActionV::Refresh(t)),
                    None => (
                        TokenStateV::End,
                        TokenActionV::Finish(Err(plain_error(ErrorKind::NoRefreshToken))),
                    ),
                }
            }
        },
        (TokenStateV::StoreRefresh { store }, TokenEventV::Refreshed(Ok(tokens))) => (
            TokenStateV::StoreSave { token: tokens.access },
            TokenActionV::SaveStore(store_with_tokens(store, tokens)),
        ),
        (TokenStateV::StoreRefresh { .. }, TokenEventV::Refreshed(Err(e))) => (
            TokenStateV::End,
            TokenActionV::Finish(Err(e)),
        ),
        (TokenStateV::OwnSave { token }, _) => (
            TokenStateV::End,
            TokenActionV::Finish(Ok(token)),
        ),
        (TokenStateV::StoreSave { token }, _) => (
            TokenStateV::End,
            TokenActionV::Finish(Ok(token)),
        ),
        _ => (TokenStateV::End, TokenActionV::Finish(Err(plain_error(ErrorKind::System)))),
    }
}

/// Starts the way to a token. `force_refresh` skips tokens that are stored, as is wanted once
/// the server has refused one.
pub fn get_valid_access_token(force_refresh: bool) -> (r: (TokenState, TokenAction))
    ensures
        r.0@ == (TokenStateV::Session { force: force_refresh }),
        r.1@ == TokenActionV::LoadSession,
{
    (TokenState::Session { force: force_refresh }, TokenAction::LoadSession)
}

fn text_or_empty(json: &Json, name: &str) -> (r: String)
    ensures
        r@ == json@.get(name@).text_or_empty(),
{
    match json.text_at(name) {
        Some(t) => t.to_owned(),
        None => String::new(),
    }
}

fn is_usable(force: bool, token: &str, now: i64) -> (r: bool)
    ensures
        r == usable(force, token@, now as int),
{
    !force && is_fresh(token, now) && !token.is_empty()
}

fn tokens_written(doc: Json, tokens: Renewed) -> (r: Json)
    requires
        doc@.takes_members(),
    ensures
        r@ == with_tokens(doc@, tokens@),
{
    let d: Json = doc.set("access_token", Json::Str(tokens.access));
    match tokens.refresh {
        Some(t) => d.set("refresh_token", Json::Str(t)),
        None => d,
    }
}

fn store_tokens_written(store: Json, tokens: Renewed) -> (r: Json)
    requires
        store@.takes_members(),
        store@.get("tokens"@).takes_members(),
    ensures
        r@ == store_with_tokens(store@, tokens@),
{
    let ghost s = store@;
    let d: Json = store.set_in("tokens", "access_token", Json::Str(tokens.access));
    assert(d@.get("tokens"@) == s.get("tokens"@).with("access_token"@, JsonV::Str(tokens.access@)));
    let r: Json = match tokens.refresh {
        Some(t) => d.set_in("tokens", "refresh_token", Json::Str(t)),
        None => d,
    };
    proof {
        let inner = s.get("tokens"@).with("access_token"@, JsonV::Str(tokens.access@));
        let w = with_tokens(s.get("tokens"@), tokens@);
        let members = s.with("tokens"@, inner)->Obj_0;
        assert(members.insert("tokens"@, w) =~= s.with("tokens"@, w)->Obj_0);
    }
    r
}

/// Goes one step on.
pub fn token_next(state: TokenState, event: TokenEvent) -> (r: (TokenState, TokenAction))
    requires
        state@.wf(),
        state@.awaits(event@),
    ensures
        (r.0@, r.1@) == token_step(state@, event@),
        r.0@.wf(),
        r.0@.steps_left() < state@.steps_left(),
        r.1@ is Finish <==> r.0@ is End,
{
    match state {
        TokenState::Session { force } => match event {
            TokenEvent::Session(Ok(Some(session)), now) => {
                let access: String = text_or_empty(&session, "access_token");
                if is_usable(force, access.as_str(), now) {
                    (TokenState::End, TokenAction::Finish(Ok(access)))
                } else {
                    let refresh: String = text_or_empty(&session, "refresh_token");
                    (TokenState::OwnRefresh { force, session }, TokenAction::Refresh(refresh))
                }
            },
            _ => (TokenState::Marker { force }, TokenAction::CheckMarker),
        },
        TokenState::OwnRefresh { force, session } => match event {
            TokenEvent::Refreshed(Ok(tokens)) => {
                let token: String = tokens.access.clone();
                (
                    TokenState::OwnSave { token },
                    TokenAction::SaveSession(tokens_written(session, tokens)),
                )
            },
            TokenEvent::Refreshed(Err(e)) => if e.kind == ErrorKind::RefreshDead {
                (TokenState::OwnDrop { force }, TokenAction::DeleteSession)
            } else {
                (TokenState::End, TokenAction::Finish(Err(e)))
            },
            _ => (TokenState::End, TokenAction::Finish(Err(AuthError::new(ErrorKind::System)))),
        },
        TokenState::OwnDrop { force } => (TokenState::Marker { force }, TokenAction::CheckMarker),
        TokenState::Marker { force } => match event {
            TokenEvent::Marker(false) => (TokenState::Store { force }, TokenAction::LoadStore),
            _ => (
                TokenState::End,
                TokenAction::Finish(Err(AuthError::new(ErrorKind::SignedOut))),
            ),
        },
        TokenState::Store { force } => match event {
            TokenEvent::Store(Ok(store), now) => {
                let tokens: &Json = match store.member("tokens") {
                    Some(t) => t,
                    None => &Json::Null,
                };
                let access: String = text_or_empty(tokens, "access_token");
                if is_usable(force, access.as_str(), now) {
                    (TokenState::End, TokenAction::Finish(Ok(access)))
                } else {
                    match tokens.text_at("refresh_token") {
                        Some(t) => {
                            let refresh: String = t.to_owned();
                            (TokenState::StoreRefresh { store }, TokenAction::Refresh(refresh))
                        },
                        None => (
                            TokenState::End,
                            TokenAction::Finish(Err(AuthError::new(ErrorKind::NoRefreshToken))),
                        ),
                    }
                }
            },
            TokenEvent::Store(Err(e), _) => (TokenState::End, TokenAction::Finish(Err(e))),
            _ => (TokenState::End, TokenAction::Finish(Err(AuthError::new(ErrorKind::System)))),
        },
        TokenState::StoreRefresh { store } => match event {
            TokenEvent::Refreshed(Ok(tokens)) => {
                let token: String = tokens.access.clone();
                (
                    TokenState::StoreSave { token },
                    TokenAction::SaveStore(store_tokens_written(store, tokens)),
                )
            },
            TokenEvent::Refreshed(Err(e)) => (TokenState::End, TokenAction::Finish(Err(e))),
            _ => (TokenState::End, TokenAction::Finish(Err(AuthError::new(ErrorKind::System)))),
        },
        TokenState::OwnSave { token } => (TokenState::End, TokenAction::Finish(Ok(token))),
        TokenState::StoreSave { token } => (TokenState::End, TokenAction::Finish(Ok(token))),
        TokenState::End => (
            TokenState::End,
            TokenAction::Finish(Err(AuthError::new(ErrorKind::System))),
        ),
    }
}

// ---- what holds of the way as a whole ----

/// The card's own session wins: while its token serves and no renewal is forced, that token is
/// the result at once, and neither the server nor the desktop client is asked.
pub proof fn law_own_session_wins(session: JsonV, now: int)
    requires
        session.get("access_token"@).text_or_empty().len() > 0,
        serves(expiry(session.get("access_token"@).text_or_empty()), now),
    ensures
        token_step(
            TokenStateV::Session { force: false },
            TokenEventV::Session(Ok(Some(session)), now),
        ).1 == TokenActionV::Finish(
            Ok::<Seq<char>, ErrorV>(session.get("access_token"@).text_or_empty()),
        ),
{
}

/// A stored token is the result only where no renewal is forced, it still serves, and it is the
/// one that was just read; every other token that is handed out comes from a renewal.
pub proof fn law_results_serve_or_are_renewed(state: TokenStateV, event: TokenEventV)
    requires
        state.awaits(event),
    ensures
        match token_step(state, event).1 {
            TokenActionV::Finish(Ok(token)) => match state {
                TokenStateV::OwnSave { token: renewed } => token == renewed,
                TokenStateV::StoreSave { token: renewed } => token == renewed,
                TokenStateV::Session { force } => usable(force, token, event->Session_1)
                    && event->Session_0->Ok_0->0.get("access_token"@) == JsonV::Str(token),
                TokenStateV::Store { force } => usable(force, token, event->Store_1)
                    && event->Store_0->Ok_0.get("tokens"@).get("access_token"@) == JsonV::Str(
                    token,
                ),
                _ => false,
            },
            _ => true,
        },
{
}

/// Without a session of its own, and unless the user signed out, the card follows whatever
/// account the desktop client's store holds then.
pub proof fn law_without_a_session_the_client_is_followed(
    force: bool,
    session: Result<Option<JsonV>, ErrorV>,
    now: int,
)
    requires
        !(session is Ok && session->Ok_0 is Some),
    ensures
        ({
            let (waiting, _) = token_step(
                TokenStateV::Session { force },
                TokenEventV::Session(session, now),
            );
            token_step(waiting, TokenEventV::Marker(false)) == (
                TokenStateV::Store { force },
                TokenActionV::LoadStore,
            )
        }),
{
}

/// A session whose refresh token is dead is deleted, and the way goes on to the desktop
/// client's session; every other failure to renew is the result as it is.
pub proof fn law_only_a_dead_session_is_dropped(force: bool, session: JsonV, e: ErrorV)
    ensures
        ({
            let (next, action) = token_step(
                TokenStateV::OwnRefresh { force, session },
                TokenEventV::Refreshed(Err(e)),
            );
            if e.kind == ErrorKind::RefreshDead {
                action is DeleteSession && token_step(next, TokenEventV::Deleted) == (
                    TokenStateV::Marker { force },
                    TokenActionV::CheckMarker,
                )
            } else {
                action == TokenActionV::Finish(Err::<Seq<char>, ErrorV>(e))
            }
        }),
{
}

/// After an explicit sign-out, and until the card has a session of its own again, no account
/// is followed: the desktop client's store is not even read.
pub proof fn law_signed_out_follows_nobody(
    force: bool,
    session: Result<Option<JsonV>, ErrorV>,
    now: int,
)
    requires
        !(session is Ok && session->Ok_0 is Some),
    ensures
        ({
            let (waiting, asked) = token_step(
                TokenStateV::Session { force },
                TokenEventV::Session(session, now),
            );
            asked is CheckMarker && token_step(waiting, TokenEventV::Marker(true)) == (
                TokenStateV::End,
                TokenActionV::Finish(Err::<Seq<char>, ErrorV>(plain_error(ErrorKind::SignedOut))),
            )
        }),
{
}

proof fn lemma_token_names()
    ensures
        "access_token"@ != "refresh_token"@,
{
    reveal_strlit("access_token");
    reveal_strlit("refresh_token");
    assert("access_token"@.len() == 12 && "refresh_token"@.len() == 13);
}

/// Writing renewed tokens changes those tokens and nothing else; a refresh token that the
/// server did not rotate stays.
pub proof fn law_renewal_keeps_the_rest(doc: JsonV, tokens: RenewedV, name: Seq<char>)
    requires
        doc.takes_members(),
    ensures
        with_tokens(doc, tokens).get("access_token"@) == JsonV::Str(tokens.access),
        tokens.refresh is Some ==> with_tokens(doc, tokens).get("refresh_token"@) == JsonV::Str(
            tokens.refresh->0,
        ),
        tokens.refresh is None ==> with_tokens(doc, tokens).get("refresh_token"@) == doc.get(
            "refresh_token"@,
        ),
        name != "access_token"@ && name != "refresh_token"@ ==> with_tokens(doc, tokens).member(
            name,
        ) == doc.member(name),
{
    lemma_token_names();
}

/// Writing renewed tokens to the desktop client's store changes those tokens and nothing
/// else: the other members of the store and of its member `tokens` are as they were.
pub proof fn law_store_renewal_keeps_the_rest(store: JsonV, tokens: RenewedV, name: Seq<char>)
    requires
        store.takes_members(),
        store.get("tokens"@).takes_members(),
    ensures
        name != "tokens"@ ==> store_with_tokens(store, tokens).member(name) == store.member(name),
        store_with_tokens(store, tokens).get("tokens"@) == with_tokens(store.get("tokens"@), tokens),
        name != "access_token"@ && name != "refresh_token"@ ==> store_with_tokens(
            store,
            tokens,
        ).get("tokens"@).member(name) == store.get("tokens"@).member(name),
{
    law_renewal_keeps_the_rest(store.get("tokens"@), tokens, name);
}

/// Who comes second reuses what the first one wrote: a session with renewed tokens written to
/// it gives the renewed token at once, while that serves.
pub proof fn law_renewed_session_is_reused(session: JsonV, tokens: RenewedV, now: int)
    requires
        session.takes_members(),
        tokens.access.len() > 0,
        serves(expiry(tokens.access), now),
    ensures
        token_step(
            TokenStateV::Session { force: false },
            TokenEventV::Session(Ok(Some(with_tokens(session, tokens))), now),
        ).1 == TokenActionV::Finish(Ok::<Seq<char>, ErrorV>(tokens.access)),
{
    lemma_token_names();
}

/// Who comes second reuses what the first one wrote: a store with renewed tokens written to it
/// gives the renewed token at once, while that serves.
pub proof fn law_renewed_store_is_reused(store: JsonV, tokens: RenewedV, now: int)
    requires
        store.takes_members(),
        store.get("tokens"@).takes_members(),
        tokens.access.len() > 0,
        serves(expiry(tokens.access), now),
    ensures
        token_step(
            TokenStateV::Store { force: false },
            TokenEventV::Store(Ok(store_with_tokens(store, tokens)), now),
        ).1 == TokenActionV::Finish(Ok::<Seq<char>, ErrorV>(tokens.access)),
{
    lemma_token_names();
}

proof fn lemma_with_stays_plain(doc: JsonV, name: Seq<char>, value: JsonV, room: nat)
    requires
        doc.takes_members(),
        doc.plain(room),
        room > 0,
        value.plain((room - 1) as nat),
    ensures
        doc.with(name, value).plain(room),
{
    let members = doc.with(name, value)->Obj_0;
    assert forall|k: Seq<char>| #[trigger] members.contains_key(k) implies members[k].plain(
        (room - 1) as nat,
    ) by {
        if k != name {
            assert(doc->Obj_0.contains_key(k));
        }
    }
}

/// A session that can be read back from its file still can once renewed tokens were written
/// to it.
pub proof fn law_renewed_session_stays_readable(session: JsonV, tokens: RenewedV, room: nat)
    requires
        session.takes_members(),
        session.plain(room),
        room > 0,
    ensures
        with_tokens(session, tokens).plain(room),
{
    let d = session.with("access_token"@, JsonV::Str(tokens.access));
    lemma_with_stays_plain(session, "access_token"@, JsonV::Str(tokens.access), room);
    if let Some(t) = tokens.refresh {
        lemma_with_stays_plain(d, "refresh_token"@, JsonV::Str(t), room);
    }
}

/// A store that can be read back from its file still can once renewed tokens were written to
/// it.
pub proof fn law_renewed_store_stays_readable(store: JsonV, tokens: RenewedV, room: nat)
    requires
        store.takes_members(),
        store.get("tokens"@).takes_members(),
        store.plain(room),
        room > 1,
    ensures
        store_with_tokens(store, tokens).plain(room),
{
    if store.member("tokens"@) is Some {
        assert(store->Obj_0.contains_key("tokens"@));
    }
    law_renewed_session_stays_readable(store.get("tokens"@), tokens, (room - 1) as nat);
    lemma_with_stays_plain(
        store,
        "tokens"@,
        with_tokens(store.get("tokens"@), tokens),
        room,
    );
}

/// Where a way stands after a sequence of events, and what is to be done then.
pub open spec fn token_run(
    state: TokenStateV,
    action: TokenActionV,
    events: Seq<TokenEventV>,
) -> (TokenStateV, TokenActionV)
    decreases events.len(),
{
    if events.len() == 0 {
        (state, action)
    } else {
        let (next, then) = token_step(state, events[0]);
        token_run(next, then, events.drop_first())
    }
}

/// Whether each event of a sequence is one that is awaited when it comes.
pub open spec fn token_events_fit(state: TokenStateV, events: Seq<TokenEventV>) -> bool
    decreases events.len(),
{
    events.len() > 0 ==> state.awaits(events[0]) && token_events_fit(
        token_step(state, events[0]).0,
        events.drop_first(),
    )
}

/// Every way comes to its end within as many steps as its state has left, from the start
/// within seven.
pub proof fn law_every_way_ends(state: TokenStateV, events: Seq<TokenEventV>)
    requires
        token_events_fit(state, events),
    ensures
        events.len() <= state.steps_left(),
    decreases events.len(),
{
    if events.len() > 0 {
        law_every_way_ends(token_step(state, events[0]).0, events.drop_first());
    }
}

/// Whether a renewal among the events gave that token.
pub open spec fn renewed_among(events: Seq<TokenEventV>, token: Seq<char>) -> bool {
    exists|i: int|
        0 <= i < events.len() && (#[trigger] events[i]) is Refreshed && events[i]->Refreshed_0 is Ok
            && events[i]->Refreshed_0->Ok_0.access == token
}

proof fn lemma_forced(
    state: TokenStateV,
    action: TokenActionV,
    events: Seq<TokenEventV>,
    token: Seq<char>,
)
    requires
        token_events_fit(state, events),
        events.len() > 0,
        token_run(state, action, events).1 == TokenActionV::Finish(Ok::<Seq<char>, ErrorV>(token)),
        match state {
            TokenStateV::Session { force } => force,
            TokenStateV::OwnRefresh { force, .. } => force,
            TokenStateV::OwnDrop { force } => force,
            TokenStateV::Marker { force } => force,
            TokenStateV::Store { force } => force,
            _ => true,
        },
    ensures
        renewed_among(events, token) || state == (TokenStateV::OwnSave { token }) || state == (
        TokenStateV::StoreSave { token }),
    decreases events.len(),
{
    let (next, then) = token_step(state, events[0]);
    let rest = events.drop_first();
    if rest.len() > 0 {
        lemma_forced(next, then, rest, token);
        if renewed_among(rest, token) {
            let i = choose|i: int|
                0 <= i < rest.len() && (#[trigger] rest[i]) is Refreshed && rest[i]->Refreshed_0 is Ok
                    && rest[i]->Refreshed_0->Ok_0.access == token;
            assert(events[i + 1] == rest[i]);
        } else {
            assert(events[0] is Refreshed && events[0]->Refreshed_0->Ok_0.access == token);
        }
    } else {
        assert(token_run(next, then, rest) == (next, then));
    }
}

/// Where a renewal is forced, the token that comes out is one that the server renewed on the
/// way, whatever else happened.
pub proof fn law_forced_renewal_renews(events: Seq<TokenEventV>, token: Seq<char>)
    requires
        token_events_fit(TokenStateV::Session { force: true }, events),
        token_run(TokenStateV::Session { force: true }, TokenActionV::LoadSession, events).1
            == TokenActionV::Finish(Ok::<Seq<char>, ErrorV>(token)),
    ensures
        renewed_among(events, token),
{
    lemma_forced(TokenStateV::Session { force: true }, TokenActionV::LoadSession, events, token);
}

/// How often the server is asked for a renewal on a way.
pub open spec fn renewals(state: TokenStateV, action: TokenActionV, events: Seq<TokenEventV>) -> nat
    decreases events.len(),
{
    (if action is Refresh {
        1nat
    } else {
        0nat
    }) + if events.len() == 0 {
        0
    } else {
        let (next, then) = token_step(state, events[0]);
        renewals(next, then, events.drop_first())
    }
}

/// Where a stale session of the card's own is renewed and written, the next one who wants a token
/// reads what was written: both have the renewed token, and the server was asked once.
pub proof fn law_one_renewal_of_a_session_serves_two(session: JsonV, tokens: RenewedV, now: int)
    requires
        session.takes_members(),
        !usable(false, session.get("access_token"@).text_or_empty(), now),
        tokens.access.len() > 0,
        serves(expiry(tokens.access), now),
    ensures
        ({
            let start = TokenStateV::Session { force: false };
            let load = TokenActionV::LoadSession;
            let first = seq![
                TokenEventV::Session(Ok(Some(session)), now),
                TokenEventV::Refreshed(Ok(tokens)),
                TokenEventV::Saved,
            ];
            let second = seq![TokenEventV::Session(Ok(Some(with_tokens(session, tokens))), now)];
            let result = TokenActionV::Finish(Ok::<Seq<char>, ErrorV>(tokens.access));
            &&& token_run(start, load, first.take(2)).1 == TokenActionV::SaveSession(
                with_tokens(session, tokens),
            )
            &&& token_run(start, load, first).1 == result
            &&& token_run(start, load, second).1 == result
            &&& renewals(start, load, first) + renewals(start, load, second) == 1
        }),
{
    reveal_with_fuel(token_run, 4);
    reveal_with_fuel(renewals, 4);
    let first = seq![
        TokenEventV::Session(Ok(Some(session)), now),
        TokenEventV::Refreshed(Ok(tokens)),
        TokenEventV::Saved,
    ];
    assert(first.take(2).drop_first()[0] == first[1]);
    assert(first.drop_first()[0] == first[1]);
    assert(first.drop_first().drop_first()[0] == first[2]);
    law_renewed_session_is_reused(session, tokens, now);
}

/// Where a stale token of the desktop client's store is renewed and written, the next one who
/// wants a token reads what was written: both have the renewed token, and the server was asked
/// once.
pub proof fn law_one_renewal_of_a_store_serves_two(
    session: Result<Option<JsonV>, ErrorV>,
    store: JsonV,
    tokens: RenewedV,
    now: int,
)
    requires
        !(session is Ok && session->Ok_0 is Some),
        !usable(false, store.get("tokens"@).get("access_token"@).text_or_empty(), now),
        store.get("tokens"@).get("refresh_token"@) is Str,
        tokens.access.len() > 0,
        serves(expiry(tokens.access), now),
    ensures
        ({
            let start = TokenStateV::Session { force: false };
            let load = TokenActionV::LoadSession;
            let first = seq![
                TokenEventV::Session(session, now),
                TokenEventV::Marker(false),
                TokenEventV::Store(Ok(store), now),
                TokenEventV::Refreshed(Ok(tokens)),
                TokenEventV::Saved,
            ];
            let second = seq![
                TokenEventV::Session(session, now),
                TokenEventV::Marker(false),
                TokenEventV::Store(Ok(store_with_tokens(store, tokens)), now),
            ];
            let result = TokenActionV::Finish(Ok::<Seq<char>, ErrorV>(tokens.access));
            &&& token_run(start, load, first.take(4)).1 == TokenActionV::SaveStore(
                store_with_tokens(store, tokens),
            )
            &&& token_run(start, load, first).1 == result
            &&& token_run(start, load, second).1 == result
            &&& renewals(start, load, first) + renewals(start, load, second) == 1
        }),
{
    reveal_with_fuel(token_run, 6);
    reveal_with_fuel(renewals, 6);
    let first = seq![
        TokenEventV::Session(session, now),
        TokenEventV::Marker(false),
        TokenEventV::Store(Ok(store), now),
        TokenEventV::Refreshed(Ok(tokens)),
        TokenEventV::Saved,
    ];
    let second = seq![
        TokenEventV::Session(session, now),
        TokenEventV::Marker(false),
        TokenEventV::Store(Ok(store_with_tokens(store, tokens)), now),
    ];
    let f4 = first.take(4);
    assert(f4.drop_first()[0] == first[1]);
    assert(f4.drop_first().drop_first()[0] == first[2]);
    assert(f4.drop_first().drop_first().drop_first()[0] == first[3]);
    assert(first.drop_first()[0] == first[1]);
    assert(first.drop_first().drop_first()[0] == first[2]);
    assert(first.drop_first().drop_first().drop_first()[0] == first[3]);
    assert(first.drop_first().drop_first().drop_first().drop_first()[0] == first[4]);
    assert(second.drop_first()[0] == second[1]);
    assert(second.drop_first().drop_first()[0] == second[2]);
    law_renewed_store_is_reused(store, tokens, now);
}

// ---- what each step hands on ----

/// Whether a renewal is forced or not, the token that it is asked with is the refresh token of the
/// session that was just read, empty where that is no text; the session goes along, and so does
/// the force.
pub proof fn law_a_session_is_renewed_with_its_refresh_token(force: bool, session: JsonV, now: int)
    ensures
        ({
            let (next, action) = token_step(
                TokenStateV::Session { force },
                TokenEventV::Session(Ok(Some(session)), now),
            );
            action is Refresh ==> {
                &&& session.get("refresh_token"@) is Str ==> session.get("refresh_token"@)
                    == JsonV::Str(action->Refresh_0)
                &&& !(session.get("refresh_token"@) is Str) ==> action->Refresh_0.len() == 0
                &&& next == (TokenStateV::OwnRefresh { force, session })
            }
        }),
{
}

/// Whether a renewal is forced or not, the token that it is asked with is the refresh token of the
/// store that was just read; without one there is no renewal, and the card is told to sign in.
pub proof fn law_a_store_is_renewed_with_its_refresh_token(force: bool, store: JsonV, now: int)
    ensures
        ({
            let held = store.get("tokens"@).get("refresh_token"@);
            let (next, action) = token_step(
                TokenStateV::Store { force },
                TokenEventV::Store(Ok(store), now),
            );
            &&& action is Refresh ==> held == JsonV::Str(action->Refresh_0) && next == (
            TokenStateV::StoreRefresh { store })
            &&& action is Finish && action->Finish_0 is Err ==> !(held is Str)
                && action->Finish_0->Err_0 == plain_error(ErrorKind::NoRefreshToken)
            &&& action is Refresh || action is Finish
        }),
{
}

/// Whether a token says that it runs out within two minutes.
pub open spec fn runs_out_soon(token: Seq<char>, now: int) -> bool {
    expiry(token) is Some && expiry(token)->0 <= now + 120
}

/// A stored token is handed out just where no renewal is forced, there is one, and it does not
/// run out within two minutes; a session of the card's own is renewed in every other case, and so
/// is the store where it holds a refresh token.
pub proof fn law_stored_tokens_are_handed_out_while_they_serve(force: bool, doc: JsonV, now: int)
    ensures
        ({
            let own = doc.get("access_token"@);
            let action = token_step(
                TokenStateV::Session { force },
                TokenEventV::Session(Ok(Some(doc)), now),
            ).1;
            if !force && own is Str && own->Str_0.len() > 0 && !runs_out_soon(own->Str_0, now) {
                action == TokenActionV::Finish(Ok::<Seq<char>, ErrorV>(own->Str_0))
            } else {
                action is Refresh
            }
        }),
        ({
            let stored = doc.get("tokens"@).get("access_token"@);
            let action = token_step(
                TokenStateV::Store { force },
                TokenEventV::Store(Ok(doc), now),
            ).1;
            if !force && stored is Str && stored->Str_0.len() > 0 && !runs_out_soon(
                stored->Str_0,
                now,
            ) {
                action == TokenActionV::Finish(Ok::<Seq<char>, ErrorV>(stored->Str_0))
            } else {
                action is Refresh <==> doc.get("tokens"@).get("refresh_token"@) is Str
            }
        }),
{
}

/// A renewed session is written with the new access token, and the new refresh token where the
/// server gave one; all else in it stays. Then the new access token is handed out.
pub proof fn law_a_renewed_session_is_written_and_handed_out(
    force: bool,
    session: JsonV,
    tokens: RenewedV,
    name: Seq<char>,
)
    requires
        session.takes_members(),
    ensures
        ({
            let (next, action) = token_step(
                TokenStateV::OwnRefresh { force, session },
                TokenEventV::Refreshed(Ok(tokens)),
            );
            let written = action->SaveSession_0;
            &&& action is SaveSession
            &&& written.get("access_token"@) == JsonV::Str(tokens.access)
            &&& tokens.refresh is Some ==> written.get("refresh_token"@) == JsonV::Str(
                tokens.refresh->0,
            )
            &&& tokens.refresh is None ==> written.get("refresh_token"@) == session.get(
                "refresh_token"@,
            )
            &&& name != "access_token"@ && name != "refresh_token"@ ==> written.member(name)
                == session.member(name)
            &&& token_step(next, TokenEventV::Saved).1 == TokenActionV::Finish(
                Ok::<Seq<char>, ErrorV>(tokens.access),
            )
        }),
{
    lemma_token_names();
}

/// A renewed store is written with the new access token, and the new refresh token where the
/// server gave one; all else in it stays. Then the new access token is handed out. A renewal that
/// failed is the result.
pub proof fn law_a_renewed_store_is_written_and_handed_out(
    store: JsonV,
    tokens: RenewedV,
    name: Seq<char>,
    e: ErrorV,
    now: int,
)
    requires
        store.takes_members(),
        store.get("tokens"@).takes_members(),
    ensures
        ({
            let (next, action) = token_step(
                TokenStateV::StoreRefresh { store },
                TokenEventV::Refreshed(Ok(tokens)),
            );
            let written = action->SaveStore_0;
            let pair = written.get("tokens"@);
            &&& action is SaveStore
            &&& pair.get("access_token"@) == JsonV::Str(tokens.access)
            &&& tokens.refresh is Some ==> pair.get("refresh_token"@) == JsonV::Str(
                tokens.refresh->0,
            )
            &&& tokens.refresh is None ==> pair.get("refresh_token"@) == store.get("tokens"@).get(
                "refresh_token"@,
            )
            &&& name != "access_token"@ && name != "refresh_token"@ ==> pair.member(name)
                == store.get("tokens"@).member(name)
            &&& name != "tokens"@ ==> written.member(name) == store.member(name)
            &&& token_step(next, TokenEventV::Saved).1 == TokenActionV::Finish(
                Ok::<Seq<char>, ErrorV>(tokens.access),
            )
        }),
        token_step(
            TokenStateV::StoreRefresh { store },
            TokenEventV::Refreshed(Err(e)),
        ).1 == TokenActionV::Finish(Err::<Seq<char>, ErrorV>(e)),
        forall|force: bool|
            (#[trigger] token_step(TokenStateV::Store { force }, TokenEventV::Store(Err(e), now))).1
                == TokenActionV::Finish(Err::<Seq<char>, ErrorV>(e)),
{
    lemma_token_names();
}

/// A reply of the refresh endpoint gives the tokens that it holds, or tells why it gives none: the
/// refresh token is dead just where the status is 400 or 401, another status is told by its
/// number, and a request that failed by the transport's words.
pub proof fn law_refresh_replies_are_told_apart(reply: ReplyV)
    ensures
        refresh_meaning(reply) is Ok ==> {
            let doc = body_document(reply->Body_0)->0;
            let tokens = refresh_meaning(reply)->Ok_0;
            &&& reply is Body && body_document(reply->Body_0) is Some
            &&& doc.get("access_token"@) == JsonV::Str(tokens.access)
            &&& tokens.refresh is Some <==> doc.get("refresh_token"@) is Str
            &&& tokens.refresh is Some ==> doc.get("refresh_token"@) == JsonV::Str(
                tokens.refresh->0,
            )
        },
        refresh_meaning(reply) is Err ==> match refresh_meaning(reply)->Err_0.kind {
            ErrorKind::RefreshNoToken => reply is Body && body_document(reply->Body_0) is Some
                && !(body_document(reply->Body_0)->0.get("access_token"@) is Str),
            ErrorKind::RefreshUnreadable => reply is Body && body_document(reply->Body_0) is None,
            ErrorKind::RefreshDead => reply is Status && (reply->Status_0 == 400
                || reply->Status_0 == 401),
            ErrorKind::RefreshStatus(code) => reply is Status && code == reply->Status_0 && code
                != 400 && code != 401,
            ErrorKind::RefreshFailed => reply is Failed && refresh_meaning(reply)->Err_0.detail
                == reply->Failed_0,
            _ => false,
        },
{
}

/// A request for a renewal gets the official endpoint, and carries the refresh token that it is
/// made with.
pub proof fn law_renewals_carry_the_refresh_token(refresh_token: &str, r: Request)
    requires
        call_ensures(refresh_tokens, (refresh_token,), r),
    ensures
        r@.method is Get,
        r@.url == "https://www.kimi.com/api/auth/token/refresh"@,
        r@.headers == seq![
            ("Authorization"@, "Bearer "@ + refresh_token@),
            ("x-msh-platform"@, "web"@),
        ],
        r@.timeout_secs == 15,
{
}

} // verus!
