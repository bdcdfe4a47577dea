//! The access token that is stored already, taken as it is: no token is renewed and nothing is
//! written on the way to it.

use vstd::prelude::*;

use crate::codec::text_outcome;
use crate::error::{plain_error, AuthError, ErrorKind, ErrorV};
use crate::json::{Json, JsonV};
use crate::store::{document_outcome, session_outcome};

verus! {

/// What is kept on disk of the accounts: the card's own session, the desktop client's store,
/// and the mark of a sign-out.
pub struct DiskV {
    pub session: Option<JsonV>,
    pub store: Option<JsonV>,
    pub marker: bool,
}

/// Where the way to the stored token stands.
#[derive(Clone, Copy, PartialEq, Eq, Structural, Debug)]
pub enum StoredState {
    /// The card's own session is being looked for.
    Session,
    /// The mark of an explicit sign-out is being looked for.
    Marker,
    /// The desktop client's store is being read.
    Store,
    End,
}

/// What is to be done next.
#[derive(Debug)]
pub enum StoredAction {
    LoadSession,
    CheckMarker,
    LoadStore,
    /// Nothing: this is the result.
    Finish(Result<String, AuthError>),
}

/// What came of it.
#[derive(Debug)]
pub enum StoredEvent {
    Session(Result<Option<Json>, AuthError>),
    Marker(bool),
    Store(Result<Json, AuthError>),
}

pub enum StoredActionV {
    LoadSession,
    CheckMarker,
    LoadStore,
    Finish(Result<Seq<char>, ErrorV>),
}

pub enum StoredEventV {
    Session(Result<Option<JsonV>, ErrorV>),
    Marker(bool),
    Store(Result<JsonV, ErrorV>),
}

impl View for StoredAction {
    type V = StoredActionV;

    open spec fn view(&self) -> StoredActionV {
        match self {
            StoredAction::LoadSession => StoredActionV::LoadSession,
            StoredAction::CheckMarker => StoredActionV::CheckMarker,
            StoredAction::LoadStore => StoredActionV::LoadStore,
            StoredAction::Finish(r) => StoredActionV::Finish(text_outcome(*r)),
        }
    }
}

impl View for StoredEvent {
    type V = StoredEventV;

    open spec fn view(&self) -> StoredEventV {
        match self {
            StoredEvent::Session(r) => StoredEventV::Session(session_outcome(*r)),
            StoredEvent::Marker(b) => StoredEventV::Marker(*b),
            StoredEvent::Store(r) => StoredEventV::Store(document_outcome(*r)),
        }
    }
}

impl StoredState {
    /// Whether that is what can come of the action that the state waits for.
    pub open spec fn awaits(self, event: StoredEventV) -> bool {
        match self {
            StoredState::Session => event is Session,
            StoredState::Marker => event is Marker,
            StoredState::Store => event is Store,
            StoredState::End => false,
        }
    }

    /// How many steps are left at most.
    pub open spec fn steps_left(self) -> nat {
        match self {
            StoredState::Session => 3,
            StoredState::Marker => 2,
            StoredState::Store => 1,
            StoredState::End => 0,
        }
    }
}

/// The access token that a session, or the member `tokens` of a store, holds.
pub open spec fn held_token(doc: JsonV) -> Result<Seq<char>, ErrorV> {
    let token = doc.get("access_token"@).text_or_empty();
    if token.len() > 0 {
        Ok(token)
    } else {
        Err(plain_error(ErrorKind::NoStoredToken))
    }
}

fn token_held(doc: &Json) -> (r: Result<String, AuthError>)
    ensures
        text_outcome(r) == held_token(doc@),
{
    match doc.text_at("access_token") {
        Some(token) => if token.is_empty() {
            Err(AuthError::new(ErrorKind::NoStoredToken))
        } else {
            Ok(token.to_owned())
        },
        None => Err(AuthError::new(ErrorKind::NoStoredToken)),
    }
}

/// What an event leads to: the token of the card's own session where there is one, else that of
/// the desktop client's store, unless the user signed out. A session that cannot be read counts
/// as none.
pub open spec fn stored_step(state: StoredState, event: StoredEventV) -> (
    StoredState,
    StoredActionV,
) {
    match (state, event) {
        (StoredState::Session, StoredEventV::Session(Ok(Some(session)))) => (
            StoredState::End,
            StoredActionV::Finish(held_token(session)),
        ),
        (StoredState::Session, StoredEventV::Session(_)) => (
            StoredState::Marker,
            StoredActionV::CheckMarker,
        ),
        (StoredState::Marker, StoredEventV::Marker(signed_out)) => if signed_out {
            (StoredState::End, StoredActionV::Finish(Err(plain_error(ErrorKind::SignedOut))))
        } else {
            (StoredState::Store, StoredActionV::LoadStore)
        },
        (StoredState::Store, StoredEventV::Store(Ok(store))) => (
            StoredState::End,
            StoredActionV::Finish(held_token(store.get("tokens"@))),
        ),
        (StoredState::Store, StoredEventV::Store(Err(e))) => (
            StoredState::End,
            StoredActionV::Finish(Err(e)),
        ),
        _ => (StoredState::End, StoredActionV::Finish(Err(plain_error(ErrorKind::System)))),
    }
}

/// Starts the way to the stored token.
pub fn stored_access_token() -> (r: (StoredState, StoredAction))
    ensures
        r.0 == StoredState::Session,
        r.1@ == StoredActionV::LoadSession,
{
    (StoredState::Session, StoredAction::LoadSession)
}

/// Goes one step on.
pub fn stored_next(state: StoredState, event: StoredEvent) -> (r: (StoredState, StoredAction))
    requires
        state.awaits(event@),
    ensures
        (r.0, r.1@) == stored_step(state, event@),
        r.0.steps_left() < state.steps_left(),
        r.1@ is Finish <==> r.0 is End,
{
    match (state, event) {
        (StoredState::Session, StoredEvent::Session(Ok(Some(session)))) => (
            StoredState::End,
            StoredAction::Finish(token_held(&session)),
        ),
        (StoredState::Session, _) => (StoredState::Marker, StoredAction::CheckMarker),
        (StoredState::Marker, StoredEvent::Marker(false)) => (
            StoredState::Store,
            StoredAction::LoadStore,
        ),
        (StoredState::Marker, _) => (
            StoredState::End,
            StoredAction::Finish(Err(AuthError::new(ErrorKind::SignedOut))),
        ),
        (StoredState::Store, StoredEvent::Store(Ok(store))) => (
            StoredState::End,
            StoredAction::Finish(
                match store.member("tokens") {
                    Some(tokens) => token_held(tokens),
                    None => Err(AuthError::new(ErrorKind::NoStoredToken)),
                },
            ),
        ),
        (StoredState::Store, StoredEvent::Store(Err(e))) => (
            StoredState::End,
            StoredAction::Finish(Err(e)),
        ),
        _ => (StoredState::End, StoredAction::Finish(Err(AuthError::new(ErrorKind::System)))),
    }
}

/// What is on disk once an action was carried out: each one only reads.
pub open spec fn disk_after_stored(action: StoredActionV, disk: DiskV) -> DiskV {
    match action {
        StoredActionV::LoadSession => disk,
        StoredActionV::CheckMarker => disk,
        StoredActionV::LoadStore => disk,
        StoredActionV::Finish(_) => disk,
    }
}

/// A token that comes out is the one that is on disk, in the card's own session or else in the
/// desktop client's store: none is renewed.
pub proof fn law_stored_token_is_the_one_on_disk(disk: DiskV, token: Seq<char>)
    requires
        ({
            let (s1, a1) = stored_step(
                StoredState::Session,
                StoredEventV::Session(Ok(disk.session)),
            );
            let (s2, a2) = stored_step(s1, StoredEventV::Marker(disk.marker));
            let (s3, a3) = stored_step(s2, StoredEventV::Store(Ok(disk.store->0)));
            let result = StoredActionV::Finish(Ok::<Seq<char>, ErrorV>(token));
            a1 == result || (s1 is Marker && a2 == result) || (s2 is Store && a3 == result)
        }),
    ensures
        match disk.session {
            Some(session) => session.get("access_token"@) == JsonV::Str(token),
            None => !disk.marker && disk.store->0.get("tokens"@).get("access_token"@)
                == JsonV::Str(token),
        },
{
}

/// A token is held where there is a text under `access_token` that is not empty, and that text it
/// is; else the failure says that none is stored.
pub proof fn law_a_held_token_is_the_one_in_the_document(doc: JsonV)
    ensures
        held_token(doc) is Ok <==> doc.get("access_token"@) is Str && doc.get(
            "access_token"@,
        )->Str_0.len() > 0,
        held_token(doc) is Ok ==> doc.get("access_token"@) == JsonV::Str(held_token(doc)->Ok_0),
        held_token(doc) is Err ==> held_token(doc)->Err_0 == plain_error(ErrorKind::NoStoredToken),
{
}

/// The way to the stored token: a session that can be read settles it; without one the mark of a
/// sign-out ends it, else the store is read, and a store that cannot be read is the failure.
pub proof fn law_the_way_to_the_stored_token(
    session: Result<Option<JsonV>, ErrorV>,
    store: JsonV,
    e: ErrorV,
)
    ensures
        session is Ok && session->Ok_0 is Some ==> stored_step(
            StoredState::Session,
            StoredEventV::Session(session),
        ).1 == StoredActionV::Finish(held_token(session->Ok_0->0)),
        !(session is Ok && session->Ok_0 is Some) ==> stored_step(
            StoredState::Session,
            StoredEventV::Session(session),
        ) == (StoredState::Marker, StoredActionV::CheckMarker),
        stored_step(StoredState::Marker, StoredEventV::Marker(true)).1 == StoredActionV::Finish(
            Err::<Seq<char>, ErrorV>(plain_error(ErrorKind::SignedOut)),
        ),
        stored_step(StoredState::Marker, StoredEventV::Marker(false)) == (
            StoredState::Store,
            StoredActionV::LoadStore,
        ),
        stored_step(StoredState::Store, StoredEventV::Store(Ok(store))).1 == StoredActionV::Finish(
            held_token(store.get("tokens"@)),
        ),
        stored_step(StoredState::Store, StoredEventV::Store(Err(e))).1 == StoredActionV::Finish(
            Err::<Seq<char>, ErrorV>(e),
        ),
{
}

} // verus!
