//! The self-test of the QR login: a ticket is made, confirmed with the stored token as a phone
//! would, and looked at again. The account is left as it is.

use vstd::prelude::*;

use crate::codec::text_outcome;
use crate::error::{plain_error, AuthError, ErrorKind, ErrorV};
use crate::http::{Request, RequestV};
use crate::json::{compact_text, Json, JsonV};
use crate::login::{
    confirm_login_qr, login_qr_create, poll_login_qr_status, qr_report, qr_report_of,
};
use crate::rpc::rpc_request;
use crate::store::document_outcome;
use crate::stored::{
    disk_after_stored, stored_access_token, stored_next, stored_step, DiskV, StoredAction,
    StoredActionV, StoredEvent, StoredEventV, StoredState,
};

verus! {

/// Where the self-test stands.
#[derive(Debug)]
pub enum QrCheckState {
    /// A ticket is being made.
    Ticket,
    /// The device's id is being got.
    Device { code: String },
    /// The stored token is being got, as it is.
    Token { code: String, device: String, stored: StoredState },
    /// The ticket is being confirmed.
    Confirm { code: String },
    /// The ticket is being looked at.
    Poll,
    End,
}

/// What is to be done next.
#[derive(Debug)]
pub enum QrCheckAction {
    Ask(Request),
    GetDevice,
    /// Do this on the way to the stored token.
    Stored(StoredAction),
    /// Nothing: this is the report, or why there is none.
    Finish(Result<Json, AuthError>),
}

/// What came of it.
#[derive(Debug)]
pub enum QrCheckEvent {
    Answer(Result<Json, AuthError>),
    Device(Result<String, AuthError>),
    Stored(StoredEvent),
}

pub enum QrCheckStateV {
    Ticket,
    Device { code: Seq<char> },
    Token { code: Seq<char>, device: Seq<char>, stored: StoredState },
    Confirm { code: Seq<char> },
    Poll,
    End,
}

pub enum QrCheckActionV {
    Ask(RequestV),
    GetDevice,
    Stored(StoredActionV),
    Finish(Result<JsonV, ErrorV>),
}

pub enum QrCheckEventV {
    Answer(Result<JsonV, ErrorV>),
    Device(Result<Seq<char>, ErrorV>),
    Stored(StoredEventV),
}

impl View for QrCheckState {
    type V = QrCheckStateV;

    open spec fn view(&self) -> QrCheckStateV {
        match self {
            QrCheckState::Ticket => QrCheckStateV::Ticket,
            QrCheckState::Device { code } => QrCheckStateV::Device { code: code@ },
            QrCheckState::Token { code, device, stored } => QrCheckStateV::Token {
                code: code@,
                device: device@,
                stored: *stored,
            },
            QrCheckState::Confirm { code } => QrCheckStateV::Confirm { code: code@ },
            QrCheckState::Poll => QrCheckStateV::Poll,
            QrCheckState::End => QrCheckStateV::End,
        }
    }
}

impl View for QrCheckAction {
    type V = QrCheckActionV;

    open spec fn view(&self) -> QrCheckActionV {
        match self {
            QrCheckAction::Ask(request) => QrCheckActionV::Ask(request@),
            QrCheckAction::GetDevice => QrCheckActionV::GetDevice,
            QrCheckAction::Stored(action) => QrCheckActionV::Stored(action@),
            QrCheckAction::Finish(r) => QrCheckActionV::Finish(document_outcome(*r)),
        }
    }
}

impl View for QrCheckEvent {
    type V = QrCheckEventV;

    open spec fn view(&self) -> QrCheckEventV {
        match self {
            QrCheckEvent::Answer(r) => QrCheckEventV::Answer(document_outcome(*r)),
            QrCheckEvent::Device(r) => QrCheckEventV::Device(text_outcome(*r)),
            QrCheckEvent::Stored(event) => QrCheckEventV::Stored(event@),
        }
    }
}

impl QrCheckStateV {
    /// Whether that is what can come of the action that the state waits for.
    pub open spec fn awaits(self, event: QrCheckEventV) -> bool {
        match self {
            QrCheckStateV::Ticket => event is Answer,
            QrCheckStateV::Device { .. } => event is Device,
            QrCheckStateV::Token { stored, .. } => event is Stored && stored.awaits(
                event->Stored_0,
            ),
            QrCheckStateV::Confirm { .. } => event is Answer,
            QrCheckStateV::Poll => event is Answer,
            QrCheckStateV::End => false,
        }
    }

    /// How many steps are left at most.
    pub open spec fn steps_left(self) -> nat {
        match self {
            QrCheckStateV::Ticket => 7,
            QrCheckStateV::Device { .. } => 6,
            QrCheckStateV::Token { stored, .. } => 2 + stored.steps_left(),
            QrCheckStateV::Confirm { .. } => 2,
            QrCheckStateV::Poll => 1,
            QrCheckStateV::End => 0,
        }
    }
}

/// The request for a ticket.
pub open spec fn ticket_request() -> RequestV {
    rpc_request("account.gateway.v1.AuthService/CreateLoginQRCode"@, "{}"@, None)
}

/// The request that confirms a ticket.
pub open spec fn confirm_request(
    code: Seq<char>,
    device: Seq<char>,
    token: Seq<char>,
) -> RequestV {
    rpc_request(
        "account.gateway.v1.AuthService/ConfirmLoginQRCode"@,
        compact_text(
            JsonV::Null.with("code"@, JsonV::Str(code)).with("device_id"@, JsonV::Str(device)),
        ),
        Some(token),
    )
}

/// The request for the state of a ticket.
pub open spec fn status_request(code: Seq<char>) -> RequestV {
    rpc_request(
        "account.gateway.v1.AuthService/GetLoginQRCodeStatus"@,
        compact_text(JsonV::Null.with("code"@, JsonV::Str(code))),
        None,
    )
}

/// What an event leads to: the first failure is the result, else the report on the ticket that
/// was made and confirmed.
pub open spec fn qr_check_step(state: QrCheckStateV, event: QrCheckEventV) -> (
    QrCheckStateV,
    QrCheckActionV,
) {
    match (state, event) {
        (QrCheckStateV::Ticket, QrCheckEventV::Answer(Ok(doc))) => match doc.get("code"@).text() {
            Some(code) => (QrCheckStateV::Device { code }, QrCheckActionV::GetDevice),
            None => (
                QrCheckStateV::End,
                QrCheckActionV::Finish(Err(plain_error(ErrorKind::NoTicket))),
            ),
        },
        (QrCheckStateV::Device { code }, QrCheckEventV::Device(Ok(device))) => (
            QrCheckStateV::Token { code, device, stored: StoredState::Session },
            QrCheckActionV::Stored(StoredActionV::LoadSession),
        ),
        (QrCheckStateV::Device { .. }, QrCheckEventV::Device(Err(e))) => (
            QrCheckStateV::End,
            QrCheckActionV::Finish(Err(e)),
        ),
        (QrCheckStateV::Token { code, device, stored }, QrCheckEventV::Stored(e)) => {
            let (next, action) = stored_step(stored, e);
            match action {
                StoredActionV::Finish(Ok(token)) => (
                    QrCheckStateV::Confirm { code },
                    QrCheckActionV::Ask(confirm_request(code, device, token)),
                ),
                StoredActionV::Finish(Err(e)) => (
                    QrCheckStateV::End,
                    QrCheckActionV::Finish(Err(e)),
                ),
                _ => (
                    QrCheckStateV::Token { code, device, stored: next },
                    QrCheckActionV::Stored(action),
                ),
            }
        },
        (QrCheckStateV::Confirm { code }, QrCheckEventV::Answer(Ok(_))) => (
            QrCheckStateV::Poll,
            QrCheckActionV::Ask(status_request(code)),
        ),
        (QrCheckStateV::Poll, QrCheckEventV::Answer(Ok(doc))) => (
            QrCheckStateV::End,
            QrCheckActionV::Finish(Ok(qr_report(doc))),
        ),
        (_, QrCheckEventV::Answer(Err(e))) => (
            QrCheckStateV::End,
            QrCheckActionV::Finish(Err(e)),
        ),
        _ => (QrCheckStateV::End, QrCheckActionV::Finish(Err(plain_error(ErrorKind::System)))),
    }
}

/// Starts the self-test of the QR login.
pub fn check_qr_login() -> (r: (QrCheckState, QrCheckAction))
    ensures
        r.0@ == QrCheckStateV::Ticket,
        r.1@ == QrCheckActionV::Ask(ticket_request()),
{
    (QrCheckState::Ticket, QrCheckAction::Ask(login_qr_create()))
}

fn failed(e: AuthError) -> (r: (QrCheckState, QrCheckAction))
    ensures
        r.0@ is End,
        r.1@ == QrCheckActionV::Finish(Err::<JsonV, ErrorV>(e@)),
{
    (QrCheckState::End, QrCheckAction::Finish(Err(e)))
}

/// Goes one step on.
pub fn qr_check_next(state: QrCheckState, event: QrCheckEvent) -> (r: (QrCheckState, QrCheckAction))
    requires
        state@.awaits(event@),
    ensures
        (r.0@, r.1@) == qr_check_step(state@, event@),
        r.0@.steps_left() < state@.steps_left(),
        r.1@ is Finish <==> r.0@ is End,
{
    match (state, event) {
        (QrCheckState::Ticket, QrCheckEvent::Answer(Ok(doc))) => match doc.text_at("code") {
            Some(code) => (QrCheckState::Device { code: code.to_owned() }, QrCheckAction::GetDevice),
            None => failed(AuthError::new(ErrorKind::NoTicket)),
        },
        (QrCheckState::Device { code }, QrCheckEvent::Device(Ok(device))) => {
            let (stored, action) = stored_access_token();
            (QrCheckState::Token { code, device, stored }, QrCheckAction::Stored(action))
        },
        (QrCheckState::Device { .. }, QrCheckEvent::Device(Err(e))) => failed(e),
        (QrCheckState::Token { code, device, stored }, QrCheckEvent::Stored(e)) => {
            let (next, action) = stored_next(stored, e);
            match action {
                StoredAction::Finish(Ok(token)) => {
                    let request: Request = confirm_login_qr(
                        code.as_str(),
                        device.as_str(),
                        token.as_str(),
                    );
                    (QrCheckState::Confirm { code }, QrCheckAction::Ask(request))
                },
                StoredAction::Finish(Err(e)) => failed(e),
                other => (
                    QrCheckState::Token { code, device, stored: next },
                    QrCheckAction::Stored(other),
                ),
            }
        },
        (QrCheckState::Confirm { code }, QrCheckEvent::Answer(Ok(_))) => (
            QrCheckState::Poll,
            QrCheckAction::Ask(poll_login_qr_status(code.as_str())),
        ),
        (QrCheckState::Poll, QrCheckEvent::Answer(Ok(doc))) => (
            QrCheckState::End,
            QrCheckAction::Finish(Ok(qr_report_of(doc))),
        ),
        (_, QrCheckEvent::Answer(Err(e))) => failed(e),
        _ => failed(AuthError::new(ErrorKind::System)),
    }
}

// ---- what holds of the self-test as a whole ----

/// What is on disk once an action was carried out: requests go to the service, and the way to
/// the stored token only reads. The device's id, which may be made on the way, lies elsewhere.
pub open spec fn disk_after_qr_check(action: QrCheckActionV, disk: DiskV) -> DiskV {
    match action {
        QrCheckActionV::Ask(_) => disk,
        QrCheckActionV::GetDevice => disk,
        QrCheckActionV::Stored(stored) => disk_after_stored(stored, disk),
        QrCheckActionV::Finish(_) => disk,
    }
}

/// What is to be done after a sequence of events, and what is on disk.
pub open spec fn qr_check_run(
    state: QrCheckStateV,
    action: QrCheckActionV,
    events: Seq<QrCheckEventV>,
    disk: DiskV,
) -> (QrCheckActionV, DiskV)
    decreases events.len(),
{
    if events.len() == 0 {
        (action, disk)
    } else {
        let (next, then) = qr_check_step(state, events[0]);
        qr_check_run(next, then, events.drop_first(), disk_after_qr_check(action, disk))
    }
}

/// The self-test persists nothing: the card's own session, the desktop client's store and the
/// mark of a sign-out are at every point as they were, whatever the service answers.
pub proof fn law_qr_check_persists_nothing(
    state: QrCheckStateV,
    action: QrCheckActionV,
    events: Seq<QrCheckEventV>,
    disk: DiskV,
)
    ensures
        qr_check_run(state, action, events, disk).1 == disk,
    decreases events.len(),
{
    if events.len() > 0 {
        let (next, then) = qr_check_step(state, events[0]);
        law_qr_check_persists_nothing(next, then, events.drop_first(), disk);
    }
}

/// The report says that all is well just where the ticket was confirmed and both tokens came.
pub proof fn law_qr_report_is_well(doc: JsonV)
    ensures
        qr_report(doc).get("ok"@) == JsonV::Bool(
            qr_report(doc).get("status"@) == JsonV::Str("STATUS_SUCCESS"@) && qr_report(doc).get(
                "hasAccessToken"@,
            ) == JsonV::Bool(true) && qr_report(doc).get("hasRefreshToken"@) == JsonV::Bool(true),
        ),
{
    reveal_strlit("ok");
    reveal_strlit("status");
    reveal_strlit("hasAccessToken");
    reveal_strlit("hasRefreshToken");
    reveal_strlit("userId");
    assert("ok"@.len() == 2 && "status"@.len() == 6 && "hasAccessToken"@.len() == 14);
    assert("hasRefreshToken"@.len() == 15 && "userId"@.len() == 6);
    assert("status"@[0] == 's' && "userId"@[0] == 'u');
}

/// The ticket that was made is the one that is confirmed, with the device's id and the stored
/// token, and the one that is looked at afterwards.
pub proof fn law_the_ticket_made_is_confirmed_and_looked_at(
    doc: JsonV,
    device: Seq<char>,
    token: Seq<char>,
    event: StoredEventV,
    stored: StoredState,
    reply: JsonV,
    last: JsonV,
)
    requires
        doc.get("code"@) is Str,
        stored_step(stored, event).1 == StoredActionV::Finish(Ok::<Seq<char>, ErrorV>(token)),
    ensures
        ({
            let code = doc.get("code"@)->Str_0;
            let (s1, a1) = qr_check_step(QrCheckStateV::Ticket, QrCheckEventV::Answer(Ok(doc)));
            let (s2, a2) = qr_check_step(s1, QrCheckEventV::Device(Ok(device)));
            let (s3, a3) = qr_check_step(
                QrCheckStateV::Token { code, device, stored },
                QrCheckEventV::Stored(event),
            );
            let (s4, a4) = qr_check_step(s3, QrCheckEventV::Answer(Ok(reply)));
            let (s5, a5) = qr_check_step(s4, QrCheckEventV::Answer(Ok(last)));
            &&& a1 is GetDevice
            &&& s2 == (QrCheckStateV::Token { code, device, stored: StoredState::Session })
            &&& a2 == QrCheckActionV::Stored(StoredActionV::LoadSession)
            &&& a3 == QrCheckActionV::Ask(confirm_request(code, device, token))
            &&& a4 == QrCheckActionV::Ask(status_request(code))
            &&& s5 is End
            &&& a5 == QrCheckActionV::Finish(Ok::<JsonV, ErrorV>(qr_report(last)))
        }),
{
}

/// The way to the stored token is taken step by step, and keeps the ticket and the device.
pub proof fn law_the_stored_token_is_got_step_by_step(
    code: Seq<char>,
    device: Seq<char>,
    stored: StoredState,
    event: StoredEventV,
)
    requires
        !(stored_step(stored, event).1 is Finish),
    ensures
        qr_check_step(
            QrCheckStateV::Token { code, device, stored },
            QrCheckEventV::Stored(event),
        ) == (
            QrCheckStateV::Token { code, device, stored: stored_step(stored, event).0 },
            QrCheckActionV::Stored(stored_step(stored, event).1),
        ),
{
}

/// The first failure ends the self-test and is its result: of the service, of the device's id, or
/// on the way to the stored token; and so is a reply without a ticket.
pub proof fn law_the_first_failure_is_the_result(
    state: QrCheckStateV,
    code: Seq<char>,
    device: Seq<char>,
    stored: StoredState,
    event: StoredEventV,
    doc: JsonV,
    e: ErrorV,
)
    ensures
        state.awaits(QrCheckEventV::Answer(Err(e))) ==> qr_check_step(
            state,
            QrCheckEventV::Answer(Err(e)),
        ).1 == QrCheckActionV::Finish(Err::<JsonV, ErrorV>(e)),
        qr_check_step(QrCheckStateV::Device { code }, QrCheckEventV::Device(Err(e))).1
            == QrCheckActionV::Finish(Err::<JsonV, ErrorV>(e)),
        stored_step(stored, event).1 == StoredActionV::Finish(Err::<Seq<char>, ErrorV>(e))
            ==> qr_check_step(
            QrCheckStateV::Token { code, device, stored },
            QrCheckEventV::Stored(event),
        ).1 == QrCheckActionV::Finish(Err::<JsonV, ErrorV>(e)),
        !(doc.get("code"@) is Str) ==> qr_check_step(
            QrCheckStateV::Ticket,
            QrCheckEventV::Answer(Ok(doc)),
        ).1 == QrCheckActionV::Finish(Err::<JsonV, ErrorV>(plain_error(ErrorKind::NoTicket))),
{
}

/// A document that holds those texts under those names, and nothing else.
pub open spec fn holds_just(doc: JsonV, code: Seq<char>, device: Option<Seq<char>>) -> bool {
    &&& doc.get("code"@) == JsonV::Str(code)
    &&& device is Some ==> doc.get("device_id"@) == JsonV::Str(device->0)
    &&& forall|k: Seq<char>| #[trigger]
        doc.member(k) is Some ==> k == "code"@ || (device is Some && k == "device_id"@)
}

/// A ticket is asked for without a body of its own; it is confirmed with its code and the
/// device's id, in the name of the account whose token that is; and it is looked at by its code,
/// in nobody's name.
pub proof fn law_ticket_requests_carry_code_device_and_token(
    code: Seq<char>,
    device: Seq<char>,
    token: Seq<char>,
)
    ensures
        ticket_request().url
            == "https://auth.kimi.com/api/"@ + "account.gateway.v1.AuthService/CreateLoginQRCode"@,
        ticket_request().method == crate::http::MethodV::Post("{}"@),
        ticket_request().headers.len() == 2,
        confirm_request(code, device, token).url
            == "https://auth.kimi.com/api/"@ + "account.gateway.v1.AuthService/ConfirmLoginQRCode"@,
        exists|doc: JsonV| #[trigger]
            holds_just(doc, code, Some(device)) && confirm_request(code, device, token).method
                == crate::http::MethodV::Post(compact_text(doc)),
        confirm_request(code, device, token).headers.contains(
            ("Authorization"@, "Bearer "@ + token),
        ),
        status_request(code).url
            == "https://auth.kimi.com/api/"@ + "account.gateway.v1.AuthService/GetLoginQRCodeStatus"@,
        exists|doc: JsonV| #[trigger]
            holds_just(doc, code, None) && status_request(code).method
                == crate::http::MethodV::Post(compact_text(doc)),
        status_request(code).headers.len() == 2,
{
    reveal_strlit("code");
    reveal_strlit("device_id");
    assert("code"@.len() == 4 && "device_id"@.len() == 9);
    let both = JsonV::Null.with("code"@, JsonV::Str(code)).with("device_id"@, JsonV::Str(device));
    let one = JsonV::Null.with("code"@, JsonV::Str(code));
    assert(holds_just(both, code, Some(device)));
    assert(holds_just(one, code, None));
    assert(confirm_request(code, device, token).headers[2] == (
        "Authorization"@,
        "Bearer "@ + token,
    ));
}

} // verus!
