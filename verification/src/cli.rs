//! What the command line asks for, and the reports of the self-tests.

use vstd::prelude::*;

use crate::error::{error_text, AuthError};
use crate::json::{Json, JsonV};
use crate::text::same_text;

verus! {

/// A self-test that prints its report and ends the program.
#[derive(Clone, Copy, PartialEq, Eq, Structural, Debug)]
pub enum Check {
    /// The personal center.
    Profile,
    /// The whole QR login.
    Qr,
    /// The encryption of the session.
    Session,
    /// The ticket of the QR login.
    Login,
    /// The quota, with a forced renewal of the token or without.
    Quota { force: bool },
}

/// Whether one of the arguments is that one.
pub open spec fn given(args: Seq<String>, name: Seq<char>) -> bool {
    exists|i: int| 0 <= i < args.len() && (#[trigger] args[i])@ == name
}

fn is_given(args: &Vec<String>, name: &str) -> (r: bool)
    ensures
        r == given(args@, name@),
{
    for i in 0..args.len()
        invariant
            forall|j: int| 0 <= j < i ==> (#[trigger] args@[j])@ != name@,
    {
        if same_text(args[i].as_str(), name) {
            return true;
        }
    }
    false
}

/// The self-test that the arguments ask for. Of several the first in this order is run.
pub open spec fn check_asked(args: Seq<String>) -> Option<Check> {
    if given(args, "--check-profile"@) {
        Some(Check::Profile)
    } else if given(args, "--check-qr"@) {
        Some(Check::Qr)
    } else if given(args, "--check-session"@) {
        Some(Check::Session)
    } else if given(args, "--check-login"@) {
        Some(Check::Login)
    } else if given(args, "--check-refresh"@) {
        Some(Check::Quota { force: true })
    } else if given(args, "--check"@) {
        Some(Check::Quota { force: false })
    } else {
        None
    }
}

/// Finds the self-test that the arguments ask for.
pub fn self_check(args: &Vec<String>) -> (r: Option<Check>)
    ensures
        r == check_asked(args@),
{
    if is_given(args, "--check-profile") {
        Some(Check::Profile)
    } else if is_given(args, "--check-qr") {
        Some(Check::Qr)
    } else if is_given(args, "--check-session") {
        Some(Check::Session)
    } else if is_given(args, "--check-login") {
        Some(Check::Login)
    } else if is_given(args, "--check-refresh") {
        Some(Check::Quota { force: true })
    } else if is_given(args, "--check") {
        Some(Check::Quota { force: false })
    } else {
        None
    }
}

/// The trials of the login window that run beside the card.
#[derive(Clone, Copy, PartialEq, Eq, Structural, Debug)]
pub struct WebChecks {
    /// The window opens at once.
    pub now: bool,
    /// The window opens after a while.
    pub late: bool,
    /// The window opens on the local page about errors.
    pub error: bool,
}

/// Finds the trials of the login window that the arguments ask for.
pub fn web_checks(args: &Vec<String>) -> (r: WebChecks)
    ensures
        r.now == given(args@, "--check-weblogin"@),
        r.late == given(args@, "--check-weblogin-late"@),
        r.error == given(args@, "--check-weblogin-error"@),
{
    WebChecks {
        now: is_given(args, "--check-weblogin"),
        late: is_given(args, "--check-weblogin-late"),
        error: is_given(args, "--check-weblogin-error"),
    }
}

/// The report of a self-test that failed: the words of the error as they are.
pub open spec fn failed_report(message: Seq<char>) -> JsonV {
    JsonV::Null.with("ok"@, JsonV::Bool(false)).with("error"@, JsonV::Str(message))
}

/// The report of a self-test: its document, or the words of the error as they are.
pub fn report_of(r: Result<Json, AuthError>) -> (doc: Json)
    ensures
        doc@ == match r {
            Ok(j) => j@,
            Err(e) => failed_report(error_text(e@)),
        },
{
    match r {
        Ok(j) => j,
        Err(e) => failed_with(e.message()),
    }
}

/// The report of something that failed in the given words.
pub fn failed_with(message: String) -> (doc: Json)
    ensures
        doc@ == failed_report(message@),
{
    Json::Null.set("ok", Json::Bool(false)).set("error", Json::Str(message))
}

/// The report that something went well.
pub fn done() -> (doc: Json)
    ensures
        doc@ == JsonV::Null.with("ok"@, JsonV::Bool(true)),
{
    Json::Null.set("ok", Json::Bool(true))
}

/// The report of the self-test of the session's encryption.
pub fn session_report(r: Result<bool, AuthError>) -> (doc: Json)
    ensures
        doc@ == match r {
            Ok(true) => JsonV::Null.with("ok"@, JsonV::Bool(true)),
            Ok(false) => failed_report("crypto roundtrip mismatch"@),
            Err(e) => failed_report(error_text(e@)),
        },
{
    match r {
        Ok(true) => done(),
        Ok(false) => failed_with("crypto roundtrip mismatch".to_owned()),
        Err(e) => failed_with(e.message()),
    }
}

/// An argument is given just where it is one of the arguments.
pub proof fn law_given_arguments_are_among_them(args: Seq<String>, name: Seq<char>, i: int)
    ensures
        given(args, name) <==> args.map_values(|a: String| a@).contains(name),
        0 <= i < args.len() ==> given(args, args[i]@),
{
    let names = args.map_values(|a: String| a@);
    if given(args, name) {
        let j = choose|j: int| 0 <= j < args.len() && (#[trigger] args[j])@ == name;
        assert(names[j] == name);
    }
    if names.contains(name) {
        let j = choose|j: int| 0 <= j < names.len() && names[j] == name;
        assert(args[j]@ == name);
    }
}

/// Each self-test is run where its argument is given and none that goes before it; none is run
/// where none is given. A forced renewal is asked for by its own argument only.
pub proof fn law_self_tests_go_by_their_arguments(args: Seq<String>)
    ensures
        ({
            let profile = given(args, "--check-profile"@);
            let qr = given(args, "--check-qr"@);
            let session = given(args, "--check-session"@);
            let login = given(args, "--check-login"@);
            let refresh = given(args, "--check-refresh"@);
            let quota = given(args, "--check"@);
            let asked = check_asked(args);
            &&& asked == Some(Check::Profile) <==> profile
            &&& asked == Some(Check::Qr) <==> qr && !profile
            &&& asked == Some(Check::Session) <==> session && !profile && !qr
            &&& asked == Some(Check::Login) <==> login && !profile && !qr && !session
            &&& asked == Some(Check::Quota { force: true }) <==> refresh && !profile && !qr
                && !session && !login
            &&& asked == Some(Check::Quota { force: false }) <==> quota && !profile && !qr
                && !session && !login && !refresh
            &&& asked is None <==> !profile && !qr && !session && !login && !refresh && !quota
        }),
{
}

/// The report of a failure says that it is one, and why, in the words of the error.
pub proof fn law_failed_reports_say_why(message: Seq<char>)
    ensures
        failed_report(message).get("ok"@) == JsonV::Bool(false),
        failed_report(message).get("error"@) == JsonV::Str(message),
{
    reveal_strlit("ok");
    reveal_strlit("error");
    assert("ok"@.len() == 2 && "error"@.len() == 5);
}

/// Each trial of the login window is run just where its own argument is given.
pub proof fn law_trials_go_by_their_arguments(args: &Vec<String>, r: WebChecks)
    requires
        call_ensures(web_checks, (args,), r),
    ensures
        r.now <==> given(args@, "--check-weblogin"@),
        r.late <==> given(args@, "--check-weblogin-late"@),
        r.error <==> given(args@, "--check-weblogin-error"@),
{
}

/// The report of a self-test is its document, or says that it failed and why; that of the
/// session's encryption is well just where the text came back.
pub proof fn law_reports_say_how_it_went(
    r: Result<Json, AuthError>,
    doc: Json,
    trial: Result<bool, AuthError>,
    told: Json,
)
    requires
        call_ensures(report_of, (r,), doc),
        call_ensures(session_report, (trial,), told),
    ensures
        r is Ok ==> doc@ == r->Ok_0@,
        r is Err ==> doc@.get("ok"@) == JsonV::Bool(false) && doc@.get("error"@) == JsonV::Str(
            error_text(r->Err_0@),
        ),
        told@.get("ok"@) == JsonV::Bool(true) <==> trial is Ok && trial->Ok_0,
        trial is Err ==> told@.get("error"@) == JsonV::Str(error_text(trial->Err_0@)),
        trial is Ok && !trial->Ok_0 ==> told@.get("error"@) == JsonV::Str(
            "crypto roundtrip mismatch"@,
        ),
{
    if r is Err {
        law_failed_reports_say_why(error_text(r->Err_0@));
    }
    if trial is Err {
        law_failed_reports_say_why(error_text(trial->Err_0@));
    }
    law_failed_reports_say_why("crypto roundtrip mismatch"@);
}

} // verus!
