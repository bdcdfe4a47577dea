//! The window in which the user signs in on the official page: the addresses by which the page
//! reports back, and the watch over a page that stays blank or hangs.

use vstd::prelude::*;

use crate::http::pairs_of;
use crate::json::{chars_in, Json, JsonV};
use crate::login::{session, session_of};
use crate::text::{integer_value, parse_i64, same_text};

verus! {

/// The names and values that `url::form_urlencoded::parse` finds in a query.
pub uninterp spec fn query_pairs(query: Seq<char>) -> Seq<(Seq<char>, Seq<char>)>;

/// Calls `url::form_urlencoded::parse` on the bytes of a query. The pairs depend on the query
/// alone and go by the name `query_pairs`.
#[verifier::external_body]
fn parse_query(query: &str) -> (r: Vec<(String, String)>)
    ensures
        pairs_of(r@) == query_pairs(query@),
{
    url::form_urlencoded::parse(query.as_bytes()).into_owned().collect()
}

/// The value of the last pair of that name, where there is one.
pub open spec fn last_value(pairs: Seq<(Seq<char>, Seq<char>)>, name: Seq<char>) -> Option<Seq<char>>
    decreases pairs.len(),
{
    if pairs.len() == 0 {
        None
    } else if pairs.last().0 == name {
        Some(pairs.last().1)
    } else {
        last_value(pairs.drop_last(), name)
    }
}

/// Finds the value of the last pair of that name.
pub fn last_of<'a>(pairs: &'a Vec<(String, String)>, name: &str) -> (r: Option<&'a str>)
    ensures
        chars_in(r) == last_value(pairs_of(pairs@), name@),
{
    let mut i: usize = pairs.len();
    let ghost all = pairs_of(pairs@);
    assert(all.take(i as int) =~= all);
    while i > 0
        invariant
            i <= pairs@.len(),
            all == pairs_of(pairs@),
            last_value(all.take(i as int), name@) == last_value(all, name@),
        decreases i,
    {
        i = i - 1;
        assert(all.take(i + 1).drop_last() =~= all.take(i as int));
        assert(all.take(i + 1).last() == (pairs@[i as int].0@, pairs@[i as int].1@));
        if same_text(pairs[i].0.as_str(), name) {
            return Some(pairs[i].1.as_str());
        }
    }
    None
}

/// What an address that the page goes to means.
#[derive(Debug)]
pub enum Nav {
    /// The page goes there.
    Go,
    /// The page reports on its state: this is to be written down, and where it is blank the
    /// window is to show the local page about errors.
    Report { message: String, blank: bool },
    /// The page reports a login: the window is to be closed and the session to be written,
    /// where there is one.
    Login(Option<Json>),
}

pub enum NavV {
    Go,
    Report { message: Seq<char>, blank: bool },
    Login(Option<JsonV>),
}

impl View for Nav {
    type V = NavV;

    open spec fn view(&self) -> NavV {
        match self {
            Nav::Go => NavV::Go,
            Nav::Report { message, blank } => NavV::Report { message: message@, blank: *blank },
            Nav::Login(Some(j)) => NavV::Login(Some(j@)),
            Nav::Login(None) => NavV::Login(None),
        }
    }
}

/// A page with a body shorter than this counts as blank.
pub const BLANK_BELOW: i64 = 200;

/// The length of the page's body; -1 where the page does not give it as an integer of 64 bits.
pub open spec fn body_length(pairs: Seq<(Seq<char>, Seq<char>)>) -> int {
    match last_value(pairs, "bl"@) {
        Some(v) => match integer_value(v) {
            Some(n) => if i64::MIN <= n <= i64::MAX {
                n
            } else {
                -1
            },
            None => -1,
        },
        None => -1,
    }
}

/// Whether the page that reports is blank.
pub fn page_is_blank(pairs: &Vec<(String, String)>) -> (r: bool)
    ensures
        r == (body_length(pairs_of(pairs@)) < BLANK_BELOW),
{
    let length: i64 = match last_of(pairs, "bl") {
        Some(v) => match parse_i64(v) {
            Some(n) => n,
            None => -1,
        },
        None => -1,
    };
    length < BLANK_BELOW
}

/// The session that the page reports: both tokens must be there.
pub open spec fn reported_session(pairs: Seq<(Seq<char>, Seq<char>)>) -> Option<JsonV> {
    match (last_value(pairs, "at"@), last_value(pairs, "rt"@)) {
        (Some(access), Some(refresh)) => Some(
            session(
                access,
                refresh,
                match last_value(pairs, "uid"@) {
                    Some(user) => user,
                    None => Seq::empty(),
                },
                "web"@,
            ),
        ),
        _ => None,
    }
}

/// Makes the session that the page reports.
pub fn session_of_pairs(pairs: &Vec<(String, String)>) -> (r: Option<Json>)
    ensures
        (match r {
            Some(j) => Some(j@),
            None => None,
        }) == reported_session(pairs_of(pairs@)),
{
    match (last_of(pairs, "at"), last_of(pairs, "rt")) {
        (Some(access), Some(refresh)) => {
            let user: &str = match last_of(pairs, "uid") {
                Some(user) => user,
                None => "",
            };
            proof {
                reveal_strlit("");
                assert(""@ =~= Seq::<char>::empty());
            }
            Some(session_of(access, refresh, user, "web"))
        },
        _ => None,
    }
}

/// What an address means, by its path and its query.
pub open spec fn nav_meaning(path: Seq<char>, query: Seq<char>) -> NavV {
    if path == "/__kqb_diag__"@ {
        NavV::Report {
            message: "web-login diag: "@ + query,
            blank: body_length(query_pairs(query)) < BLANK_BELOW,
        }
    } else if path == "/__kqb_login_callback__"@ {
        NavV::Login(reported_session(query_pairs(query)))
    } else {
        NavV::Go
    }
}

/// Decides what an address that the page goes to means: two paths are reports of the page, and
/// the page goes to every other.
pub fn web_login_nav_handler(path: &str, query: Option<&str>) -> (r: Nav)
    ensures
        r@ == nav_meaning(
            path@,
            match query {
                Some(q) => q@,
                None => Seq::empty(),
            },
        ),
{
    let query: &str = match query {
        Some(q) => q,
        None => "",
    };
    proof {
        reveal_strlit("");
        assert(""@ =~= Seq::<char>::empty());
    }
    if same_text(path, "/__kqb_diag__") {
        let mut message: String = "web-login diag: ".to_owned();
        message.append(query);
        Nav::Report { message, blank: page_is_blank(&parse_query(query)) }
    } else if same_text(path, "/__kqb_login_callback__") {
        Nav::Login(session_of_pairs(&parse_query(query)))
    } else {
        Nav::Go
    }
}

/// The page goes to every address but the two by which it reports.
pub proof fn law_only_reports_are_held_back(path: Seq<char>, query: Seq<char>)
    ensures
        nav_meaning(path, query) is Go <==> path != "/__kqb_diag__"@ && path
            != "/__kqb_login_callback__"@,
{
}

/// A report without the length of the page counts as one of a blank page.
pub proof fn law_silent_page_is_blank(pairs: Seq<(Seq<char>, Seq<char>)>)
    requires
        last_value(pairs, "bl"@) is None,
    ensures
        body_length(pairs) < BLANK_BELOW,
{
}

// ---- the watch over the page ----

/// Where the watch over the page stands.
#[derive(Clone, Copy, PartialEq, Eq, Structural, Debug)]
pub enum WatchState {
    /// The page is given time to appear.
    Waiting,
    /// The page has been asked for its state.
    Asked,
    End,
}

/// What is to be done next.
#[derive(Clone, Copy, PartialEq, Eq, Structural, Debug)]
pub enum WatchAction {
    /// Wait for so many seconds, and then look at which host the window is.
    LookAfter(u64),
    /// Ask the page for its state, wait for so many seconds, and then see whether it answered.
    AskThenWait(u64),
    /// Make the window anew, on the local page about errors.
    Rebuild,
    /// Nothing.
    Finish,
}

/// What came of it.
#[derive(Debug)]
pub enum WatchEvent<'a> {
    /// There is no window.
    Gone,
    /// The window is at this host, where its address has one.
    At(Option<&'a str>),
    /// Whether the page answered.
    Answered(bool),
}

pub enum WatchEventV {
    Gone,
    At(Option<Seq<char>>),
    Answered(bool),
}

impl<'a> View for WatchEvent<'a> {
    type V = WatchEventV;

    open spec fn view(&self) -> WatchEventV {
        match self {
            WatchEvent::Gone => WatchEventV::Gone,
            WatchEvent::At(host) => WatchEventV::At(chars_in(*host)),
            WatchEvent::Answered(b) => WatchEventV::Answered(*b),
        }
    }
}

impl WatchState {
    /// Whether that is what can come of the action that the state waits for.
    pub open spec fn awaits(self, event: WatchEventV) -> bool {
        match self {
            WatchState::Waiting => event is Gone || event is At,
            WatchState::Asked => event is Answered,
            WatchState::End => false,
        }
    }
}

/// What an event leads to: a window on the official site is asked, and one that does not
/// answer is made anew.
pub open spec fn watch_step(state: WatchState, event: WatchEventV) -> (WatchState, WatchAction) {
    if state == WatchState::Waiting && event == WatchEventV::At(Some("www.kimi.com"@)) {
        (WatchState::Asked, WatchAction::AskThenWait(3))
    } else if state == WatchState::Asked && event == WatchEventV::Answered(false) {
        (WatchState::End, WatchAction::Rebuild)
    } else {
        (WatchState::End, WatchAction::Finish)
    }
}

/// Starts the watch over the page.
pub fn start_web_login_watchdog() -> (r: (WatchState, WatchAction))
    ensures
        r == (WatchState::Waiting, WatchAction::LookAfter(15)),
{
    (WatchState::Waiting, WatchAction::LookAfter(15))
}

/// Goes one step on.
pub fn watch_next(state: WatchState, event: WatchEvent) -> (r: (WatchState, WatchAction))
    requires
        state.awaits(event@),
    ensures
        r == watch_step(state, event@),
{
    match (state, event) {
        (WatchState::Waiting, WatchEvent::At(Some(host))) => if same_text(host, "www.kimi.com") {
            (WatchState::Asked, WatchAction::AskThenWait(3))
        } else {
            (WatchState::End, WatchAction::Finish)
        },
        (WatchState::Asked, WatchEvent::Answered(false)) => (WatchState::End, WatchAction::Rebuild),
        _ => (WatchState::End, WatchAction::Finish),
    }
}

/// The window is made anew only where it was on the official site and the page did not
/// answer: one that is gone, elsewhere or alive is left alone.
pub proof fn law_only_a_silent_page_is_rebuilt(first: WatchEventV, second: WatchEventV)
    requires
        WatchState::Waiting.awaits(first),
    ensures
        ({
            let (s1, a1) = watch_step(WatchState::Waiting, first);
            let (s2, a2) = watch_step(s1, second);
            &&& a1 != WatchAction::Rebuild
            &&& s1.awaits(second) ==> s2 is End
            &&& s1.awaits(second) && a2 == WatchAction::Rebuild ==> first == WatchEventV::At(
                Some("www.kimi.com"@),
            ) && second == WatchEventV::Answered(false)
        }),
{
}

/// How long the page is left alone between two looks for a login, in milliseconds.
pub const POLL_MS: u64 = 1500;

/// Whether a loop that looks for a login goes on: not once a newer one has started, nor
/// without a window.
pub fn poll_goes_on(newest: u64, mine: u64, window: bool) -> (r: bool)
    ensures
        r == (newest == mine && window),
{
    newest == mine && window
}

// ---- what the page reports ----

/// Of the pairs that have one name the last one counts.
pub proof fn law_the_last_pair_counts(
    pairs: Seq<(Seq<char>, Seq<char>)>,
    name: Seq<char>,
    at: int,
)
    requires
        -1 <= at < pairs.len(),
        at >= 0 ==> pairs[at].0 == name,
        forall|j: int| at < j < pairs.len() ==> (#[trigger] pairs[j]).0 != name,
    ensures
        at >= 0 ==> last_value(pairs, name) == Some(pairs[at].1),
        at < 0 ==> last_value(pairs, name) is None,
    decreases pairs.len(),
{
    if pairs.len() > 0 && at < pairs.len() - 1 {
        assert(pairs.last().0 != name);
        assert forall|j: int| at < j < pairs.drop_last().len() implies (
        #[trigger] pairs.drop_last()[j]).0 != name by {
            assert(pairs.drop_last()[j] == pairs[j]);
        }
        law_the_last_pair_counts(pairs.drop_last(), name, at);
    }
}

/// The page's length is the integer of 64 bits that it gives as `bl`; without one it counts as
/// less than nothing.
pub proof fn law_the_length_of_a_page(pairs: Seq<(Seq<char>, Seq<char>)>, n: int)
    ensures
        ({
            let given = last_value(pairs, "bl"@);
            &&& given is Some && integer_value(given->0) == Some(n) && -0x8000_0000_0000_0000 <= n
                <= 0x7fff_ffff_ffff_ffff ==> body_length(pairs) == n
            &&& given is None || integer_value(given->0) is None ==> body_length(pairs) == -1
            &&& given is Some && integer_value(given->0) == Some(n) && !(-0x8000_0000_0000_0000
                <= n <= 0x7fff_ffff_ffff_ffff) ==> body_length(pairs) == -1
        }),
{
}

/// The page reports a session just where it gives both tokens; the session holds these, the user
/// that the page gives, or none, and the source `web`.
pub proof fn law_the_page_reports_its_session(pairs: Seq<(Seq<char>, Seq<char>)>)
    ensures
        ({
            let access = last_value(pairs, "at"@);
            let refresh = last_value(pairs, "rt"@);
            let user = last_value(pairs, "uid"@);
            let s = reported_session(pairs);
            &&& s is Some <==> access is Some && refresh is Some
            &&& s is Some ==> {
                &&& s->0.get("access_token"@) == JsonV::Str(access->0)
                &&& s->0.get("refresh_token"@) == JsonV::Str(refresh->0)
                &&& user is Some ==> s->0.get("user_id"@) == JsonV::Str(user->0)
                &&& user is None ==> s->0.get("user_id"@) == JsonV::Str(Seq::empty())
                &&& s->0.get("source"@) == JsonV::Str("web"@)
            }
        }),
{
    let access = last_value(pairs, "at"@);
    let refresh = last_value(pairs, "rt"@);
    if access is Some && refresh is Some {
        let user = match last_value(pairs, "uid"@) {
            Some(user) => user,
            None => Seq::empty(),
        };
        crate::login::law_a_session_holds_what_it_was_made_of(
            access->0,
            refresh->0,
            user,
            "web"@,
            Seq::empty(),
        );
    }
}

/// What an address means: the path of the reports tells the query as it is, and that the page is
/// blank just where its body is shorter than 200; the path of the logins tells the session in the
/// query; and every other path, whatever the query, is gone to.
pub proof fn law_what_addresses_mean(path: Seq<char>, query: Seq<char>)
    ensures
        nav_meaning("/__kqb_diag__"@, query) == (NavV::Report {
            message: "web-login diag: "@ + query,
            blank: body_length(query_pairs(query)) < 200,
        }),
        nav_meaning("/__kqb_login_callback__"@, query) == NavV::Login(
            reported_session(query_pairs(query)),
        ),
        path != "/__kqb_diag__"@ && path != "/__kqb_login_callback__"@ ==> nav_meaning(
            path,
            query,
        ) is Go,
{
    reveal_strlit("/__kqb_diag__");
    reveal_strlit("/__kqb_login_callback__");
    assert("/__kqb_diag__"@.len() == 13 && "/__kqb_login_callback__"@.len() == 23);
}

/// A window on the official site is asked and given three seconds, one elsewhere or gone is left
/// alone; a page that answered is left alone, and one that did not is made anew.
pub proof fn law_the_watch_asks_and_rebuilds(host: Option<Seq<char>>)
    ensures
        host == Some("www.kimi.com"@) ==> watch_step(WatchState::Waiting, WatchEventV::At(host))
            == (WatchState::Asked, WatchAction::AskThenWait(3)),
        host != Some("www.kimi.com"@) ==> watch_step(WatchState::Waiting, WatchEventV::At(host))
            == (WatchState::End, WatchAction::Finish),
        watch_step(WatchState::Waiting, WatchEventV::Gone) == (
            WatchState::End,
            WatchAction::Finish,
        ),
        watch_step(WatchState::Asked, WatchEventV::Answered(true)) == (
            WatchState::End,
            WatchAction::Finish,
        ),
        watch_step(WatchState::Asked, WatchEventV::Answered(false)) == (
            WatchState::End,
            WatchAction::Rebuild,
        ),
{
}

} // verus!
