use kimi_quota_bar::error::{AuthError, ErrorKind};
use kimi_quota_bar::http::{Method, Reply, Request};
use kimi_quota_bar::json::{parse, render, Json};
use kimi_quota_bar::quota::{
    failure_of, fetch_quota, fetch_quota_smart, normalize, ok_or_err, pick, quota_next,
    quota_reply, ratio_of, str_of, QuotaAction, QuotaEvent, QuotaState, Used,
};
use kimi_quota_bar::store::{load_store, save_store};
use kimi_quota_bar::token::{
    get_valid_access_token, refresh_reply, refresh_tokens, renewed_of, token_next, Renewed,
    TokenAction, TokenEvent, TokenState,
};

/// A token that expires at 2000.
const AGING: &str = "h.eyJleHAiOjIwMDAsInN1YiI6InVzZXItMSJ9.s";

fn doc(text: &str) -> Json {
    parse(text).unwrap()
}

fn renewed(access: &str, refresh: Option<&str>) -> TokenEvent {
    TokenEvent::Refreshed(Ok(Renewed {
        access: access.to_string(),
        refresh: refresh.map(|r| r.to_string()),
    }))
}

fn failed(kind: ErrorKind) -> AuthError {
    AuthError::new(kind)
}

fn session(text: &str, now: i64) -> TokenEvent {
    TokenEvent::Session(Ok(Some(doc(text))), now)
}

fn header(r: &Request, name: &str) -> Option<String> {
    r.headers.iter().find(|(n, _)| n == name).map(|(_, v)| v.clone())
}

#[test]
fn the_renewal_is_requested() {
    let r = refresh_tokens("r0");
    assert!(matches!(r.method, Method::Get));
    assert_eq!(r.url, "https://www.kimi.com/api/auth/token/refresh");
    assert_eq!(
        r.headers,
        vec![
            ("Authorization".to_string(), "Bearer r0".to_string()),
            ("x-msh-platform".to_string(), "web".to_string()),
        ]
    );
    assert_eq!(r.timeout_secs, 15);
}

#[test]
fn the_renewal_is_read() {
    let body = b"{\"access_token\":\"a\",\"refresh_token\":\"r\"}".to_vec();
    let both = refresh_reply(Reply::Body(Some(body))).unwrap();
    assert_eq!((both.access.as_str(), both.refresh.as_deref()), ("a", Some("r")));
    let one = renewed_of(&doc("{\"access_token\":\"a\",\"refresh_token\":null}")).unwrap();
    assert_eq!(one.refresh, None);
    let kind = |reply: Reply| refresh_reply(reply).unwrap_err().kind;
    assert_eq!(kind(Reply::Body(Some(b"{}".to_vec()))), ErrorKind::RefreshNoToken);
    assert_eq!(kind(Reply::Body(Some(b"<".to_vec()))), ErrorKind::RefreshUnreadable);
    assert_eq!(kind(Reply::Body(None)), ErrorKind::RefreshUnreadable);
    assert_eq!(kind(Reply::Status(401, String::new())), ErrorKind::RefreshDead);
    assert_eq!(kind(Reply::Status(400, String::new())), ErrorKind::RefreshDead);
    assert_eq!(kind(Reply::Status(500, String::new())), ErrorKind::RefreshStatus(500));
    let e = refresh_reply(Reply::Failed("dns".to_string())).unwrap_err();
    assert_eq!(e.message(), "刷新接口请求失败: dns");
}

#[test]
fn only_a_dead_token_is_called_dead() {
    for (reply, dead) in [
        (Reply::Status(401, String::new()), true),
        (Reply::Status(400, String::new()), true),
        (Reply::Status(403, String::new()), false),
        (Reply::Failed("AUTH_DEAD".to_string()), false),
    ] {
        let e = refresh_reply(reply).unwrap_err();
        assert_eq!(e.message().starts_with("AUTH_DEAD"), dead);
    }
}

#[test]
fn the_own_session_wins() {
    let (state, action) = get_valid_access_token(false);
    assert!(matches!(action, TokenAction::LoadSession));
    let text = format!("{{\"access_token\":\"{AGING}\"}}");
    match token_next(state, session(&text, 1000)).1 {
        TokenAction::Finish(Ok(t)) => assert_eq!(t, AGING),
        other => panic!("{other:?}"),
    }
}

#[test]
fn an_aging_session_is_renewed_and_written() {
    let (state, _) = get_valid_access_token(false);
    let text = format!("{{\"access_token\":\"{AGING}\",\"refresh_token\":\"r1\",\"user_id\":\"u\"}}");
    let (state, action) = token_next(state, session(&text, 1900));
    match action {
        TokenAction::Refresh(t) => assert_eq!(t, "r1"),
        other => panic!("{other:?}"),
    }
    let (state, action) = token_next(state, renewed("new", None));
    match action {
        TokenAction::SaveSession(j) => assert_eq!(
            render(j),
            "{\"access_token\":\"new\",\"refresh_token\":\"r1\",\"user_id\":\"u\"}"
        ),
        other => panic!("{other:?}"),
    }
    match token_next(state, TokenEvent::Saved).1 {
        TokenAction::Finish(Ok(t)) => assert_eq!(t, "new"),
        other => panic!("{other:?}"),
    }
}

#[test]
fn who_comes_second_reuses_the_renewed_session() {
    let state = TokenState::OwnRefresh { force: true, session: doc("{\"access_token\":\"old\"}") };
    let written = match token_next(state, renewed("fresh", Some("r2"))).1 {
        TokenAction::SaveSession(j) => j,
        other => panic!("{other:?}"),
    };
    let (state, _) = get_valid_access_token(false);
    match token_next(state, TokenEvent::Session(Ok(Some(written)), 5000)).1 {
        TokenAction::Finish(Ok(t)) => assert_eq!(t, "fresh"),
        other => panic!("{other:?}"),
    }
}

#[test]
fn an_empty_token_is_renewed() {
    let (state, _) = get_valid_access_token(false);
    match token_next(state, session("{}", 0)).1 {
        TokenAction::Refresh(t) => assert_eq!(t, ""),
        other => panic!("{other:?}"),
    }
}

#[test]
fn a_forced_renewal_skips_what_is_stored() {
    let (state, _) = get_valid_access_token(true);
    let text = "{\"access_token\":\"opaque\",\"refresh_token\":\"r1\"}";
    assert!(matches!(token_next(state, session(text, 0)).1, TokenAction::Refresh(_)));
    let state = TokenState::Store { force: true };
    let store = doc("{\"tokens\":{\"access_token\":\"opaque\",\"refresh_token\":\"r1\"}}");
    assert!(matches!(
        token_next(state, TokenEvent::Store(Ok(store), 0)).1,
        TokenAction::Refresh(_)
    ));
}

#[test]
fn a_forced_renewal_hands_out_the_renewed_token() {
    let (state, _) = get_valid_access_token(true);
    let (state, _) = token_next(state, session("{\"access_token\":\"opaque\"}", 0));
    let dead = TokenEvent::Refreshed(Err(failed(ErrorKind::RefreshDead)));
    let (state, _) = token_next(state, dead);
    let (state, _) = token_next(state, TokenEvent::Deleted);
    let (state, _) = token_next(state, TokenEvent::Marker(false));
    let store = doc("{\"tokens\":{\"access_token\":\"opaque\",\"refresh_token\":\"r\"}}");
    let (state, _) = token_next(state, TokenEvent::Store(Ok(store), 0));
    let (state, _) = token_next(state, renewed("renewed", None));
    match token_next(state, TokenEvent::Saved) {
        (TokenState::End, TokenAction::Finish(Ok(t))) => assert_eq!(t, "renewed"),
        other => panic!("{other:?}"),
    }
}

#[test]
fn a_dead_session_is_dropped_for_the_desktop_clients() {
    let state = TokenState::OwnRefresh { force: false, session: doc("{}") };
    let dead = TokenEvent::Refreshed(Err(failed(ErrorKind::RefreshDead)));
    let (state, action) = token_next(state, dead);
    assert!(matches!(action, TokenAction::DeleteSession));
    let (state, action) = token_next(state, TokenEvent::Deleted);
    assert!(matches!(action, TokenAction::CheckMarker));
    let (state, action) = token_next(state, TokenEvent::Marker(false));
    assert!(matches!(action, TokenAction::LoadStore));
    let store = doc("{\"tokens\":{\"access_token\":\"stored\"}}");
    match token_next(state, TokenEvent::Store(Ok(store), 0)).1 {
        TokenAction::Finish(Ok(t)) => assert_eq!(t, "stored"),
        other => panic!("{other:?}"),
    }
}

#[test]
fn another_failure_keeps_the_session() {
    let state = TokenState::OwnRefresh { force: false, session: doc("{}") };
    let down = TokenEvent::Refreshed(Err(failed(ErrorKind::RefreshStatus(503))));
    match token_next(state, down).1 {
        TokenAction::Finish(Err(e)) => assert_eq!(e.message(), "刷新接口返回 503"),
        other => panic!("{other:?}"),
    }
}

#[test]
fn who_signed_out_follows_nobody() {
    for found in [Ok(None), Err(failed(ErrorKind::Json))] {
        let (state, _) = get_valid_access_token(false);
        let (state, action) = token_next(state, TokenEvent::Session(found, 0));
        assert!(matches!(action, TokenAction::CheckMarker));
        match token_next(state, TokenEvent::Marker(true)).1 {
            TokenAction::Finish(Err(e)) => assert_eq!(e.kind, ErrorKind::SignedOut),
            other => panic!("{other:?}"),
        }
    }
}

#[test]
fn the_store_is_renewed_and_the_rest_of_it_kept() {
    let text = format!(
        "{{\"keep\":[1,2],\"tokens\":{{\"access_token\":\"{AGING}\",\"other\":true,\"refresh_token\":\"r0\"}}}}"
    );
    let (state, action) =
        token_next(TokenState::Store { force: false }, TokenEvent::Store(Ok(doc(&text)), 1880));
    match action {
        TokenAction::Refresh(t) => assert_eq!(t, "r0"),
        other => panic!("{other:?}"),
    }
    let (state, action) = token_next(state, renewed("new", Some("r9")));
    let written = match action {
        TokenAction::SaveStore(j) => j,
        other => panic!("{other:?}"),
    };
    let key = [7u8; 16];
    let raw = save_store(written, &key).unwrap();
    let written = load_store(&raw, Ok(key)).unwrap();
    let again = TokenState::Store { force: false };
    match token_next(again, TokenEvent::Store(Ok(load_store(&raw, Ok(key)).unwrap()), 9000)).1 {
        TokenAction::Finish(Ok(t)) => assert_eq!(t, "new"),
        other => panic!("{other:?}"),
    }
    assert_eq!(
        render(written),
        "{\"keep\":[1,2],\"tokens\":{\"access_token\":\"new\",\"other\":true,\"refresh_token\":\"r9\"}}"
    );
    match token_next(state, TokenEvent::Saved).1 {
        TokenAction::Finish(Ok(t)) => assert_eq!(t, "new"),
        other => panic!("{other:?}"),
    }
}

#[test]
fn the_store_can_fail() {
    let kind = |event: TokenEvent| match token_next(TokenState::Store { force: false }, event).1 {
        TokenAction::Finish(Err(e)) => e.kind,
        other => panic!("{other:?}"),
    };
    assert_eq!(
        kind(TokenEvent::Store(Ok(doc("{\"tokens\":{}}")), 0)),
        ErrorKind::NoRefreshToken
    );
    assert_eq!(kind(TokenEvent::Store(Ok(doc("[]")), 0)), ErrorKind::NoRefreshToken);
    assert_eq!(
        kind(TokenEvent::Store(Err(failed(ErrorKind::StoreData)), 0)),
        ErrorKind::StoreData
    );
    let state = TokenState::StoreRefresh { store: doc("{\"tokens\":{}}") };
    let dead = TokenEvent::Refreshed(Err(failed(ErrorKind::RefreshDead)));
    match token_next(state, dead).1 {
        TokenAction::Finish(Err(e)) => assert_eq!(e.kind, ErrorKind::RefreshDead),
        other => panic!("{other:?}"),
    }
}

#[test]
fn the_quota_is_requested() {
    let r = fetch_quota("tok");
    match &r.method {
        Method::Post(body) => assert_eq!(body, "{}"),
        Method::Get => panic!(),
    }
    assert_eq!(
        r.url,
        "https://www.kimi.com/apiv2/kimi.gateway.membership.v2.MembershipService/GetSubscriptionStats"
    );
    assert_eq!(header(&r, "Content-Type"), Some("application/json".to_string()));
    assert_eq!(header(&r, "Authorization"), Some("Bearer tok".to_string()));
    assert_eq!(header(&r, "x-msh-platform"), Some("web".to_string()));
    assert_eq!(r.timeout_secs, 15);
}

#[test]
fn the_quotas_reply_is_read() {
    let kind = |reply: Reply| quota_reply(reply).unwrap_err().kind;
    assert_eq!(render(quota_reply(Reply::Body(Some(b"{\"a\":1}".to_vec()))).unwrap()), "{\"a\":1}");
    assert_eq!(kind(Reply::Body(None)), ErrorKind::QuotaUnreadable);
    assert_eq!(kind(Reply::Status(401, String::new())), ErrorKind::QuotaExpired);
    assert_eq!(
        kind(Reply::Status(403, "{\"code\":\"unauthenticated\"}".to_string())),
        ErrorKind::QuotaExpired
    );
    assert_eq!(kind(Reply::Status(403, "no".to_string())), ErrorKind::QuotaStatus(403));
    let down = quota_reply(Reply::Failed("AUTH_EXPIRED".to_string())).unwrap_err();
    assert_eq!(down.message(), "额度接口请求失败: AUTH_EXPIRED");
    assert!(!down.message().starts_with("AUTH_EXPIRED"));
}

#[test]
fn a_refused_token_is_renewed_once() {
    let expired = || QuotaEvent::Answer(Err(failed(ErrorKind::QuotaExpired)));
    let (state, action) = fetch_quota_smart();
    assert!(matches!(action, QuotaAction::GetToken(false)));
    let (state, action) = quota_next(state, QuotaEvent::Token(Ok("one".to_string())));
    match action {
        QuotaAction::Ask(r) => assert_eq!(header(&r, "Authorization"), Some("Bearer one".into())),
        other => panic!("{other:?}"),
    }
    let (state, action) = quota_next(state, expired());
    assert!(matches!(action, QuotaAction::GetToken(true)));
    let (state, action) = quota_next(state, QuotaEvent::Token(Ok("two".to_string())));
    match action {
        QuotaAction::Ask(r) => assert_eq!(header(&r, "Authorization"), Some("Bearer two".into())),
        other => panic!("{other:?}"),
    }
    match quota_next(state, expired()) {
        (QuotaState::End, QuotaAction::Finish(Err(e))) => {
            assert_eq!(e.kind, ErrorKind::QuotaExpired)
        }
        other => panic!("{other:?}"),
    }
}

#[test]
fn other_outcomes_are_the_result() {
    let asked = || QuotaState::Asked { again: false };
    match quota_next(asked(), QuotaEvent::Answer(Err(failed(ErrorKind::QuotaStatus(500))))).1 {
        QuotaAction::Finish(Err(e)) => assert_eq!(e.kind, ErrorKind::QuotaStatus(500)),
        other => panic!("{other:?}"),
    }
    match quota_next(asked(), QuotaEvent::Answer(Ok(Json::Int(1)))).1 {
        QuotaAction::Finish(Ok(j)) => assert_eq!(j.as_i64(), Some(1)),
        other => panic!("{other:?}"),
    }
    let waiting = QuotaState::Token { again: true };
    match quota_next(waiting, QuotaEvent::Token(Err(failed(ErrorKind::SignedOut)))).1 {
        QuotaAction::Finish(Err(e)) => assert_eq!(e.kind, ErrorKind::SignedOut),
        other => panic!("{other:?}"),
    }
}

#[test]
fn the_first_name_that_is_there_is_picked() {
    let raw = doc("{\"b\":2,\"n\":null}");
    assert_eq!(pick(&raw, &["a", "b"]).unwrap().as_i64(), Some(2));
    assert!(pick(&raw, &["n", "b"]).is_none());
    assert!(pick(&raw, &["a"]).is_none());
    assert!(pick(&raw, &[]).is_none());
    assert!(pick(&Json::Int(1), &["a"]).is_none());
}

#[test]
fn uses_are_numbers_or_quoted_numbers() {
    let stat = doc("{\"i\":1,\"f\":0.25,\"q\":\" 0.5 \",\"n\":null,\"b\":true,\"t\":\"2026\",\"l\":[1],\"o\":{}}");
    assert!(matches!(ratio_of(Some(&stat), "i"), Used::Number(Json::Int(1))));
    match ratio_of(Some(&stat), "f") {
        Used::Number(Json::Fraction(f)) => assert_eq!(f.number().as_f64(), Some(0.25)),
        other => panic!("{other:?}"),
    }
    assert!(matches!(ratio_of(Some(&stat), "q"), Used::Quoted("0.5")));
    assert!(matches!(ratio_of(Some(&stat), "n"), Used::Zero));
    assert!(matches!(ratio_of(Some(&stat), "b"), Used::Unknown));
    assert!(matches!(ratio_of(Some(&stat), "l"), Used::Unknown));
    assert!(matches!(ratio_of(Some(&stat), "o"), Used::Unknown));
    assert!(matches!(ratio_of(Some(&stat), "missing"), Used::Zero));
    assert!(matches!(ratio_of(None, "i"), Used::Unknown));
    assert_eq!(str_of(Some(&stat), "t"), Some("2026"));
    assert_eq!(str_of(Some(&stat), "i"), None);
    assert_eq!(str_of(None, "t"), None);
}

#[test]
fn the_answer_becomes_what_the_card_shows() {
    let raw = doc(
        "{\"subscriptionBalance\":{\"amountUsedRatio\":0.5,\"expireTime\":\"E\"},\
         \"ratelimit5h\":{\"ratio\":\"0.1\",\"enabled\":false,\"resetTime\":\"R\"},\
         \"ratelimitCode7d\":null,\"ratelimit7d\":{\"ratio\":1}}",
    );
    let q = normalize(&raw, 99);
    assert_eq!(q.fetched_at, 99);
    assert!(matches!(q.total.used, Used::Number(_)));
    assert!(matches!(q.total.code_used, Used::Zero));
    assert_eq!(q.total.reset_time, Some("E"));
    assert!(matches!(q.five_hour.used, Used::Quoted("0.1")));
    assert!(!q.five_hour.enabled);
    assert_eq!(q.five_hour.reset_time, Some("R"));
    assert!(matches!(q.seven_day.used, Used::Unknown));
    assert!(q.seven_day.enabled);
    assert_eq!(q.seven_day.reset_time, None);
}

#[test]
fn failures_are_told_without_their_marks() {
    assert_eq!(
        render(failure_of(&failed(ErrorKind::QuotaExpired))),
        "{\"error\":\"登录已过期\",\"ok\":false}"
    );
    assert_eq!(render(ok_or_err(Ok(Json::Int(3)))), "3");
    assert_eq!(
        render(ok_or_err(Err(failed(ErrorKind::SignedOut)))),
        "{\"error\":\"已退出登录，请重新登录\",\"ok\":false}"
    );
}
