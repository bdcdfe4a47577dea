use kimi_quota_bar::account::{
    check_profile, fetch_membership_summary, get_profile, is_logged_out, logout_any, logout_next,
    marker_after_save, membership_reply, membership_summary, needs_user_id, session_status,
    set_logged_out, LogoutAction, LogoutEvent, LogoutState, MarkerChange,
};
use kimi_quota_bar::device::{device_id, mint_device_id, saved_device_id};
use kimi_quota_bar::error::{AuthError, ErrorKind};
use kimi_quota_bar::http::{Method, Reply, Request};
use kimi_quota_bar::json::{parse, render, Json};
use kimi_quota_bar::login::{
    confirm_login_qr, field, login_qr_create, login_qr_poll, login_sms_send, login_sms_verify,
    login_sms_session, poll_login_qr_status, qr_report_of, session_from, session_of,
    status_document, ticket_code, ticket_from,
};
use kimi_quota_bar::qr::{
    check_login, draw_ticket, drawable, drawn_ticket, login_report_of, matrix, Modules,
};
use kimi_quota_bar::qrcheck::{
    check_qr_login, qr_check_next, QrCheckAction, QrCheckEvent, QrCheckState,
};
use kimi_quota_bar::rpc::{auth_rpc, connect_error_message, refusal_message, rpc_reply};
use kimi_quota_bar::stored::{
    stored_access_token, stored_next, StoredAction, StoredEvent, StoredState,
};

fn doc(text: &str) -> Json {
    parse(text).unwrap()
}

fn body(r: &Request) -> &str {
    match &r.method {
        Method::Post(b) => b,
        Method::Get => panic!(),
    }
}

fn failed(kind: ErrorKind) -> AuthError {
    AuthError::new(kind)
}

#[test]
fn requests_to_the_service_carry_a_token_or_none() {
    let r = auth_rpc("svc/Method", "{}".to_string(), Some("t"));
    assert_eq!(r.url, "https://auth.kimi.com/api/svc/Method");
    assert_eq!(
        r.headers,
        vec![
            ("Content-Type".to_string(), "application/json".to_string()),
            ("x-msh-platform".to_string(), "web".to_string()),
            ("Authorization".to_string(), "Bearer t".to_string()),
        ]
    );
    assert_eq!(r.timeout_secs, 15);
    assert_eq!(auth_rpc("m", String::new(), None).headers.len(), 2);
}

#[test]
fn refusals_say_why() {
    let full = "{\"code\":\"c\",\"details\":[{\"debug\":{\"reason\":\"r\",\"localizedMessage\":{\"message\":\"m\"}}}]}";
    assert_eq!(connect_error_message(full, 400), "m");
    let reason = "{\"code\":\"c\",\"details\":[{\"debug\":{\"reason\":\"r\"}}]}";
    assert_eq!(connect_error_message(reason, 400), "r");
    assert_eq!(connect_error_message("{\"code\":\"c\",\"details\":[]}", 400), "400 c");
    assert_eq!(connect_error_message("{}", 418), "认证接口返回 418");
    assert_eq!(connect_error_message("<html>", 502), "认证接口返回 502");
    assert_eq!(refusal_message(&doc("{\"code\":\"c\"}"), 7), "7 c");
}

#[test]
fn replies_of_the_service_are_read() {
    assert_eq!(render(rpc_reply(Reply::Body(Some(b"{}".to_vec()))).unwrap()), "{}");
    assert_eq!(
        rpc_reply(Reply::Body(Some(b"x".to_vec()))).unwrap_err().kind,
        ErrorKind::RpcUnreadable
    );
    let refused = rpc_reply(Reply::Status(429, "{\"code\":\"slow\"}".to_string())).unwrap_err();
    assert_eq!(refused.message(), "429 slow");
    let down = rpc_reply(Reply::Failed("dns".to_string())).unwrap_err();
    assert_eq!(down.message(), "认证接口请求失败: dns");
}

#[test]
fn names_come_in_two_spellings() {
    let v = doc("{\"userId\":\"camel\",\"user_id\":\"snake\",\"access_token\":\"only\"}");
    assert_eq!(field(&v, "userId", "user_id"), Some("camel"));
    assert_eq!(field(&v, "accessToken", "access_token"), Some("only"));
    assert_eq!(field(&doc("{\"a\":1,\"b\":\"s\"}"), "a", "b"), Some("s"));
    assert_eq!(field(&v, "x", "y"), None);
}

#[test]
fn a_session_needs_both_tokens() {
    let v = doc("{\"accessToken\":\"a\",\"refresh_token\":\"r\",\"userId\":\"u\"}");
    assert_eq!(
        render(session_from(&v, "sms").unwrap()),
        "{\"access_token\":\"a\",\"refresh_token\":\"r\",\"source\":\"sms\",\"user_id\":\"u\"}"
    );
    for missing in ["{}", "{\"accessToken\":\"a\"}", "{\"accessToken\":\"\",\"refreshToken\":\"r\"}"] {
        let e = session_from(&doc(missing), "sms").unwrap_err();
        assert_eq!(e.kind, ErrorKind::NoTokens);
    }
    assert_eq!(
        render(session_of("a", "r", "", "web")),
        "{\"access_token\":\"a\",\"refresh_token\":\"r\",\"source\":\"web\",\"user_id\":\"\"}"
    );
}

#[test]
fn a_ticket_is_made() {
    let r = login_qr_create();
    assert_eq!(
        r.url,
        "https://auth.kimi.com/api/account.gateway.v1.AuthService/CreateLoginQRCode"
    );
    assert_eq!(body(&r), "{}");
    let t = ticket_from(&doc("{\"code\":\"C\"}"), "123").unwrap();
    assert_eq!(t.code, "C");
    assert_eq!(t.url, "https://www.kimi.com/wechat/mp/auth?id=C&device_id=123");
    assert_eq!(ticket_from(&doc("{}"), "123").unwrap_err().kind, ErrorKind::NoTicket);
    assert_eq!(ticket_code(&doc("{\"code\":\"C\"}")).unwrap(), "C");
    assert_eq!(ticket_code(&doc("{\"code\":7}")).unwrap_err().kind, ErrorKind::NoTicket);
}

#[test]
fn a_ticket_is_polled() {
    let r = poll_login_qr_status("a\"b");
    assert_eq!(body(&r), "{\"code\":\"a\\\"b\"}");
    assert!(r.url.ends_with("AuthService/GetLoginQRCodeStatus"));
    let pending = login_qr_poll(&doc("{}")).unwrap();
    assert_eq!(pending.status, "STATUS_PENDING");
    assert!(pending.session.is_none());
    let done = login_qr_poll(&doc(
        "{\"status\":\"STATUS_SUCCESS\",\"accessToken\":\"a\",\"refreshToken\":\"r\"}",
    ))
    .unwrap();
    assert_eq!(
        render(done.session.unwrap()),
        "{\"access_token\":\"a\",\"refresh_token\":\"r\",\"source\":\"qr\",\"user_id\":\"\"}"
    );
    assert_eq!(
        login_qr_poll(&doc("{\"status\":\"STATUS_SUCCESS\"}")).unwrap_err().kind,
        ErrorKind::NoTokens
    );
    assert_eq!(render(status_document("S")), "{\"ok\":true,\"status\":\"S\"}");
}

#[test]
fn a_ticket_is_confirmed() {
    let r = confirm_login_qr("C", "9", "tok");
    assert!(r.url.ends_with("AuthService/ConfirmLoginQRCode"));
    assert_eq!(body(&r), "{\"code\":\"C\",\"device_id\":\"9\"}");
    assert_eq!(r.headers[2].1, "Bearer tok");
    assert_eq!(
        render(qr_report_of(doc(
            "{\"status\":\"STATUS_SUCCESS\",\"accessToken\":\"a\",\"refresh_token\":\"r\",\"userId\":\"u\"}"
        ))),
        "{\"hasAccessToken\":true,\"hasRefreshToken\":true,\"ok\":true,\"status\":\"STATUS_SUCCESS\",\"userId\":\"u\"}"
    );
    assert_eq!(
        render(qr_report_of(doc("{\"accessToken\":\"a\"}"))),
        "{\"hasAccessToken\":true,\"hasRefreshToken\":false,\"ok\":false,\"status\":null,\"userId\":null}"
    );
}

#[test]
fn codes_by_sms_are_requested() {
    let r = login_sms_send("86", "555");
    assert!(r.url.ends_with("account.gateway.v1.SMSService/SendVerifyCode"));
    assert_eq!(
        body(&r),
        "{\"phone\":{\"country_code\":\"86\",\"number\":\"555\"},\"scene\":\"SCENE_LOGIN\"}"
    );
    let r = login_sms_verify("86", "555", "1234");
    assert!(r.url.ends_with("AuthService/LoginWithSMS"));
    let reply = doc("{\"accessToken\":\"a\",\"refreshToken\":\"r\"}");
    assert_eq!(login_sms_session(&reply).unwrap().text_at("source"), Some("sms"));
    assert_eq!(login_sms_session(&doc("{}")).unwrap_err().kind, ErrorKind::NoTokens);
    assert_eq!(
        body(&r),
        "{\"phone\":{\"country_code\":\"86\",\"number\":\"555\"},\"verify_code\":\"1234\"}"
    );
}

#[test]
fn a_code_is_drawn_row_by_row() {
    let modules = Modules { width: 2, dark: vec![true, false, false, true] };
    assert_eq!(matrix(&modules), "10\n01\n");
    let ticket = ticket_from(&doc("{\"code\":\"C\"}"), "1").unwrap();
    assert_eq!(
        render(drawn_ticket(&ticket, &modules)),
        "{\"code\":\"C\",\"matrix\":\"10\\n01\\n\",\"ok\":true,\"size\":2,\
         \"url\":\"https://www.kimi.com/wechat/mp/auth?id=C&device_id=1\"}"
    );
}

#[test]
fn a_tickets_code_is_made() {
    let ticket = ticket_from(&doc("{\"code\":\"C\"}"), "1234567890123456789").unwrap();
    let drawn = draw_ticket(&ticket).unwrap();
    let size = drawn.member("size").unwrap().as_i64().unwrap() as usize;
    assert_eq!((size - 17) % 4, 0);
    let rows: Vec<&str> = drawn.text_at("matrix").unwrap().lines().collect();
    assert_eq!(rows.len(), size);
    for row in &rows {
        assert_eq!(row.len(), size);
    }
    for (row, finder) in rows.iter().zip([
        "11111110", "10000010", "10111010", "10111010", "10111010", "10000010", "11111110",
        "00000000",
    ]) {
        assert!(row.starts_with(finder));
    }
    assert!(rows[0].ends_with("1111111"));
    assert_eq!(
        check_login(&ticket).member("qr_size").unwrap().as_i64(),
        Some(size as i64)
    );
}

#[test]
fn a_code_that_is_too_long_is_not_made() {
    let ticket = ticket_from(&Json::Null.set("code", Json::Str("1".repeat(5600))), "1").unwrap();
    assert!(drawable(&ticket));
    let e = draw_ticket(&ticket).unwrap_err();
    assert_eq!(e.kind, ErrorKind::Qr);
    assert!(!e.detail.is_empty());
    assert_eq!(check_login(&ticket).member("qr_size").unwrap().as_i64(), Some(0));
}

#[test]
fn addresses_in_between_are_not_sure_to_be_drawn() {
    let of_length = |len: usize| {
        let base = ticket_from(&doc("{\"code\":\"\"}"), "1").unwrap().url.len();
        let code = "x".repeat(len - base);
        ticket_from(&Json::Null.set("code", Json::Str(code)), "1").unwrap()
    };
    assert_eq!(of_length(127).url.len(), 127);
    assert!(drawable(&of_length(127)));
    assert!(draw_ticket(&of_length(127)).is_ok());
    assert!(!drawable(&of_length(128)));
    assert!(!drawable(&of_length(5601)));
    assert!(drawable(&of_length(5602)));
    let mixed = of_length(127).url.len() - of_length(60).url.len();
    let code: String = "1234A?".repeat(20)[..mixed].to_string();
    let ticket = ticket_from(&Json::Null.set("code", Json::Str(code)), "1").unwrap();
    assert!(draw_ticket(&ticket).unwrap().member("size").unwrap().as_i64().unwrap() <= 65);
    assert_eq!(
        render(login_report_of(&ticket_from(&doc("{\"code\":\"C\"}"), "1").unwrap(), 29)),
        "{\"ok\":true,\"qr_size\":29,\"ticket\":\"C\",\
         \"url\":\"https://www.kimi.com/wechat/mp/auth?id=C&device_id=1\"}"
    );
}

#[test]
fn a_saved_id_is_kept() {
    assert_eq!(saved_device_id(" 1234567890123456789\n").as_deref(), Some("1234567890123456789"));
    for bad in ["", "123", "12345678901234567890", "123456789012345678x", "１234567890123456789"] {
        assert_eq!(saved_device_id(bad), None);
    }
    let kept = device_id(Some("0234567890123456789")).unwrap();
    assert_eq!(kept.id, "0234567890123456789");
    assert!(!kept.fresh);
}

#[test]
fn a_new_id_is_made_of_random_digits() {
    assert_eq!(mint_device_id(&[0u8; 19]), "1000000000000000000");
    let mut bytes = [0u8; 19];
    bytes[0] = 17;
    bytes[1] = 255;
    bytes[18] = 9;
    assert_eq!(mint_device_id(&bytes), "9500000000000000009");
    let one = device_id(None).unwrap();
    let two = device_id(Some("junk")).unwrap();
    assert!(one.fresh && two.fresh);
    assert_ne!(one.id, two.id);
    let again = device_id(Some(&one.id)).unwrap();
    assert_eq!(again.id, one.id);
    assert!(!again.fresh);
}

#[test]
fn the_mark_of_a_sign_out_is_set_and_cleared() {
    assert!(is_logged_out(Some(true)));
    assert!(!is_logged_out(Some(false)));
    assert!(!is_logged_out(None));
    assert_eq!(set_logged_out(true, false), MarkerChange::Raise);
    assert_eq!(set_logged_out(true, true), MarkerChange::Raise);
    assert_eq!(set_logged_out(false, true), MarkerChange::Clear);
    assert_eq!(set_logged_out(false, false), MarkerChange::Keep);
    assert_eq!(marker_after_save(true, true), MarkerChange::Clear);
    assert_eq!(marker_after_save(true, false), MarkerChange::Keep);
    assert_eq!(marker_after_save(false, true), MarkerChange::Keep);
}

#[test]
fn the_state_of_the_account_is_told() {
    let own = Ok(Some(doc("{\"user_id\":\"u\",\"source\":7}")));
    assert_eq!(
        render(session_status(&own, true, true)),
        "{\"ownSession\":true,\"source\":null,\"userId\":\"u\"}"
    );
    for other in [Ok(None), Err(failed(ErrorKind::SessionData))] {
        assert_eq!(
            render(session_status(&other, true, false)),
            "{\"followingDesktop\":true,\"loggedOut\":false,\"ownSession\":false}"
        );
    }
}

#[test]
fn the_membership_is_summed_up() {
    let r = fetch_membership_summary("t");
    assert_eq!(
        r.url,
        "https://www.kimi.com/apiv2/kimi.gateway.membership.v2.MembershipService/GetSubscription"
    );
    assert_eq!(r.headers.len(), 2);
    assert_eq!(r.timeout_secs, 12);
    let full = "{\"subscription\":{\"goods\":{\"title\":\"P\",\"membershipLevel\":\"L\"},\"status\":\"S\",\
                \"active\":true,\"currentEndTime\":\"E\",\"nextBillingTime\":\"N\"}}";
    let sum = "{\"active\":true,\"level\":\"L\",\"nextBilling\":\"N\",\"periodEnd\":\"E\",\"plan\":\"P\",\"status\":\"S\"}";
    assert_eq!(render(membership_summary(&doc(full))), sum);
    assert_eq!(render(membership_reply(Ok(Some(full.as_bytes().to_vec()))).unwrap()), sum);
    assert_eq!(
        render(membership_summary(&Json::Null)),
        "{\"active\":false,\"level\":null,\"nextBilling\":null,\"periodEnd\":null,\"plan\":null,\"status\":null}"
    );
    assert_eq!(membership_reply(Ok(None)).unwrap_err().kind, ErrorKind::MembershipUnreadable);
    assert_eq!(
        membership_reply(Err("down".to_string())).unwrap_err().message(),
        "会员信息请求失败: down"
    );
}

#[test]
fn the_personal_center_is_put_together() {
    let state = || doc("{\"ownSession\":false}");
    assert!(needs_user_id(&state()));
    assert!(needs_user_id(&doc("{\"userId\":null}")));
    assert!(!needs_user_id(&doc("{\"userId\":\"u\"}")));
    assert_eq!(
        render(get_profile(state(), Some("me".to_string()), Ok(doc("{\"plan\":1}")))),
        "{\"membership\":{\"plan\":1},\"ok\":true,\"ownSession\":false,\"userId\":\"me\"}"
    );
    assert_eq!(
        render(get_profile(
            doc("{\"userId\":\"own\"}"),
            Some("me".to_string()),
            Err(failed(ErrorKind::RefreshDead))
        )),
        "{\"membershipError\":\"刷新令牌已失效，请重新登录\",\"ok\":true,\"userId\":\"own\"}"
    );
    assert_eq!(
        render(check_profile(doc("{\"plan\":1}"), None)),
        "{\"ok\":true,\"plan\":1,\"userId\":null}"
    );
}

#[test]
fn the_own_session_is_revoked_and_deleted() {
    let (state, action) = logout_any();
    assert!(matches!(action, LogoutAction::LoadSession));
    let session = doc("{\"access_token\":\"a\"}");
    let (state, action) = logout_next(state, LogoutEvent::Session(Ok(Some(session))));
    match action {
        LogoutAction::Revoke(r) => {
            assert_eq!(
                r.url,
                "https://auth.kimi.com/api/account.gateway.v1.AuthService/Logout"
            );
            assert_eq!(body(&r), "{}");
            assert_eq!(r.headers[2].1, "Bearer a");
        }
        other => panic!("{other:?}"),
    }
    let (state, action) = logout_next(state, LogoutEvent::Revoked);
    assert!(matches!(action, LogoutAction::DeleteSession));
    let (state, action) = logout_next(state, LogoutEvent::Deleted(Ok(())));
    assert!(matches!(action, LogoutAction::RaiseMarker));
    let (state, action) = logout_next(state, LogoutEvent::Raised);
    assert_eq!(state, LogoutState::End);
    assert!(matches!(action, LogoutAction::Finish(Ok(()))));
}

#[test]
fn a_session_without_a_token_is_just_deleted() {
    let (state, _) = logout_any();
    let (_, action) = logout_next(state, LogoutEvent::Session(Ok(Some(doc("{}")))));
    assert!(matches!(action, LogoutAction::DeleteSession));
}

#[test]
fn the_followed_account_is_revoked_as_it_is() {
    // A token that expired long ago: it is neither renewed nor written.
    let store = "{\"tokens\":{\"access_token\":\"h.eyJleHAiOjIwMDAsInN1YiI6InVzZXItMSJ9.s\",\"refresh_token\":\"r\"}}";
    let (state, _) = logout_any();
    let (state, action) = logout_next(state, LogoutEvent::Session(Ok(None)));
    assert!(matches!(action, LogoutAction::Stored(StoredAction::CheckMarker)));
    let (state, action) = logout_next(state, LogoutEvent::Stored(StoredEvent::Marker(false)));
    assert!(matches!(action, LogoutAction::Stored(StoredAction::LoadStore)));
    let (state, action) =
        logout_next(state, LogoutEvent::Stored(StoredEvent::Store(Ok(doc(store)))));
    match action {
        LogoutAction::Revoke(r) => {
            assert_eq!(r.headers[2].1, "Bearer h.eyJleHAiOjIwMDAsInN1YiI6InVzZXItMSJ9.s")
        }
        other => panic!("{other:?}"),
    }
    let (_, action) = logout_next(state, LogoutEvent::Revoked);
    assert!(matches!(action, LogoutAction::RaiseMarker));
}

#[test]
fn signing_out_twice_or_without_a_token_raises_the_mark() {
    let raised = |state: LogoutState, event: StoredEvent| {
        matches!(logout_next(state, LogoutEvent::Stored(event)).1, LogoutAction::RaiseMarker)
    };
    assert!(raised(LogoutState::Token(StoredState::Marker), StoredEvent::Marker(true)));
    let store = LogoutState::Token(StoredState::Store);
    assert!(raised(store, StoredEvent::Store(Err(failed(ErrorKind::Platform)))));
    assert!(raised(store, StoredEvent::Store(Ok(doc("{\"tokens\":{}}")))));
}

#[test]
fn the_stored_token_is_taken_as_it_is() {
    let (state, action) = stored_access_token();
    assert!(matches!(action, StoredAction::LoadSession));
    let own = StoredEvent::Session(Ok(Some(doc("{\"access_token\":\"own\"}"))));
    match stored_next(state, own) {
        (StoredState::End, StoredAction::Finish(Ok(t))) => assert_eq!(t, "own"),
        other => panic!("{other:?}"),
    }
    let kind = |state: StoredState, event: StoredEvent| match stored_next(state, event).1 {
        StoredAction::Finish(Err(e)) => e.kind,
        other => panic!("{other:?}"),
    };
    assert_eq!(
        kind(StoredState::Session, StoredEvent::Session(Ok(Some(doc("{}"))))),
        ErrorKind::NoStoredToken
    );
    assert_eq!(kind(StoredState::Marker, StoredEvent::Marker(true)), ErrorKind::SignedOut);
    assert_eq!(
        kind(StoredState::Store, StoredEvent::Store(Ok(doc("{\"tokens\":{\"access_token\":\"\"}}")))),
        ErrorKind::NoStoredToken
    );
    assert_eq!(
        kind(StoredState::Store, StoredEvent::Store(Err(failed(ErrorKind::StoreData)))),
        ErrorKind::StoreData
    );
    for none in [Ok(None), Err(failed(ErrorKind::Json))] {
        assert!(matches!(
            stored_next(StoredState::Session, StoredEvent::Session(none)),
            (StoredState::Marker, StoredAction::CheckMarker)
        ));
    }
}

#[test]
fn the_qr_self_test_only_reads() {
    let (state, action) = check_qr_login();
    match action {
        QrCheckAction::Ask(r) => assert!(r.url.ends_with("AuthService/CreateLoginQRCode")),
        other => panic!("{other:?}"),
    }
    let (state, action) = qr_check_next(state, QrCheckEvent::Answer(Ok(doc("{\"code\":\"C\"}"))));
    assert!(matches!(action, QrCheckAction::GetDevice));
    let (state, action) = qr_check_next(state, QrCheckEvent::Device(Ok("9".to_string())));
    assert!(matches!(action, QrCheckAction::Stored(StoredAction::LoadSession)));
    let (state, action) =
        qr_check_next(state, QrCheckEvent::Stored(StoredEvent::Session(Ok(None))));
    assert!(matches!(action, QrCheckAction::Stored(StoredAction::CheckMarker)));
    let (state, action) = qr_check_next(state, QrCheckEvent::Stored(StoredEvent::Marker(false)));
    assert!(matches!(action, QrCheckAction::Stored(StoredAction::LoadStore)));
    let store = doc("{\"tokens\":{\"access_token\":\"t\"}}");
    let (state, action) =
        qr_check_next(state, QrCheckEvent::Stored(StoredEvent::Store(Ok(store))));
    match action {
        QrCheckAction::Ask(r) => {
            assert!(r.url.ends_with("AuthService/ConfirmLoginQRCode"));
            assert_eq!(body(&r), "{\"code\":\"C\",\"device_id\":\"9\"}");
            assert_eq!(r.headers[2].1, "Bearer t");
        }
        other => panic!("{other:?}"),
    }
    let (state, action) = qr_check_next(state, QrCheckEvent::Answer(Ok(doc("{}"))));
    match action {
        QrCheckAction::Ask(r) => assert_eq!(body(&r), "{\"code\":\"C\"}"),
        other => panic!("{other:?}"),
    }
    let (state, action) =
        qr_check_next(state, QrCheckEvent::Answer(Ok(doc("{\"status\":\"STATUS_SUCCESS\"}"))));
    assert!(matches!(state, QrCheckState::End));
    match action {
        QrCheckAction::Finish(Ok(report)) => {
            assert_eq!(report.member("ok").unwrap().as_bool(), Some(false))
        }
        other => panic!("{other:?}"),
    }
}

#[test]
fn the_qr_self_test_stops_at_the_first_failure() {
    let kind = |state: QrCheckState, event: QrCheckEvent| match qr_check_next(state, event) {
        (QrCheckState::End, QrCheckAction::Finish(Err(e))) => e.kind,
        other => panic!("{other:?}"),
    };
    let code = || "C".to_string();
    let refused = || QrCheckEvent::Answer(Err(failed(ErrorKind::RpcUnreadable)));
    assert_eq!(kind(QrCheckState::Ticket, refused()), ErrorKind::RpcUnreadable);
    assert_eq!(
        kind(QrCheckState::Ticket, QrCheckEvent::Answer(Ok(doc("{}")))),
        ErrorKind::NoTicket
    );
    assert_eq!(
        kind(
            QrCheckState::Device { code: code() },
            QrCheckEvent::Device(Err(failed(ErrorKind::NoRandomness)))
        ),
        ErrorKind::NoRandomness
    );
    assert_eq!(
        kind(
            QrCheckState::Token { code: code(), device: code(), stored: StoredState::Marker },
            QrCheckEvent::Stored(StoredEvent::Marker(true))
        ),
        ErrorKind::SignedOut
    );
    assert_eq!(kind(QrCheckState::Confirm { code: code() }, refused()), ErrorKind::RpcUnreadable);
    assert_eq!(kind(QrCheckState::Poll, refused()), ErrorKind::RpcUnreadable);
}

#[test]
fn a_failed_sign_out_raises_no_mark() {
    let broken = LogoutEvent::Session(Err(failed(ErrorKind::SessionData)));
    match logout_next(LogoutState::Session, broken).1 {
        LogoutAction::Finish(Err(e)) => assert_eq!(e.kind, ErrorKind::SessionData),
        other => panic!("{other:?}"),
    }
    let stuck = LogoutEvent::Deleted(Err(failed(ErrorKind::System)));
    match logout_next(LogoutState::Delete, stuck).1 {
        LogoutAction::Finish(Err(e)) => assert_eq!(e.kind, ErrorKind::System),
        other => panic!("{other:?}"),
    }
}
