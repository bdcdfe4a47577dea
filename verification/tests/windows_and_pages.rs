use kimi_quota_bar::cli::{
    done, failed_with, report_of, self_check, session_report, web_checks, Check, WebChecks,
};
use kimi_quota_bar::error::{AuthError, ErrorKind};
use kimi_quota_bar::json::{parse, render, Json};
use kimi_quota_bar::paths::{encryption_on, token_store_path, Base, Encryption, Platform};
use kimi_quota_bar::weblogin::{
    last_of, page_is_blank, poll_goes_on, session_of_pairs, start_web_login_watchdog, watch_next,
    web_login_nav_handler, Nav, WatchAction, WatchEvent, WatchState,
};
use kimi_quota_bar::window::{
    after_move, card_size, enter_ball, exit_ball, hide_card, load_saved_position, move_is_latest,
    position_of, save_position, start_position, toggle_window, Area, Docking, Moved, Position,
    Shape, Target, Toggled,
};

const SCREEN: Area = Area { x: 0, y: 0, width: 1920, height: 1080 };

fn card_at(x: i32) -> Area {
    Area { x, y: 300, width: 328, height: 224 }
}

fn args(list: &[&str]) -> Vec<String> {
    list.iter().map(|a| a.to_string()).collect()
}

fn pairs(list: &[(&str, &str)]) -> Vec<(String, String)> {
    list.iter().map(|(a, b)| (a.to_string(), b.to_string())).collect()
}

#[test]
fn places_are_written_and_read_back() {
    for p in [Position { x: 12, y: -7 }, Position { x: i32::MIN, y: i32::MAX }] {
        assert_eq!(load_saved_position(&save_position(p)), Some(p));
    }
    assert_eq!(save_position(Position { x: 1, y: 2 }), "{\"x\":1,\"y\":2}");
    assert_eq!(load_saved_position("{\"x\":1}"), None);
    assert_eq!(load_saved_position("{\"x\":1.5,\"y\":2}"), None);
    assert_eq!(load_saved_position("x"), None);
}

#[test]
fn coordinates_are_cut_to_their_low_bits() {
    let far = parse("{\"x\":4294967297,\"y\":2147483648}").unwrap();
    assert_eq!(position_of(&far), Some(Position { x: 1, y: i32::MIN }));
    let below = parse("{\"x\":-2147483649,\"y\":-4294967296}").unwrap();
    assert_eq!(position_of(&below), Some(Position { x: i32::MAX, y: 0 }));
    let least = parse("{\"x\":-9223372036854775808,\"y\":-1}").unwrap();
    assert_eq!(position_of(&least), Some(Position { x: 0, y: -1 }));
}

#[test]
fn the_card_starts_where_it_was() {
    let second = Area { x: 1920, y: 0, width: 800, height: 600 };
    let there = Some(Position { x: 2000, y: 100 });
    assert_eq!(
        start_position(there, &vec![SCREEN, second], Some(&SCREEN)),
        Some(Target { x: 2000, y: 100 })
    );
    assert_eq!(start_position(there, &vec![], None), Some(Target { x: 2000, y: 100 }));
    let corner = Some(Target { x: 1920 - 328 - 16, y: 32 });
    assert_eq!(start_position(there, &vec![SCREEN], Some(&SCREEN)), corner);
    assert_eq!(start_position(None, &vec![SCREEN], Some(&SCREEN)), corner);
    assert_eq!(start_position(there, &vec![SCREEN], None), None);
}

#[test]
fn the_corner_is_a_place_to_start_from_again() {
    for screen in [SCREEN, Area { x: -328, y: 900, width: 328, height: 100 }] {
        let corner = start_position(None, &vec![screen], Some(&screen)).unwrap();
        let saved = Position { x: corner.x as i32, y: corner.y as i32 };
        assert_eq!(start_position(Some(saved), &vec![screen], None), Some(corner));
    }
}

#[test]
fn fifty_pixels_may_be_off_the_screen() {
    let at = |x: i32, y: i32| start_position(Some(Position { x, y }), &vec![SCREEN], None);
    assert!(at(-50, -50).is_some());
    assert!(at(-51, 0).is_none());
    assert!(at(0, -51).is_none());
    assert!(at(1920 + 50 - 328, 0).is_some());
    assert!(at(1920 + 51 - 328, 0).is_none());
    assert!(at(0, 1080 + 50 - 100).is_some());
    assert!(at(0, 1080 + 51 - 100).is_none());
}

#[test]
fn the_card_becomes_a_ball_at_the_edge() {
    let d = Docking::start();
    let shape = |x: i32| after_move(&d, &card_at(x), Some(&SCREEN), 0).shape;
    assert_eq!(shape(1920 - 328), Shape::Ball);
    assert_eq!(shape(1920 - 328 - 12), Shape::Ball);
    assert_eq!(shape(1920 - 328 - 13), Shape::Same);
    assert_eq!(shape(1920 - 328 + 1), Shape::Same);
    assert_eq!(
        after_move(&d, &card_at(5), None, 0),
        Moved { keep: Some(Position { x: 5, y: 300 }), shape: Shape::Same }
    );
}

#[test]
fn a_ball_lies_at_the_edge_and_stays_there() {
    let change = enter_ball(Position { x: 1590, y: 300 }, 72, Some(&SCREEN), 1000);
    assert_eq!((change.width, change.height), (72, 72));
    assert_eq!(change.target, Some(Target { x: 1848, y: 300 }));
    assert_eq!(change.docking, Docking { ball: true, quiet_until: Some(1800) });
    let ball = Area { x: 1848, y: 300, width: 72, height: 72 };
    let moved = after_move(&change.docking, &ball, Some(&SCREEN), 99999);
    assert_eq!(moved, Moved { keep: None, shape: Shape::Same });
    assert_eq!(enter_ball(Position { x: 0, y: 0 }, 72, None, 0).target, None);
}

#[test]
fn a_ball_that_is_dragged_away_becomes_the_card() {
    let d = Docking { ball: true, quiet_until: None };
    let shape = |x: i32| {
        after_move(&d, &Area { x, y: 0, width: 72, height: 72 }, Some(&SCREEN), 0).shape
    };
    assert_eq!(shape(1848 - 36), Shape::Same);
    assert_eq!(shape(1848 - 37), Shape::Card);
    assert_eq!(shape(1848 + 36), Shape::Same);
    assert_eq!(shape(1848 + 37), Shape::Card);
}

#[test]
fn the_card_keeps_the_right_edge_of_the_ball() {
    let ball = Area { x: 1848, y: 40, width: 72, height: 72 };
    let change = exit_ball(Some(&ball), 328, 224, Some(&SCREEN), 10);
    assert_eq!(change.target, Some(Target { x: 1592, y: 40 }));
    assert_eq!(change.docking, Docking { ball: false, quiet_until: Some(1510) });
    let near_left = Area { x: 100, y: 40, width: 72, height: 72 };
    let change = exit_ball(Some(&near_left), 328, 224, Some(&SCREEN), 10);
    assert_eq!(change.target, Some(Target { x: 0, y: 40 }));
    let change = exit_ball(Some(&near_left), 328, 224, None, 10);
    assert_eq!(change.target, Some(Target { x: -156, y: 40 }));
    assert_eq!(exit_ball(None, 328, 224, Some(&SCREEN), 10).target, None);
}

#[test]
fn an_expanded_card_is_left_alone_for_a_while() {
    let d = Docking { ball: false, quiet_until: Some(1500) };
    let flush = card_at(1920 - 328);
    let moved = after_move(&d, &flush, Some(&SCREEN), 1499);
    assert_eq!(moved.shape, Shape::Same);
    assert_eq!(moved.keep, Some(Position { x: 1592, y: 300 }));
    assert_eq!(after_move(&d, &flush, Some(&SCREEN), 1500).shape, Shape::Ball);
}

#[test]
fn a_ball_that_is_dragged_away_at_once_becomes_the_card() {
    let d = Docking { ball: true, quiet_until: Some(800) };
    let far = Area { x: 100, y: 0, width: 72, height: 72 };
    assert_eq!(after_move(&d, &far, Some(&SCREEN), 500).shape, Shape::Card);
    assert_eq!(after_move(&d, &far, Some(&SCREEN), 800).shape, Shape::Card);
}

#[test]
fn only_the_latest_move_is_looked_at() {
    assert!(move_is_latest(7, 7));
    assert!(!move_is_latest(8, 7));
}

#[test]
fn hiding_keeps_the_place_of_the_card_only() {
    let place = Some(Position { x: 1, y: 2 });
    let card = Docking::start();
    let ball = Docking { ball: true, quiet_until: None };
    assert_eq!(toggle_window(&card, true, place), Toggled::Hide(place));
    assert_eq!(toggle_window(&card, false, place), Toggled::Show);
    assert_eq!(toggle_window(&ball, true, place), Toggled::Hide(None));
    assert_eq!(hide_card(&card, place), place);
    assert_eq!(hide_card(&ball, place), None);
    assert_eq!(card_size(100), (328, 224));
    assert_eq!(card_size(400), (328, 400));
}

#[test]
fn the_page_reports_its_state() {
    match web_login_nav_handler("/__kqb_diag__", Some("rs=complete&bl=5000&ch=3")) {
        Nav::Report { message, blank } => {
            assert_eq!(message, "web-login diag: rs=complete&bl=5000&ch=3");
            assert!(!blank);
        }
        other => panic!("{other:?}"),
    }
    assert!(matches!(
        web_login_nav_handler("/__kqb_diag__", None),
        Nav::Report { blank: true, .. }
    ));
    assert!(matches!(
        web_login_nav_handler("/__kqb_diag__", Some("bl=%3200")),
        Nav::Report { blank: false, .. }
    ));
}

#[test]
fn a_short_page_is_blank() {
    assert!(page_is_blank(&pairs(&[("bl", "199")])));
    assert!(!page_is_blank(&pairs(&[("bl", "200")])));
    assert!(page_is_blank(&pairs(&[("bl", "500"), ("bl", "x")])));
    assert!(!page_is_blank(&pairs(&[("bl", "x"), ("bl", "500")])));
    assert!(page_is_blank(&pairs(&[])));
    assert!(page_is_blank(&pairs(&[("bl", "99999999999999999999")])));
}

#[test]
fn the_page_reports_a_login() {
    match web_login_nav_handler("/__kqb_login_callback__", Some("at=a%2Bb&rt=r+s&uid=u%E9%A2%9D")) {
        Nav::Login(Some(session)) => assert_eq!(
            render(session),
            "{\"access_token\":\"a+b\",\"refresh_token\":\"r s\",\"source\":\"web\",\"user_id\":\"u额\"}"
        ),
        other => panic!("{other:?}"),
    }
    assert!(matches!(
        web_login_nav_handler("/__kqb_login_callback__", Some("at=a")),
        Nav::Login(None)
    ));
    let twice = pairs(&[("at", "1"), ("rt", "r"), ("at", "2")]);
    assert_eq!(session_of_pairs(&twice).unwrap().text_at("access_token"), Some("2"));
    assert_eq!(last_of(&twice, "rt"), Some("r"));
    assert_eq!(last_of(&twice, "uid"), None);
}

#[test]
fn the_page_goes_everywhere_else() {
    for path in ["/", "/__kqb_diag__/", "/login", ""] {
        assert!(matches!(web_login_nav_handler(path, Some("bl=1")), Nav::Go));
    }
}

#[test]
fn only_a_silent_page_is_rebuilt() {
    let start = start_web_login_watchdog();
    assert_eq!(start, (WatchState::Waiting, WatchAction::LookAfter(15)));
    let asked = watch_next(start.0, WatchEvent::At(Some("www.kimi.com")));
    assert_eq!(asked, (WatchState::Asked, WatchAction::AskThenWait(3)));
    let end = |event: WatchEvent| watch_next(WatchState::Waiting, event);
    assert_eq!(end(WatchEvent::Gone), (WatchState::End, WatchAction::Finish));
    assert_eq!(end(WatchEvent::At(None)), (WatchState::End, WatchAction::Finish));
    assert_eq!(end(WatchEvent::At(Some("kimi.com"))), (WatchState::End, WatchAction::Finish));
    assert_eq!(
        watch_next(WatchState::Asked, WatchEvent::Answered(true)),
        (WatchState::End, WatchAction::Finish)
    );
    assert_eq!(
        watch_next(WatchState::Asked, WatchEvent::Answered(false)),
        (WatchState::End, WatchAction::Rebuild)
    );
}

#[test]
fn an_older_loop_gives_way() {
    assert!(poll_goes_on(3, 3, true));
    assert!(!poll_goes_on(4, 3, true));
    assert!(!poll_goes_on(3, 3, false));
}

#[test]
fn the_first_self_test_in_order_is_run() {
    assert_eq!(self_check(&args(&["app"])), None);
    assert_eq!(self_check(&args(&["app", "--check"])), Some(Check::Quota { force: false }));
    assert_eq!(
        self_check(&args(&["app", "--check", "--check-refresh"])),
        Some(Check::Quota { force: true })
    );
    assert_eq!(self_check(&args(&["--check-login", "--check"])), Some(Check::Login));
    assert_eq!(self_check(&args(&["--check-login", "--check-session"])), Some(Check::Session));
    assert_eq!(self_check(&args(&["--check-session", "--check-qr"])), Some(Check::Qr));
    assert_eq!(self_check(&args(&["--check-qr", "--check-profile"])), Some(Check::Profile));
    assert_eq!(self_check(&args(&["--check-weblogin"])), None);
    assert_eq!(
        web_checks(&args(&["--check-weblogin-late"])),
        WebChecks { now: false, late: true, error: false }
    );
    assert_eq!(
        web_checks(&args(&["--check-weblogin", "--check-weblogin-error"])),
        WebChecks { now: true, late: false, error: true }
    );
}

#[test]
fn reports_say_what_went_wrong() {
    assert_eq!(render(done()), "{\"ok\":true}");
    assert_eq!(render(failed_with("x".to_string())), "{\"error\":\"x\",\"ok\":false}");
    assert_eq!(render(report_of(Ok(Json::Int(1)))), "1");
    assert_eq!(
        render(report_of(Err(AuthError::new(ErrorKind::QuotaExpired)))),
        "{\"error\":\"AUTH_EXPIRED: 登录已过期\",\"ok\":false}"
    );
    assert_eq!(render(session_report(Ok(true))), "{\"ok\":true}");
    assert_eq!(
        render(session_report(Ok(false))),
        "{\"error\":\"crypto roundtrip mismatch\",\"ok\":false}"
    );
    assert_eq!(
        render(session_report(Err(AuthError::new(ErrorKind::Platform)))),
        "{\"error\":\"unsupported platform\",\"ok\":false}"
    );
}

#[test]
fn the_token_store_has_its_place() {
    let mac = token_store_path(Platform::MacOs, false, true).unwrap();
    assert_eq!(mac.base, Base::Home);
    assert_eq!(
        mac.path,
        "Library/Application Support/kimi-desktop/bridge-store/token-store.json"
    );
    let windows = |a: bool, b: bool| token_store_path(Platform::Windows, a, b).unwrap().path;
    assert_eq!(windows(true, true), "kimi-desktop/bridge-store/token-store.json");
    assert_eq!(windows(false, true), "Kimi/bridge-store/token-store.json");
    assert_eq!(windows(false, false), "kimi-desktop/bridge-store/token-store.json");
    assert_eq!(
        token_store_path(Platform::Other, false, false).unwrap_err().kind,
        ErrorKind::Platform
    );
}

#[test]
fn two_platforms_have_an_encryption() {
    assert_eq!(encryption_on(Platform::MacOs).unwrap(), Encryption::Keychain);
    assert_eq!(encryption_on(Platform::Windows).unwrap(), Encryption::Dpapi);
    assert_eq!(encryption_on(Platform::Other).unwrap_err().kind, ErrorKind::Platform);
}
