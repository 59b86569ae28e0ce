use rusty_chat::auth::{login_process, login_process_at, logout, LogoutOutcome};
use rusty_chat::clock::{Timestamp, LATEST_CLOCK_SECS};
use rusty_chat::dto::CookieStruct;
use rusty_chat::ids::socket_id_of;
use rusty_chat::session::SessionTable;
use rusty_chat::socket_actor::{admit_socket, ws_index};
use rusty_chat::sockets::{OpenSocketData, SocketRegistry};

fn at(secs: i64) -> Timestamp {
    Timestamp { secs, nanos: 0 }
}

fn cookie(id: &str, user: &str) -> CookieStruct {
    CookieStruct { id: id.to_string(), user_name: user.to_string() }
}

#[test]
fn session_id_is_base64_of_socket_id() {
    let mut table = SessionTable::new();
    let c = login_process_at(&mut table, at(1000), &[0u8; 32], None, "alice");
    assert_eq!(c.id, "AAAAAAAAAAAAAAAAAAAAAAAAAAAAAAAAAAAAAAAAAAA=");
    assert_eq!(c.user_name, "alice");
    assert_eq!(socket_id_of(&c.id), Some([0u8; 32]));
}

#[test]
fn encoded_ids_decode_back() {
    let id = [7u8; 32];
    let mut table = SessionTable::new();
    let c = login_process_at(&mut table, at(5), &id, None, "bo");
    assert_eq!(c.id, "BwcHBwcHBwcHBwcHBwcHBwcHBwcHBwcHBwcHBwcHBwc=");
    assert_eq!(socket_id_of(&c.id), Some(id));
}

#[test]
fn socket_id_of_refuses_bad_text() {
    assert_eq!(socket_id_of("not base64!"), None);
    assert_eq!(socket_id_of("AAAA"), None);
}

#[test]
fn login_then_socket_opens_for_the_user() {
    let mut table = SessionTable::new();
    let c = login_process_at(&mut table, at(1000), &[7u8; 32], None, "alice");
    let actor = admit_socket(&mut table, at(1100), Some(c.clone())).expect("socket opens");
    assert_eq!(actor.signed_in_user, "alice");
    assert_eq!(actor.session_id, c.id);
    assert_eq!(actor.socket_id, [7u8; 32]);
    assert_eq!(table.get(&c.id).unwrap().expiry, at(1400));
}

#[test]
fn session_still_opens_socket_at_its_expiry() {
    let mut table = SessionTable::new();
    let c = login_process_at(&mut table, at(1000), &[1u8; 32], None, "alice");
    assert!(admit_socket(&mut table, at(1300), Some(c)).is_some());
}

#[test]
fn expired_session_is_refused_and_closed() {
    let mut table = SessionTable::new();
    let c = login_process_at(&mut table, at(1000), &[1u8; 32], None, "alice");
    let late = Timestamp { secs: 1300, nanos: 1 };
    assert!(admit_socket(&mut table, late, Some(c.clone())).is_none());
    assert!(!table.contains_key(&c.id));
    assert_eq!(table.len(), 0);
}

#[test]
fn unknown_or_missing_cookie_opens_nothing() {
    let mut table = SessionTable::new();
    let _ = login_process_at(&mut table, at(1000), &[1u8; 32], None, "alice");
    assert!(admit_socket(&mut table, at(1001), None).is_none());
    assert!(admit_socket(&mut table, at(1001), Some(cookie("nobody", "alice"))).is_none());
    assert_eq!(table.len(), 1);
}

#[test]
fn login_drops_sessions_that_are_no_longer_live() {
    let mut table = SessionTable::new();
    let a = login_process_at(&mut table, at(1000), &[1u8; 32], None, "alice");
    let b = login_process_at(&mut table, at(1300), &[2u8; 32], None, "bob");
    assert!(!table.contains_key(&a.id));
    assert!(table.contains_key(&b.id));
    assert_eq!(table.len(), 1);
}

#[test]
fn login_keeps_live_sessions() {
    let mut table = SessionTable::new();
    let a = login_process_at(&mut table, at(1000), &[1u8; 32], None, "alice");
    let b = login_process_at(&mut table, at(1299), &[2u8; 32], None, "bob");
    assert_eq!(table.get(&a.id).unwrap().user_name, "alice");
    assert_eq!(table.get(&b.id).unwrap().expiry, at(1599));
    assert_eq!(table.len(), 2);
}

#[test]
fn login_closes_the_session_of_the_old_cookie() {
    let mut table = SessionTable::new();
    let a = login_process_at(&mut table, at(1000), &[1u8; 32], None, "alice");
    let b = login_process_at(&mut table, at(1010), &[2u8; 32], Some(a.clone()), "alice");
    assert!(!table.contains_key(&a.id));
    assert!(table.contains_key(&b.id));
    assert_eq!(table.len(), 1);
}

#[test]
fn logout_closes_session_and_socket() {
    let mut table = SessionTable::new();
    let mut sockets: SocketRegistry<u32> = SocketRegistry::new();
    let c = login_process_at(&mut table, at(1000), &[3u8; 32], None, "carol");
    let actor = admit_socket(&mut table, at(1001), Some(c.clone())).unwrap();
    actor.started(&mut sockets, 42);
    assert_eq!(sockets.len(), 1);
    let outcome = logout(&mut table, &mut sockets, Some(c.clone()));
    assert_eq!(outcome, LogoutOutcome::LoggedOut);
    assert_eq!(table.len(), 0);
    assert_eq!(sockets.len(), 0);
    assert!(admit_socket(&mut table, at(1002), Some(c)).is_none());
}

#[test]
fn logout_without_cookie_changes_nothing() {
    let mut table = SessionTable::new();
    let mut sockets: SocketRegistry<u32> = SocketRegistry::new();
    let _ = login_process_at(&mut table, at(1000), &[3u8; 32], None, "carol");
    sockets.insert([3u8; 32], OpenSocketData { addr: 1, user_name: "carol".to_string() });
    assert_eq!(logout(&mut table, &mut sockets, None), LogoutOutcome::NoCookie);
    assert_eq!(table.len(), 1);
    assert_eq!(sockets.len(), 1);
}

#[test]
fn logout_with_bad_session_id_closes_only_the_session() {
    let mut table = SessionTable::new();
    let mut sockets: SocketRegistry<u32> = SocketRegistry::new();
    sockets.insert([3u8; 32], OpenSocketData { addr: 1, user_name: "carol".to_string() });
    let outcome = logout(&mut table, &mut sockets, Some(cookie("not base64!", "carol")));
    assert_eq!(outcome, LogoutOutcome::BadSessionId);
    assert_eq!(sockets.len(), 1);
}

#[test]
fn clock_reading_functions_agree_with_the_clock() {
    let mut table = SessionTable::new();
    let c = login_process(&mut table, None, "dave");
    assert_eq!(c.user_name, "dave");
    let expiry = table.get(&c.id).unwrap().expiry;
    assert!(expiry.secs > 1_600_000_300);
    assert!(expiry.secs <= LATEST_CLOCK_SECS + 300);
    assert!(expiry.nanos < 1_000_000_000);
    let actor = ws_index(&mut table, Some(c.clone())).expect("fresh session opens a socket");
    assert_eq!(actor.signed_in_user, "dave");
    assert_eq!(Some(actor.socket_id), socket_id_of(&c.id));
}

#[test]
fn two_random_session_ids_differ() {
    let mut table = SessionTable::new();
    let a = login_process(&mut table, None, "erin");
    let b = login_process(&mut table, None, "erin");
    assert_ne!(a.id, b.id);
    assert_eq!(table.len(), 2);
}
