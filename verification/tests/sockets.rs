use rusty_chat::clock::{Elapsed, Timestamp};
use rusty_chat::auth::login_process_at;
use rusty_chat::session::SessionTable;
use rusty_chat::socket_actor::{
    admit_socket, full_update, HeartbeatAction, SocketAction, WebSocketActor, WsMessage,
};
use rusty_chat::sockets::{ids_equal, OpenSocketData, SocketRegistry};
use rusty_chat::watcher::{changes_reply, ChangeEvent, ChangesReply};

fn at(secs: i64) -> Timestamp {
    Timestamp { secs, nanos: 0 }
}

fn actor(id: u8, user: &str, session: &str) -> WebSocketActor {
    WebSocketActor {
        signed_in_user: user.to_string(),
        session_id: session.to_string(),
        socket_id: [id; 32],
    }
}

#[test]
fn registry_keeps_order_and_replaces_same_id() {
    let mut sockets: SocketRegistry<&str> = SocketRegistry::new();
    sockets.insert([1; 32], OpenSocketData { addr: "a", user_name: "ann".to_string() });
    sockets.insert([2; 32], OpenSocketData { addr: "b", user_name: "ben".to_string() });
    sockets.insert([1; 32], OpenSocketData { addr: "c", user_name: "cat".to_string() });
    assert_eq!(sockets.len(), 2);
    assert_eq!(sockets.user_names(), vec!["cat".to_string(), "ben".to_string()]);
    assert_eq!(*sockets.addr_at(0), "c");
    assert!(sockets.contains(&[2; 32]));
    let removed = sockets.remove(&[2; 32]).unwrap();
    assert_eq!(removed.user_name, "ben");
    assert!(!sockets.contains(&[2; 32]));
    assert!(sockets.remove(&[9; 32]).is_none());
}

#[test]
fn stopping_undoes_started() {
    let mut sockets: SocketRegistry<u8> = SocketRegistry::new();
    sockets.insert([5; 32], OpenSocketData { addr: 0, user_name: "zed".to_string() });
    let a = actor(1, "ann", "s");
    a.started(&mut sockets, 7);
    assert_eq!(sockets.user_names(), vec!["zed".to_string(), "ann".to_string()]);
    a.stopping(&mut sockets);
    assert_eq!(sockets.user_names(), vec!["zed".to_string()]);
    assert_eq!(sockets.len(), 1);
}

#[test]
fn ids_equal_compares_every_byte() {
    let mut b = [4u8; 32];
    assert!(ids_equal(&[4u8; 32], &b));
    b[31] = 5;
    assert!(!ids_equal(&[4u8; 32], &b));
}

#[test]
fn heartbeat_stops_only_after_the_timeout() {
    let a = actor(1, "ann", "s");
    assert_eq!(a.hb(Elapsed { secs: 3, nanos: 0 }), HeartbeatAction::Ping);
    assert_eq!(a.hb(Elapsed { secs: 10, nanos: 0 }), HeartbeatAction::Ping);
    assert_eq!(a.hb(Elapsed { secs: 10, nanos: 1 }), HeartbeatAction::Stop);
    assert_eq!(a.hb(Elapsed { secs: 11, nanos: 0 }), HeartbeatAction::Stop);
}

#[test]
fn messages_on_a_live_session_are_dispatched_and_renew_it() {
    let mut table = SessionTable::new();
    let c = login_process_at(&mut table, at(1000), &[8u8; 32], None, "ann");
    let a = admit_socket(&mut table, at(1000), Some(c.clone())).unwrap();
    assert_eq!(a.handle_at(&mut table, at(1010), WsMessage::Ping(vec![1])), SocketAction::Ignore);
    assert_eq!(a.handle_at(&mut table, at(1020), WsMessage::Pong(vec![])), SocketAction::Refresh);
    assert_eq!(
        a.handle_at(&mut table, at(1030), WsMessage::Text("{\"message\":\"hi\"}".to_string())),
        SocketAction::Chat("{\"message\":\"hi\"}".to_string())
    );
    assert_eq!(a.handle_at(&mut table, at(1040), WsMessage::Binary(vec![0])), SocketAction::UnexpectedBinary);
    assert_eq!(a.handle_at(&mut table, at(1050), WsMessage::Other), SocketAction::Ignore);
    assert_eq!(table.get(&c.id).unwrap().expiry, at(1350));
    assert_eq!(a.handle_at(&mut table, at(1060), WsMessage::Close), SocketAction::Stop);
    assert_eq!(table.get(&c.id).unwrap().expiry, at(1360));
}

#[test]
fn messages_on_a_dead_session_close_the_socket() {
    let mut table = SessionTable::new();
    let c = login_process_at(&mut table, at(1000), &[8u8; 32], None, "ann");
    let a = admit_socket(&mut table, at(1000), Some(c.clone())).unwrap();
    assert_eq!(a.handle_at(&mut table, at(1301), WsMessage::Pong(vec![])), SocketAction::Stop);
    assert_eq!(table.len(), 0);
    let stranger = actor(2, "bob", "no such session");
    assert_eq!(stranger.handle_at(&mut table, at(1302), WsMessage::Text("x".to_string())), SocketAction::Stop);
    assert!(a.handle(&mut table, WsMessage::Ping(vec![])) == SocketAction::Stop);
}

#[test]
fn full_update_lists_online_users() {
    let mut sockets: SocketRegistry<()> = SocketRegistry::new();
    sockets.insert([1; 32], OpenSocketData { addr: (), user_name: "ann".to_string() });
    sockets.insert([2; 32], OpenSocketData { addr: (), user_name: "ben".to_string() });
    let r = full_update("ann".to_string(), true, "[]".to_string(), &sockets);
    assert_eq!(r.user_name, "ann");
    assert_eq!(r.all_messages, "[]");
    assert_eq!(r.message_to_client, "");
    assert!(r.is_update);
    assert_eq!(r.all_online_users, vec!["ann".to_string(), "ben".to_string()]);
}

#[test]
fn change_events_and_watcher_replies() {
    assert_eq!(ChangeEvent("index.html".to_string()).text(), "reload: index.html");
    assert_eq!(changes_reply(WsMessage::Ping(vec![1, 2])), ChangesReply::Pong(vec![1, 2]));
    assert_eq!(changes_reply(WsMessage::Text("hey".to_string())), ChangesReply::Text("hey".to_string()));
    assert_eq!(changes_reply(WsMessage::Binary(vec![9])), ChangesReply::Binary(vec![9]));
    assert_eq!(changes_reply(WsMessage::Close), ChangesReply::Stop);
    assert_eq!(changes_reply(WsMessage::Pong(vec![])), ChangesReply::Nothing);
    assert_eq!(changes_reply(WsMessage::Other), ChangesReply::Nothing);
}

#[test]
fn using_a_session_leaves_other_sessions_alone() {
    let mut table = SessionTable::new();
    let a = login_process_at(&mut table, at(1000), &[1u8; 32], None, "ann");
    let b = login_process_at(&mut table, at(1100), &[2u8; 32], None, "ben");
    let socket_a = admit_socket(&mut table, at(1200), Some(a.clone())).unwrap();
    assert_eq!(socket_a.handle_at(&mut table, at(1250), WsMessage::Pong(vec![])), SocketAction::Refresh);
    assert_eq!(table.get(&a.id).unwrap().expiry, at(1550));
    assert_eq!(table.get(&b.id).unwrap().expiry, at(1400));
    assert_eq!(table.get(&b.id).unwrap().user_name, "ben");
}
