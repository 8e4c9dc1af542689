//! Sockets, the bridge between replicas, and requests on tasks.

use pinepods_activity::access::{AppError, Authorization, Checked};
use pinepods_activity::double::Double;
use pinepods_activity::moment::Timestamp;
use pinepods_activity::task_manager::{
    BridgeEvent, BridgePacket, InAppNotification, MsgSeverity, Signal, TaskInfo, TaskManager,
    TaskStatus, TaskUpdate,
};
use pinepods_activity::websocket;
use pinepods_activity::websocket::{
    Forwarding, Incoming, Received, SocketAction, SocketEvent, SocketGate, TaskCall,
    WebSocketManager, WebSocketQuery, BRIDGE_RETRY_SECS,
};
use serde_json::Value;

fn at(secs: i64) -> Timestamp {
    Timestamp::new(secs, 0).unwrap()
}

fn task(id: &str, status: TaskStatus) -> TaskInfo {
    TaskInfo {
        id: id.to_string(),
        task_type: "feed_refresh".to_string(),
        user_id: 7,
        status,
        progress: Double { bits: 0 },
        message: None,
        created_at: at(0),
        updated_at: at(0),
        result: None,
        episode_title: None,
        podcast_name: None,
        completed_at: None,
        art_url: None,
        detail: None,
        group: None,
        group_label: None,
        total: None,
    }
}

fn update(user_id: i32) -> TaskUpdate {
    TaskUpdate {
        task_id: "t".to_string(),
        user_id,
        task_type: "feed_refresh".to_string(),
        item_id: None,
        progress: Double { bits: 0 },
        status: TaskStatus::Running,
        details: Value::Null,
        started_at: String::new(),
        completed_at: None,
        art_url: None,
        detail: None,
        group: None,
        group_label: None,
        total: None,
    }
}

fn notif(user_id: i32) -> InAppNotification {
    InAppNotification {
        id: "n".to_string(),
        user_id,
        category: "ai".to_string(),
        severity: MsgSeverity::Info,
        title: "T".to_string(),
        body: None,
        episode_id: None,
        podcast_id: None,
        art_url: None,
        link: None,
        created_at: at(0),
        read: false,
        expires_at: at(10),
    }
}

#[test]
fn connections_are_kept_per_user() {
    let mut m = WebSocketManager::new();
    assert!(m.broadcast_to_user(7).is_empty());
    m.add_connection(7, 1);
    m.add_connection(7, 2);
    m.add_connection(8, 3);
    assert_eq!(m.broadcast_to_user(7), vec![1, 2]);
    m.remove_connection(7, 1);
    assert_eq!(m.broadcast_to_user(7), vec![2]);
    m.remove_connection(7, 9);
    assert_eq!(m.broadcast_to_user(7), vec![2]);
    m.remove_connection(7, 2);
    assert!(m.broadcast_to_user(7).is_empty());
    assert_eq!(m.broadcast_to_user(8), vec![3]);
    m.remove_connection(99, 1);
    assert_eq!(m.broadcast_to_user(8), vec![3]);
}

#[test]
fn opening_and_closing_leaves_no_trace() {
    let mut m = WebSocketManager::new();
    m.add_connection(7, 1);
    m.add_connection(7, 5);
    m.remove_connection(7, 5);
    assert_eq!(m.broadcast_to_user(7), vec![1]);
}

#[test]
fn sockets_open_for_their_user_and_the_system() {
    assert_eq!(websocket::task_progress_websocket(7, Some(true), Some(7)), SocketGate::Upgrade);
    assert_eq!(websocket::task_progress_websocket(7, Some(true), Some(1)), SocketGate::Upgrade);
    assert_eq!(websocket::task_progress_websocket(7, Some(true), Some(8)), SocketGate::OtherUser);
    assert_eq!(websocket::task_progress_websocket(7, Some(true), None), SocketGate::InvalidKey);
    assert_eq!(websocket::task_progress_websocket(7, Some(false), Some(7)), SocketGate::InvalidKey);
    assert_eq!(websocket::task_progress_websocket(7, None, Some(7)), SocketGate::InvalidKey);
    assert_eq!(websocket::socket_verified(Some(true)), SocketGate::Identify);
    assert_eq!(SocketGate::Upgrade.refusal(), None);
    assert_eq!(SocketGate::InvalidKey.refusal(), Some((403, "Invalid API key")));
    assert_eq!(
        SocketGate::OtherUser.refusal(),
        Some((403, "Unauthorized - API key does not belong to requested user"))
    );
    assert_eq!(WebSocketQuery { api_key: "k".to_string() }.api_key, "k");
}

#[test]
fn sockets_send_what_concerns_their_user() {
    match websocket::handle_socket_event(7, SocketEvent::Update(update(7))) {
        SocketAction::Send(m) => {
            assert_eq!(m.event, "update");
            assert_eq!(m.task, Some(update(7)));
            assert_eq!(m.tasks, None);
        }
        other => panic!("not sent: {:?}", other),
    }
    match websocket::handle_socket_event(7, SocketEvent::Notification(notif(7))) {
        SocketAction::Send(m) => {
            assert_eq!(m.event, "notification");
            assert_eq!(m.notification, Some(notif(7)));
            assert_eq!(m.notifications, None);
        }
        other => panic!("not sent: {:?}", other),
    }
    assert_eq!(
        websocket::handle_socket_event(7, SocketEvent::Notification(notif(8))),
        SocketAction::Continue
    );
    assert_eq!(
        websocket::handle_socket_event(7, SocketEvent::UpdatesClosed),
        SocketAction::Stop
    );
    for event in [
        SocketEvent::UpdatesLagged,
        SocketEvent::NotificationsClosed,
        SocketEvent::NotificationsLagged,
    ] {
        assert_eq!(websocket::handle_socket_event(7, event), SocketAction::Continue);
    }
    assert_eq!(websocket::forward(7, Received::Update(update(7))), Forwarding::Pass(update(7)));
    assert_eq!(websocket::forward(7, Received::Update(update(8))), Forwarding::Skip);
    assert_eq!(websocket::forward(7, Received::Lagged), Forwarding::Stop);
    assert_eq!(websocket::forward(7, Received::Closed), Forwarding::Stop);
}

#[test]
fn sockets_listen_until_the_other_end_leaves() {
    assert!(websocket::keeps_listening(&Incoming::Text("ping".to_string())));
    assert!(websocket::keeps_listening(&Incoming::Other));
    assert!(!websocket::keeps_listening(&Incoming::Close));
    assert!(!websocket::keeps_listening(&Incoming::Error));
}

#[test]
fn the_first_message_holds_both_lists() {
    let m = websocket::initial_message(
        Some(vec![task("a", TaskStatus::Pending)]),
        Some(vec![notif(7)]),
    );
    assert_eq!(m.event, "initial");
    assert_eq!(m.tasks, Some(vec![task("a", TaskStatus::Pending)]));
    assert_eq!(m.notifications, Some(vec![notif(7)]));
    let empty = websocket::initial_message(None, None);
    assert_eq!(empty.tasks, Some(vec![]));
    assert_eq!(empty.notifications, Some(vec![]));
    assert_eq!(websocket::initial_text(Some("x".to_string())), "x");
    assert_eq!(websocket::initial_text(None), "{}");
}

#[test]
fn events_reach_each_replica_once() {
    let a = TaskManager::new("a".to_string());
    let b = TaskManager::new("b".to_string());
    let raised = a.emit_update(update(7));
    let packet = |signals: Vec<Signal>| match signals.into_iter().nth(1) {
        Some(Signal::Publish(packet)) => packet,
        other => panic!("not published: {:?}", other),
    };
    assert_eq!(raised[0], Signal::LocalUpdate(update(7)));
    let on_b = websocket::handle_bridge_packet(&b, Some(packet(raised)));
    assert_eq!(on_b, vec![Signal::LocalUpdate(update(7))]);
    let on_a = websocket::handle_bridge_packet(&a, Some(packet(a.emit_update(update(7)))));
    assert!(on_a.is_empty());
    let foreign =
        BridgePacket { instance_id: "a".to_string(), event: BridgeEvent::Notification(notif(7)) };
    assert_eq!(
        websocket::handle_bridge_packet(&b, Some(foreign)),
        vec![Signal::LocalNotification(notif(7))]
    );
    assert!(websocket::handle_bridge_packet(&b, None).is_empty());
    assert_eq!(BRIDGE_RETRY_SECS, 5);
}

#[test]
fn tasks_are_shown_to_their_owner() {
    assert_eq!(websocket::get_user_tasks(7).access_needed(), Some(7));
    let shown = websocket::get_task_status(task("a", TaskStatus::Failed));
    assert_eq!(shown.access_needed(), Some(7));
    assert_eq!(websocket::get_active_tasks(Some("7")), TaskCall::Active { user_id: 7 });
    assert_eq!(websocket::get_active_tasks(Some("+7")), TaskCall::Active { user_id: 7 });
    assert_eq!(websocket::get_active_tasks(Some("-7")), TaskCall::Active { user_id: -7 });
    assert_eq!(websocket::get_active_tasks(Some("seven")), TaskCall::Nothing);
    assert_eq!(websocket::get_active_tasks(Some("2147483648")), TaskCall::Nothing);
    assert_eq!(websocket::get_active_tasks(Some("")), TaskCall::Nothing);
    assert_eq!(websocket::get_active_tasks(None), TaskCall::Nothing);
    assert_eq!(TaskCall::Nothing.access_needed(), None);
}

#[test]
fn active_tasks_are_pending_or_running() {
    let list = vec![
        task("p", TaskStatus::Pending),
        task("f", TaskStatus::Failed),
        task("r", TaskStatus::Running),
        task("c", TaskStatus::Completed),
    ];
    let ids: Vec<String> = websocket::only_active(list).into_iter().map(|t| t.id).collect();
    assert_eq!(ids, vec!["p", "r"]);
}

#[test]
fn strangers_are_refused_tasks() {
    let access = Authorization::Access { api_key: "k".to_string() };
    assert_eq!(
        websocket::authorize(access, Checked::Access(Ok(false))),
        Authorization::Refused {
            error: AppError::Forbidden {
                message: "You can only view your own tasks!".to_string(),
            },
        }
    );
}
