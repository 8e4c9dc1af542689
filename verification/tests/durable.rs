//! Durable notifications and the requests that manage them.

use pinepods_activity::access::{AppError, Authorization, Checked};
use pinepods_activity::moment::{Timestamp, FIRST_SECOND, LAST_SECOND};
use pinepods_activity::notifications;
use pinepods_activity::notifications::{ClearNotificationsQuery, NotificationsQuery, Operation};
use pinepods_activity::store::{Fetched, StoreCommand};
use pinepods_activity::task_manager::{
    BridgeEvent, InAppNotification, MsgSeverity, Signal, TaskManager,
};
use serde_json::Value;
use std::collections::{BTreeMap, BTreeSet};

fn at(secs: i64) -> Timestamp {
    Timestamp::new(secs, 0).unwrap()
}

fn manager() -> TaskManager {
    TaskManager::new("replica-a".to_string())
}

fn notif(id: &str, created: i64, expires: i64) -> InAppNotification {
    InAppNotification {
        id: id.to_string(),
        user_id: 7,
        category: "feed_refresh".to_string(),
        severity: MsgSeverity::Warning,
        title: "Feed failed".to_string(),
        body: None,
        episode_id: None,
        podcast_id: None,
        art_url: None,
        link: None,
        created_at: at(created),
        read: false,
        expires_at: at(expires),
    }
}

fn removal(id: &str) -> Vec<StoreCommand> {
    vec![
        StoreCommand::Delete { key: format!("notif:7:{}", id) },
        StoreCommand::RemoveMember {
            set: "notif:index:7".to_string(),
            member: id.to_string(),
        },
    ]
}

#[test]
fn a_pushed_notification_is_stored_and_raised() {
    let (n, plan) = manager().push_notification_at(
        "n1".to_string(),
        7,
        "ai".to_string(),
        MsgSeverity::Error,
        "AI failed".to_string(),
        Some("body".to_string()),
        Some(1),
        Some(2),
        Some("art".to_string()),
        Some("/ai".to_string()),
        Timestamp::new(1_000, 5).unwrap(),
    );
    assert_eq!(n.id, "n1");
    assert_eq!(n.title, "AI failed");
    assert_eq!(n.link, Some("/ai".to_string()));
    assert!(!n.read);
    assert_eq!(n.expires_at, Timestamp::new(1_000 + 30 * 86_400, 5).unwrap());
    assert_eq!(
        plan.writes,
        vec![
            StoreCommand::PutNotification {
                key: "notif:7:n1".to_string(),
                notification: n.clone(),
                ttl_secs: 30 * 86_400,
            },
            StoreCommand::AddMember {
                set: "notif:index:7".to_string(),
                member: "n1".to_string(),
            },
            StoreCommand::Expire { key: "notif:index:7".to_string(), secs: 31 * 86_400 },
        ]
    );
    assert_eq!(plan.signals.len(), 2);
    assert_eq!(plan.signals[0], Signal::LocalNotification(n.clone()));
    match &plan.signals[1] {
        Signal::Publish(packet) => {
            assert_eq!(packet.instance_id, "replica-a");
            assert_eq!(packet.event, BridgeEvent::Notification(n));
        }
        other => panic!("not published: {:?}", other),
    }
}

#[test]
fn a_notification_pushed_now_lives_for_a_day() {
    let (n, _) = manager()
        .push_notification(
            7,
            "new_episode".to_string(),
            MsgSeverity::Info,
            "New".to_string(),
            None,
            None,
            None,
            None,
            None,
        )
        .unwrap();
    assert_eq!(n.id.len(), 36);
    assert_eq!(n.expires_at.seconds() - n.created_at.seconds(), 86_400);
    assert_eq!(n.expires_at.nanoseconds(), n.created_at.nanoseconds());
}

#[test]
fn terms_depend_on_severity() {
    assert_eq!(TaskManager::notif_ttl_secs(MsgSeverity::Info), 86_400);
    assert_eq!(TaskManager::notif_ttl_secs(MsgSeverity::Success), 86_400);
    assert_eq!(TaskManager::notif_ttl_secs(MsgSeverity::Warning), 2_592_000);
    assert_eq!(TaskManager::notif_ttl_secs(MsgSeverity::Error), 2_592_000);
    assert_eq!(MsgSeverity::default(), MsgSeverity::Info);
    assert_eq!(MsgSeverity::Warning.name(), "warning");
    assert_eq!(MsgSeverity::Success.name(), "success");
}

#[test]
fn lists_hold_live_notifications_and_prune_the_rest() {
    let replies = vec![
        ("old".to_string(), Fetched::Found(notif("old", 1, 100))),
        ("a".to_string(), Fetched::Found(notif("a", 2, 101))),
        ("gone".to_string(), Fetched::Missing),
        ("broken".to_string(), Fetched::Unreadable),
        ("b".to_string(), Fetched::Found(notif("b", 3, 200))),
        ("silent".to_string(), Fetched::Failed),
    ];
    let (list, stale) = manager().list_notifications(7, replies, at(100));
    let ids: Vec<&str> = list.iter().map(|n| n.id.as_str()).collect();
    assert_eq!(ids, vec!["b", "a"]);
    let mut expected = removal("old");
    expected.push(StoreCommand::RemoveMember {
        set: "notif:index:7".to_string(),
        member: "gone".to_string(),
    });
    expected.extend(removal("broken"));
    assert_eq!(stale, expected);
}

#[test]
fn marking_read_stores_the_same_notification_as_read() {
    let writes = manager().mark_notification_read(Fetched::Found(notif("n", 1, 100)));
    let mut read = notif("n", 1, 100);
    read.read = true;
    assert_eq!(
        writes[0],
        StoreCommand::PutNotification {
            key: "notif:7:n".to_string(),
            notification: read,
            ttl_secs: 2_592_000,
        }
    );
    assert_eq!(writes.len(), 3);
    assert!(manager().mark_notification_read(Fetched::Missing).is_empty());
    assert!(manager().mark_notification_read(Fetched::Unreadable).is_empty());
    assert!(manager().mark_notification_read(Fetched::Failed).is_empty());
}

#[test]
fn dismissing_removes_key_and_entry() {
    assert_eq!(manager().dismiss_notification(7, "n"), removal("n"));
}

#[test]
fn clearing_read_ones_keeps_the_unread() {
    let replies = || {
        let mut again = notif("r", 1, 100);
        again.read = true;
        vec![
            ("u".to_string(), Fetched::Found(notif("u", 1, 100))),
            ("r".to_string(), Fetched::Found(again)),
            ("m".to_string(), Fetched::Missing),
            ("x".to_string(), Fetched::Unreadable),
            ("f".to_string(), Fetched::Failed),
        ]
    };
    let mut expected = removal("r");
    expected.extend(removal("m"));
    expected.extend(removal("x"));
    assert_eq!(manager().clear_notifications(7, true, replies()), expected);
    let mut all = removal("u");
    all.extend(expected);
    all.extend(removal("f"));
    assert_eq!(manager().clear_notifications(7, false, replies()), all);
}

/// A store that holds notifications and indexes and always answers.
#[derive(Default)]
struct Shelf {
    values: BTreeMap<String, InAppNotification>,
    sets: BTreeMap<String, BTreeSet<String>>,
}

impl Shelf {
    fn run(&mut self, commands: Vec<StoreCommand>) {
        for command in commands {
            match command {
                StoreCommand::PutNotification { key, notification, .. } => {
                    self.values.insert(key, notification);
                }
                StoreCommand::AddMember { set, member } => {
                    self.sets.entry(set).or_default().insert(member);
                }
                StoreCommand::RemoveMember { set, member } => {
                    self.sets.entry(set).or_default().remove(&member);
                }
                StoreCommand::Delete { key } => {
                    self.values.remove(&key);
                }
                StoreCommand::Expire { .. } => {}
                other => panic!("not for notifications: {:?}", other),
            }
        }
    }

    fn push(&mut self, user_id: i32, id: &str, now: i64) {
        let (_, plan) = manager().push_notification_at(
            id.to_string(),
            user_id,
            "feed_refresh".to_string(),
            MsgSeverity::Info,
            "Feed failed".to_string(),
            None,
            None,
            None,
            None,
            None,
            at(now),
        );
        self.run(plan.writes);
    }

    fn list(&mut self, user_id: i32, now: i64) -> Vec<InAppNotification> {
        let index = TaskManager::notif_index_key(user_id);
        let replies = self
            .sets
            .get(&index)
            .into_iter()
            .flatten()
            .map(|id| {
                let key = TaskManager::notif_key(user_id, id);
                let fetched = match self.values.get(&key) {
                    Some(n) => Fetched::Found(n.clone()),
                    None => Fetched::Missing,
                };
                (id.clone(), fetched)
            })
            .collect();
        let (list, stale) = manager().list_notifications(user_id, replies, at(now));
        self.run(stale);
        list
    }
}

#[test]
fn dismissing_takes_one_off_one_list() {
    let mut shelf = Shelf::default();
    shelf.push(7, "a", 10);
    shelf.push(7, "b", 11);
    shelf.push(7, "c", 12);
    shelf.push(8, "b", 13);
    let before = shelf.list(7, 20);
    let others = shelf.list(8, 20);
    assert_eq!(before.len(), 3);
    assert_eq!(others.len(), 1);
    shelf.run(manager().dismiss_notification(7, "b"));
    let after = shelf.list(7, 21);
    let expected: Vec<InAppNotification> = before.into_iter().filter(|n| n.id != "b").collect();
    assert_eq!(after, expected);
    assert_eq!(after.len(), 2);
    assert_eq!(shelf.list(8, 21), others);
}

#[test]
fn notifications_need_an_end_in_the_calendar() {
    let push = |severity: MsgSeverity, now: i64| {
        manager().push_notification_if_nameable(
            "n1".to_string(),
            7,
            "ai".to_string(),
            severity,
            "Done".to_string(),
            None,
            None,
            None,
            None,
            None,
            at(now),
        )
    };
    assert!(push(MsgSeverity::Info, LAST_SECOND).is_none());
    assert!(push(MsgSeverity::Info, LAST_SECOND - 86_399).is_none());
    assert!(push(MsgSeverity::Error, LAST_SECOND - 86_400).is_none());
    let (n, plan) = push(MsgSeverity::Info, LAST_SECOND - 86_400).unwrap();
    assert_eq!(n.id, "n1");
    assert_eq!(n.expires_at, at(LAST_SECOND));
    assert_eq!(plan.signals[0], Signal::LocalNotification(n));
}

#[test]
fn nothing_is_raised_unless_stored() {
    let plan = || {
        manager()
            .push_notification_at(
                "n1".to_string(),
                7,
                "ai".to_string(),
                MsgSeverity::Info,
                "Done".to_string(),
                None,
                None,
                None,
                None,
                None,
                at(5),
            )
            .1
    };
    assert!(plan().signals_after(false).is_empty());
    assert_eq!(plan().signals_after(true), plan().signals);
    assert_eq!(plan().signals_after(true).len(), 2);
}

#[test]
fn the_calendar_has_ends() {
    assert!(Timestamp::new(FIRST_SECOND, 0).is_some());
    assert!(Timestamp::new(FIRST_SECOND - 1, 0).is_none());
    assert!(Timestamp::new(LAST_SECOND, 999_999_999).is_some());
    assert!(Timestamp::new(LAST_SECOND + 1, 0).is_none());
    assert!(Timestamp::new(0, 1_000_000_000).is_none());
    assert!(Timestamp::new(59, 1_999_999_999).is_some());
    assert!(Timestamp::new(59, 2_000_000_000).is_none());
    assert!(Timestamp::new(-1, 1_000_000_000).is_some());
    assert_eq!(Timestamp::new(FIRST_SECOND, 0).unwrap().to_rfc3339(), "-262143-01-01T00:00:00+00:00");
    assert_eq!(Timestamp::new(LAST_SECOND, 0).unwrap().to_rfc3339(), "+262142-12-31T23:59:59+00:00");
}

#[test]
fn later_instants_keep_their_fraction() {
    let t = Timestamp::new(59, 1_250_000_000).unwrap();
    assert_eq!(t.plus(10), Timestamp::new(69, 250_000_000));
    assert_eq!(at(1).plus(86_400), Some(at(86_401)));
    assert_eq!(Timestamp::new(LAST_SECOND, 0).unwrap().plus(1), None);
    assert_eq!(Timestamp::new(LAST_SECOND - 1, 7).unwrap().plus(1), Timestamp::new(LAST_SECOND, 7));
    assert!(at(1).is_earlier(&at(2)));
    assert!(!at(2).is_earlier(&at(2)));
    assert!(at(2).is_earlier(&Timestamp::new(2, 1).unwrap()));
}

#[test]
fn requests_act_on_the_user_they_need_access_to() {
    let query = NotificationsQuery { user_id: 7 };
    let list = notifications::list_notifications(query);
    assert_eq!(list.access_to, 7);
    assert_eq!(list.operation, Operation::List { user_id: 7 });
    let read = notifications::mark_notification_read("n".to_string(), query);
    assert_eq!(read.operation, Operation::MarkRead { user_id: 7, id: "n".to_string() });
    let dismiss = notifications::dismiss_notification("n".to_string(), query);
    assert_eq!(dismiss.operation, Operation::Dismiss { user_id: 7, id: "n".to_string() });
    let clear =
        notifications::clear_notifications(ClearNotificationsQuery { user_id: 7, read_only: true });
    assert_eq!(clear.operation, Operation::Clear { user_id: 7, read_only: true });
    assert_eq!(clear.access_to, 7);
}

#[test]
fn what_was_done_is_answered_with_ok() {
    let done = notifications::done();
    assert_eq!(done.get("status"), Some(&Value::from("ok")));
    assert_eq!(done.to_string(), "{\"status\":\"ok\"}");
}

#[test]
fn checks_grant_only_in_turn() {
    let start = Authorization::Key;
    let a = notifications::authorize(start, Checked::Key(Ok("k".to_string())));
    assert_eq!(a, Authorization::Validity { api_key: "k".to_string() });
    let b = notifications::authorize(a, Checked::Validity(Ok(true)));
    assert_eq!(b, Authorization::Access { api_key: "k".to_string() });
    let c = notifications::authorize(b, Checked::Access(Ok(true)));
    assert_eq!(c, Authorization::Granted);
    let d = notifications::authorize(c, Checked::Access(Ok(false)));
    assert_eq!(d, Authorization::Granted);
}

#[test]
fn checks_refuse_with_their_reasons() {
    let missing = AppError::Unauthorized { message: "Missing key".to_string() };
    assert_eq!(
        notifications::authorize(Authorization::Key, Checked::Key(Err(missing.clone()))),
        Authorization::Refused { error: missing }
    );
    let validity = || Authorization::Validity { api_key: "k".to_string() };
    assert_eq!(
        notifications::authorize(validity(), Checked::Validity(Ok(false))),
        Authorization::Refused {
            error: AppError::Unauthorized { message: "Invalid API key".to_string() },
        }
    );
    let broken = AppError::Failed { message: "database".to_string() };
    assert_eq!(
        notifications::authorize(validity(), Checked::Validity(Err(broken.clone()))),
        Authorization::Refused { error: broken.clone() }
    );
    let access = || Authorization::Access { api_key: "k".to_string() };
    assert_eq!(
        notifications::authorize(access(), Checked::Access(Ok(false))),
        Authorization::Refused {
            error: AppError::Forbidden {
                message: "You can only manage your own notifications!".to_string(),
            },
        }
    );
    assert_eq!(
        notifications::authorize(access(), Checked::Access(Err(broken.clone()))),
        Authorization::Refused { error: broken.clone() }
    );
    let refused = || Authorization::Refused {
        error: AppError::Failed { message: "database".to_string() },
    };
    assert_eq!(notifications::authorize(refused(), Checked::Access(Ok(true))), refused());
}
