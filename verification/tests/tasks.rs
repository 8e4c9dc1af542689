//! The life of tasks: what is stored, what is sent, and what comes back in lists.

use pinepods_activity::double::Double;
use pinepods_activity::moment::Timestamp;
use pinepods_activity::store::{Fetched, StoreCommand};
use pinepods_activity::task_manager::{
    BridgeEvent, LoadError, Plan, Signal, TaskInfo, TaskManager, TaskStatus, TaskUpdate,
    NOTIF_INDEX_TTL_SECS, NOTIF_TTL_STICKY_SECS, NOTIF_TTL_TRANSIENT_SECS, TASK_EVENTS_CHANNEL,
    TASK_INDEX_TTL_SECS, TASK_TTL_SECS,
};
use serde_json::Value;

fn double(x: f64) -> Double {
    Double { bits: x.to_bits() }
}

fn at(secs: i64) -> Timestamp {
    Timestamp::new(secs, 0).unwrap()
}

fn manager() -> TaskManager {
    TaskManager::new("replica-a".to_string())
}

fn task(id: &str, created: i64) -> TaskInfo {
    TaskInfo {
        id: id.to_string(),
        task_type: "podcast_download".to_string(),
        user_id: 7,
        status: TaskStatus::Pending,
        progress: double(0.0),
        message: None,
        created_at: at(created),
        updated_at: at(created),
        result: None,
        episode_title: None,
        podcast_name: None,
        completed_at: None,
        art_url: None,
        detail: None,
        group: None,
        group_label: None,
        total: None,
    }
}

fn saved(plan: &Plan) -> &TaskInfo {
    match &plan.writes[0] {
        StoreCommand::PutTask { task, .. } => task,
        other => panic!("not a task: {:?}", other),
    }
}

fn sent(plan: &Plan) -> &TaskUpdate {
    match &plan.signals[0] {
        Signal::LocalUpdate(update) => update,
        other => panic!("not an update: {:?}", other),
    }
}

fn detail<'a>(update: &'a TaskUpdate, key: &str) -> Option<&'a Value> {
    update.details.get(key)
}

#[test]
fn a_new_task_is_pending_and_has_a_fresh_id() {
    let (id, plan) = manager().create_task("feed_refresh".to_string(), 7);
    assert_eq!(id.len(), 36);
    assert_eq!(&id[14..15], "4");
    assert!("89ab".contains(&id[19..20]));
    assert!(id.chars().all(|c| c == '-' || c.is_ascii_digit() || ('a'..='f').contains(&c)));
    let (other, _) = manager().create_task("feed_refresh".to_string(), 7);
    assert_ne!(id, other);
    let task = saved(&plan);
    assert_eq!(task.id, id);
    assert_eq!(task.status, TaskStatus::Pending);
    assert_eq!(task.progress, double(0.0));
    assert_eq!(task.task_type, "feed_refresh");
    assert!(task.created_at.seconds() > 1_500_000_000);
    assert_eq!(sent(&plan).details, Value::Object(Default::default()));
}

#[test]
fn saving_a_task_writes_key_index_and_expiry() {
    let writes = manager().save_task(&task("t1", 10));
    assert_eq!(
        writes,
        vec![
            StoreCommand::PutTask {
                key: "task:t1".to_string(),
                task: task("t1", 10),
                ttl_secs: 604_800,
            },
            StoreCommand::AddMember {
                set: "task:index:7".to_string(),
                member: "t1".to_string(),
            },
            StoreCommand::Expire { key: "task:index:7".to_string(), secs: 691_200 },
        ]
    );
}

#[test]
fn creating_a_download_tells_sockets_and_replicas() {
    let plan = manager().create_task_at(
        "t1".to_string(),
        "podcast_download".to_string(),
        7,
        Some(42),
        Some("Episode".to_string()),
        Some("Podcast".to_string()),
        at(0),
        at(1),
    );
    assert_eq!(saved(&plan).episode_title, Some("Episode".to_string()));
    assert_eq!(saved(&plan).podcast_name, Some("Podcast".to_string()));
    assert_eq!(saved(&plan).updated_at, at(1));
    assert_eq!(plan.signals.len(), 2);
    let update = sent(&plan);
    assert_eq!(update.item_id, Some(42));
    assert_eq!(update.started_at, "1970-01-01T00:00:00+00:00");
    assert_eq!(update.completed_at, None);
    match &plan.signals[1] {
        Signal::Publish(packet) => {
            assert_eq!(packet.instance_id, "replica-a");
            assert_eq!(packet.event, BridgeEvent::Task(update.clone()));
        }
        other => panic!("not published: {:?}", other),
    }
    assert_eq!(TASK_EVENTS_CHANNEL, "pinepods:events");
}

#[test]
fn plain_and_download_tasks_differ_in_names_only() {
    let plain = manager().create_task_at(
        "a".to_string(),
        "podcast_download".to_string(),
        7,
        Some(42),
        None,
        None,
        at(0),
        at(1),
    );
    let download = manager().create_task_at(
        "b".to_string(),
        "podcast_download".to_string(),
        7,
        Some(42),
        Some("Episode".to_string()),
        Some("Podcast".to_string()),
        at(2),
        at(3),
    );
    let mut expected = saved(&plain).clone();
    expected.id = "b".to_string();
    expected.created_at = at(2);
    expected.updated_at = at(3);
    expected.episode_title = Some("Episode".to_string());
    expected.podcast_name = Some("Podcast".to_string());
    assert_eq!(saved(&download), &expected);
    let mut told = sent(&plain).clone();
    told.task_id = "b".to_string();
    told.started_at = "1970-01-01T00:00:02+00:00".to_string();
    assert_eq!(sent(&download), &told);
}

#[test]
fn dates_are_written_as_rfc_3339() {
    let plan = manager().complete_task_at(
        task("t1", 1_700_000_000),
        None,
        None,
        Timestamp::new(1_700_000_001, 500_000_000).unwrap(),
        at(1_700_000_002),
    );
    assert_eq!(sent(&plan).started_at, "2023-11-14T22:13:20+00:00");
    assert_eq!(sent(&plan).completed_at, Some("2023-11-14T22:13:21.500+00:00".to_string()));
}

#[test]
fn a_display_replaces_only_what_is_given() {
    let mut before = task("t1", 0);
    before.art_url = Some("old.png".to_string());
    before.detail = Some("old".to_string());
    let plan = manager().set_task_display_at(
        before,
        None,
        Some("72 of 128 feeds".to_string()),
        Some("g".to_string()),
        Some("Feeds".to_string()),
        Some(128),
        at(9),
    );
    let after = saved(&plan);
    assert_eq!(after.art_url, Some("old.png".to_string()));
    assert_eq!(after.detail, Some("72 of 128 feeds".to_string()));
    assert_eq!(after.group, Some("g".to_string()));
    assert_eq!(after.group_label, Some("Feeds".to_string()));
    assert_eq!(after.total, Some(128));
    assert_eq!(after.updated_at, at(9));
    assert_eq!(sent(&plan).art_url, Some("old.png".to_string()));
    assert_eq!(sent(&plan).total, Some(128));
    let now = manager().set_task_display(task("t1", 0), None, None, None, None, None);
    assert!(saved(&now).updated_at.seconds() > 1_500_000_000);
}

#[test]
fn metadata_is_stored_silently() {
    let mut before = task("t1", 0);
    before.podcast_name = Some("old".to_string());
    let plan = manager().set_task_metadata_at(before, Some("E".to_string()), None, at(5));
    assert_eq!(saved(&plan).episode_title, Some("E".to_string()));
    assert_eq!(saved(&plan).podcast_name, None);
    assert_eq!(saved(&plan).updated_at, at(5));
    assert!(plan.signals.is_empty());
    let now = manager().set_task_metadata(task("t1", 0), None, None);
    assert!(saved(&now).updated_at.seconds() > 1_500_000_000);
}

#[test]
fn progress_is_held_within_bounds() {
    let m = manager();
    for (given, kept) in [(-5.0, 0.0), (0.0, 0.0), (33.5, 33.5), (100.0, 100.0), (250.0, 100.0)] {
        let plan = m.update_task_progress(task("t1", 0), double(given), None);
        assert_eq!(saved(&plan).progress, double(kept));
        assert_eq!(sent(&plan).progress, double(kept));
    }
    let plan = m.update_task_progress(task("t1", 0), double(f64::NAN), None);
    assert!(f64::from_bits(saved(&plan).progress.bits).is_nan());
}

#[test]
fn the_first_progress_starts_a_task() {
    let m = manager();
    let none = m.update_task_progress(task("t1", 0), double(0.0), None);
    assert_eq!(saved(&none).status, TaskStatus::Pending);
    let some = m.update_task_progress(task("t1", 0), double(1.0), None);
    assert_eq!(saved(&some).status, TaskStatus::Running);
    let mut failed = task("t1", 0);
    failed.status = TaskStatus::Failed;
    let late = m.update_task_progress(failed, double(50.0), None);
    assert_eq!(saved(&late).status, TaskStatus::Failed);
}

#[test]
fn progress_details_name_the_episode() {
    let plan = manager().update_task_progress_with_details(
        task("t1", 0),
        double(10.0),
        Some("Fetching".to_string()),
        Some(42),
        Some("youtube_download".to_string()),
        Some("Title".to_string()),
    );
    let update = sent(&plan);
    assert_eq!(update.task_type, "youtube_download");
    assert_eq!(saved(&plan).task_type, "podcast_download");
    assert_eq!(saved(&plan).message, Some("Fetching".to_string()));
    assert_eq!(detail(update, "status_text"), Some(&Value::from("Fetching")));
    assert_eq!(detail(update, "episode_id"), Some(&Value::from(42)));
    assert_eq!(detail(update, "episode_title"), Some(&Value::from("Title")));
    let bare = manager().update_task_progress_with_item_id(
        task("t1", 0),
        double(10.0),
        None,
        None,
        None,
    );
    assert_eq!(detail(sent(&bare), "status_text"), Some(&Value::from("Processing...")));
    assert_eq!(detail(sent(&bare), "episode_id"), None);
    assert_eq!(sent(&bare).task_type, "podcast_download");
}

#[test]
fn a_completed_task_is_dated_and_full() {
    let result = Value::from(3);
    let plan =
        manager().complete_task_at(task("t1", 0), Some(result.clone()), None, at(20), at(21));
    let done = saved(&plan);
    assert_eq!(done.status, TaskStatus::Completed);
    assert_eq!(done.progress, double(100.0));
    assert_eq!(done.completed_at, Some(at(20)));
    assert_eq!(done.updated_at, at(21));
    assert_eq!(done.result, Some(result.clone()));
    assert_eq!(detail(sent(&plan), "status_text"), Some(&Value::from("Completed")));
    assert_eq!(detail(sent(&plan), "result"), Some(&result));
    let empty = manager().complete_task(task("t1", 0), None, Some("Done".to_string()));
    assert_eq!(detail(sent(&empty), "result"), Some(&Value::Null));
    assert_eq!(detail(sent(&empty), "status_text"), Some(&Value::from("Done")));
    assert!(saved(&empty).completed_at.is_some());
}

#[test]
fn a_failed_task_tells_why() {
    let mut before = task("t1", 0);
    before.progress = double(40.0);
    let plan =
        manager().fail_task_at(before, "Server returned 404".to_string(), at(30), at(31));
    let failed = saved(&plan);
    assert_eq!(failed.status, TaskStatus::Failed);
    assert_eq!(failed.progress, double(40.0));
    assert_eq!(failed.message, Some("Server returned 404".to_string()));
    assert_eq!(failed.detail, Some("Server returned 404".to_string()));
    assert_eq!(failed.completed_at, Some(at(30)));
    assert_eq!(failed.id, "t1");
    assert_eq!(failed.user_id, 7);
    assert_eq!(detail(sent(&plan), "error"), Some(&Value::from("Server returned 404")));
    assert_eq!(detail(sent(&plan), "status_text"), Some(&Value::from("Server returned 404")));
    let now = manager().fail_task(task("t1", 0), "x".to_string());
    assert!(saved(&now).completed_at.unwrap().seconds() > 1_500_000_000);
}

#[test]
fn a_task_is_read_or_missed() {
    let m = manager();
    assert_eq!(m.get_task(Fetched::Found(task("t1", 0))), Ok(task("t1", 0)));
    assert_eq!(m.get_task(Fetched::Missing), Err(LoadError::Missing));
    assert_eq!(m.get_task(Fetched::Unreadable), Err(LoadError::Unreadable));
    assert_eq!(m.get_task(Fetched::Failed), Err(LoadError::Failed));
}

#[test]
fn tasks_are_listed_newest_first_and_stale_entries_dropped() {
    let replies = vec![
        ("a".to_string(), Fetched::Found(task("a", 10))),
        ("gone".to_string(), Fetched::Missing),
        ("b".to_string(), Fetched::Found(task("b", 30))),
        ("broken".to_string(), Fetched::Unreadable),
        ("c".to_string(), Fetched::Found(task("c", 10))),
        ("silent".to_string(), Fetched::Failed),
    ];
    let (tasks, stale) = manager().get_user_tasks(7, replies);
    let ids: Vec<&str> = tasks.iter().map(|t| t.id.as_str()).collect();
    assert_eq!(ids, vec!["b", "a", "c"]);
    assert_eq!(
        stale,
        vec![
            StoreCommand::RemoveMember {
                set: "task:index:7".to_string(),
                member: "gone".to_string(),
            },
            StoreCommand::RemoveMember {
                set: "task:index:7".to_string(),
                member: "broken".to_string(),
            },
        ]
    );
}

#[test]
fn nothing_is_swept() {
    let plan = manager().cleanup_old_tasks();
    assert!(plan.writes.is_empty());
    assert!(plan.signals.is_empty());
}

#[test]
fn keys_of_users_and_kinds_differ() {
    assert_eq!(TaskManager::task_key("x"), "task:x");
    assert_eq!(TaskManager::task_index_key(-3), "task:index:-3");
    assert_eq!(TaskManager::notif_key(12, "n"), "notif:12:n");
    assert_eq!(TaskManager::notif_index_key(12), "notif:index:12");
    assert_ne!(TaskManager::notif_key(1, "2:x"), TaskManager::notif_key(12, "x"));
    assert_ne!(TaskManager::task_index_key(1), TaskManager::task_index_key(2));
}

#[test]
fn indexes_outlive_what_they_name() {
    assert!(TASK_INDEX_TTL_SECS as u64 > TASK_TTL_SECS);
    assert!(NOTIF_INDEX_TTL_SECS > NOTIF_TTL_STICKY_SECS);
    assert_eq!(NOTIF_TTL_TRANSIENT_SECS, 24 * 60 * 60);
    assert_eq!(NOTIF_TTL_STICKY_SECS, 30 * 24 * 60 * 60);
    assert_eq!(NOTIF_INDEX_TTL_SECS, 31 * 24 * 60 * 60);
    assert_eq!(TASK_TTL_SECS, 7 * 24 * 60 * 60);
    assert_eq!(TASK_INDEX_TTL_SECS, 8 * 24 * 60 * 60);
}

#[test]
fn states_have_names() {
    let names: Vec<&str> = [
        TaskStatus::Pending,
        TaskStatus::Running,
        TaskStatus::Completed,
        TaskStatus::Failed,
    ]
    .iter()
    .map(|s| s.name())
    .collect();
    assert_eq!(names, vec!["PENDING", "DOWNLOADING", "SUCCESS", "FAILED"]);
}
