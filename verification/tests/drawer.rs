//! The activity centre and its toasts.

use pinepods_activity::double::Double;
use pinepods_activity::notification_center;
use pinepods_activity::notification_center::{
    AuthDetails, Credentials, Destination, Drawer, Footer, Label, Part, Tab,
};
use pinepods_activity::notify;
use pinepods_activity::notify::{NotificationMessage, NotificationState, Reply};
use pinepods_activity::progress;
use pinepods_activity::progress::{Details, RefreshProgress, RenderNode, TaskProgress};
use pinepods_activity::toasts;
use pinepods_activity::toasts::{ToastKind, Toasts};

fn double(x: f64) -> Double {
    Double { bits: x.to_bits() }
}

fn task(id: &str, status: &str) -> TaskProgress {
    TaskProgress {
        task_id: id.to_string(),
        user_id: 7,
        item_id: None,
        task_type: "podcast_download".to_string(),
        progress: double(0.0),
        status: status.to_string(),
        started_at: String::new(),
        completed_at: None,
        details: None,
        completion_time: None,
        art_url: None,
        detail: None,
        group: None,
        group_label: None,
        total: None,
    }
}

fn grouped(id: &str, status: &str, group: &str) -> TaskProgress {
    TaskProgress { group: Some(group.to_string()), ..task(id, status) }
}

fn ended(id: &str, status: &str, when: f64) -> TaskProgress {
    TaskProgress { completion_time: Some(double(when)), ..task(id, status) }
}

fn message(id: &str, severity: &str) -> NotificationMessage {
    NotificationMessage {
        id: id.to_string(),
        severity: severity.to_string(),
        title: "T".to_string(),
        body: None,
        created_at: String::new(),
        art_url: None,
    }
}

fn state(tasks: Vec<TaskProgress>, messages: Vec<NotificationMessage>) -> NotificationState {
    NotificationState {
        active_tasks: Some(tasks),
        messages,
        error_message: None,
        info_message: None,
    }
}

fn ids(tasks: &[TaskProgress]) -> Vec<&str> {
    tasks.iter().map(|t| t.task_id.as_str()).collect()
}

#[test]
fn a_refresh_becomes_a_task() {
    let refresh =
        RefreshProgress { current: 3, total: 12, current_podcast: "Pod".to_string() };
    let t = TaskProgress::from_refresh_progress(&refresh, double(25.0), 1_700_000_000_123, 1_700_000_000_124);
    assert_eq!(t.task_id, "feed_refresh_1700000000123");
    assert_eq!(t.started_at, "1700000000124");
    assert_eq!(t.status, "PROGRESS");
    assert_eq!(t.task_type, "feed_refresh");
    assert_eq!(t.progress, double(25.0));
    assert_eq!(t.user_id, 0);
    assert_eq!(t.detail_at("current"), Some("3".to_string()));
    assert_eq!(t.detail_at("total"), Some("12".to_string()));
    assert_eq!(t.detail_at("current_podcast"), Some("Pod".to_string()));
    assert_eq!(t.detail_at("other"), None);
    let none = RefreshProgress { current: 0, total: 0, current_podcast: String::new() };
    let t = TaskProgress::from_refresh_progress(&none, double(25.0), 1, 2);
    assert_eq!(t.progress, double(0.0));
}

#[test]
fn details_keep_the_later_entry() {
    let mut d = Details::new();
    d.insert("k".to_string(), "a".to_string());
    d.insert("k".to_string(), "b".to_string());
    assert_eq!(d.get("k"), Some("b".to_string()));
    assert_eq!(d.get("x"), None);
}

#[test]
fn the_sub_line_is_the_detail_or_the_status_text() {
    let mut t = task("a", "PENDING");
    assert_eq!(t.sub_line(), None);
    let mut d = Details::new();
    d.insert("status_text".to_string(), "Fetching".to_string());
    t.details = Some(d);
    assert_eq!(t.sub_line(), Some("Fetching".to_string()));
    t.detail = Some(String::new());
    assert_eq!(t.sub_line(), Some("Fetching".to_string()));
    t.detail = Some("72 of 128".to_string());
    assert_eq!(t.sub_line(), Some("72 of 128".to_string()));
    let mut empty = Details::new();
    empty.insert("status_text".to_string(), String::new());
    t.detail = None;
    t.details = Some(empty);
    assert_eq!(t.sub_line(), None);
}

#[test]
fn states_are_classified() {
    for s in ["PROGRESS", "STARTED", "DOWNLOADING", "PROCESSING", "FINALIZING"] {
        assert!(progress::is_progress(s) && progress::is_active(s) && !progress::is_done(s));
        assert_eq!(progress::kind_class(s), "active");
        assert_eq!(progress::rank(s), 0);
    }
    assert!(progress::is_active("PENDING") && !progress::is_progress("PENDING"));
    assert!(progress::is_done("SUCCESS") && progress::is_done("FAILED"));
    assert!(!progress::is_active("SUCCESS") && !progress::is_active("FAILED"));
    assert_eq!(progress::kind_class("PENDING"), "queued");
    assert_eq!(progress::kind_class("SUCCESS"), "success");
    assert_eq!(progress::kind_class("FAILED"), "failed");
    assert_eq!(progress::rank("PENDING"), 1);
    assert_eq!(progress::rank("FAILED"), 2);
    assert_eq!(progress::rank("SUCCESS"), 3);
    assert_eq!(progress::rank("odd"), 3);
}

#[test]
fn types_and_severities_have_icons() {
    assert_eq!(progress::task_icon("bulk_download"), "ph-download-simple");
    assert_eq!(progress::task_icon("feed_refresh"), "ph-arrows-clockwise");
    assert_eq!(progress::task_icon("download_all_videos"), "ph-youtube-logo");
    assert_eq!(progress::task_icon("update_playlists"), "ph-list-checks");
    assert_eq!(progress::task_icon("opml_import"), "ph-upload-simple");
    assert_eq!(progress::task_icon("gpodder_subscription_refresh"), "ph-arrows-left-right");
    assert_eq!(progress::task_icon("nextcloud_auth"), "ph-cloud");
    assert_eq!(progress::task_icon("manual_backup_to_directory"), "ph-floppy-disk");
    assert_eq!(progress::task_icon("restore_from_backup_file"), "ph-clock-counter-clockwise");
    assert_eq!(progress::task_icon("cleanup_tasks"), "ph-broom");
    assert_eq!(progress::task_icon("refresh_hosts"), "ph-users");
    assert_eq!(progress::task_icon("?"), "ph-circle");
    assert_eq!(progress::msg_kind("error"), ("error", "ph-warning-circle"));
    assert_eq!(progress::msg_kind("warning"), ("error", "ph-warning"));
    assert_eq!(progress::msg_kind("success"), ("success", "ph-check-circle"));
    assert_eq!(progress::msg_kind("?"), ("info", "ph-info"));
    assert!(progress::msg_counts_badge("error") && progress::msg_counts_badge("warning"));
    assert!(!progress::msg_counts_badge("info") && !progress::msg_counts_badge("success"));
}

#[test]
fn ages_are_told_in_the_largest_unit() {
    let ago = |ms: i64| progress::rel_time(10_000_000_000, 10_000_000_000 - ms);
    assert_eq!(ago(0), "just now");
    assert_eq!(ago(-5_000), "just now");
    assert_eq!(ago(44_999), "just now");
    assert_eq!(ago(45_000), "1m ago");
    assert_eq!(ago(89_999), "1m ago");
    assert_eq!(ago(90_000), "2m ago");
    assert_eq!(ago(59 * 60_000), "59m ago");
    assert_eq!(ago(60 * 60_000), "1h ago");
    assert_eq!(ago(90 * 60_000), "2h ago");
    assert_eq!(ago(23 * 3_600_000), "23h ago");
    assert_eq!(ago(24 * 3_600_000), "1d ago");
    assert_eq!(ago(36 * 3_600_000), "2d ago");
    assert_eq!(progress::rel_time(i64::MAX, i64::MIN), "213503982335d ago");
}

#[test]
fn ages_agree_with_floating_point() {
    let reference = |age: i64| -> String {
        let secs = age as f64 / 1000.0;
        if secs < 45.0 {
            return "just now".to_string();
        }
        let mins = (secs / 60.0).round();
        if mins < 60.0 {
            return format!("{}m ago", mins as i64);
        }
        let hours = (mins / 60.0).round();
        if hours < 24.0 {
            return format!("{}h ago", hours as i64);
        }
        format!("{}d ago", (hours / 24.0).round() as i64)
    };
    let mut age: i64 = 0;
    while age < 400_000_000 {
        assert_eq!(progress::rel_time(age, 0), reference(age));
        age += 14_999;
    }
}

#[test]
fn tasks_are_sorted_by_rank_then_by_end() {
    let sorted = progress::sort_tasks(vec![
        ended("old", "SUCCESS", 1.0),
        task("queued", "PENDING"),
        ended("new", "SUCCESS", 5.0),
        ended("failed", "FAILED", 3.0),
        task("first", "DOWNLOADING"),
        task("second", "PROGRESS"),
    ]);
    assert_eq!(ids(&sorted), vec!["first", "second", "queued", "failed", "new", "old"]);
}

#[test]
fn groups_fold_where_their_first_task_stood() {
    let mut first = grouped("a", "SUCCESS", "g");
    first.group_label = Some("Batch".to_string());
    first.total = Some(9);
    first.art_url = Some("art".to_string());
    let rows = progress::group_tasks(vec![
        task("x", "PENDING"),
        first,
        grouped("h1", "FAILED", "h"),
        grouped("b", "DOWNLOADING", "g"),
        task("y", "SUCCESS"),
        grouped("c", "PENDING", "g"),
    ]);
    assert_eq!(rows.len(), 4);
    match &rows[0] {
        RenderNode::Task(t) => assert_eq!(t.task_id, "x"),
        other => panic!("not a task: {:?}", other),
    }
    match &rows[1] {
        RenderNode::Group(g) => {
            assert_eq!(g.key, "g");
            assert_eq!(g.label, "Batch");
            assert_eq!(g.ttype, "podcast_download");
            assert_eq!(g.art, Some("art".to_string()));
            assert_eq!(ids(&g.children), vec!["a", "b", "c"]);
            assert_eq!((g.done_count, g.active_count), (1, 2));
            assert!(!g.all_done && !g.any_failed);
            assert_eq!(g.count, 9);
        }
        other => panic!("not a group: {:?}", other),
    }
    match &rows[2] {
        RenderNode::Group(g) => {
            assert_eq!(g.label, "Tasks");
            assert!(g.all_done && g.any_failed);
            assert_eq!(g.count, 1);
        }
        other => panic!("not a group: {:?}", other),
    }
    match &rows[3] {
        RenderNode::Task(t) => assert_eq!(t.task_id, "y"),
        other => panic!("not a task: {:?}", other),
    }
    let mut odd = grouped("a", "SUCCESS", "g");
    odd.total = Some(-1);
    match &progress::group_tasks(vec![odd])[0] {
        RenderNode::Group(g) => assert_eq!(g.count, 1),
        other => panic!("not a group: {:?}", other),
    }
}

#[test]
fn labels_are_keys_or_texts() {
    let key = |t: &str| match notification_center::type_label(t) {
        Label::Key(k) => k,
        Label::Text(_) => "",
    };
    assert_eq!(key("podcast_download"), "notification_center.task_download");
    assert_eq!(key("download_all_episodes"), "notification_center.task_bulk_download");
    assert_eq!(key("feed_refresh"), "notification_center.task_feed_refresh");
    assert_eq!(key("download_video"), "notification_center.task_youtube_download");
    assert_eq!(key("download_all_videos"), "notification_center.task_youtube_bulk_download");
    assert_eq!(key("playlist_generation"), "notification_center.task_playlist");
    assert_eq!(key("update_playlists"), "notification_center.task_playlist_update");
    assert_eq!(key("opml_import"), "notification_center.task_opml_import");
    assert_eq!(key("add_podcast_episodes"), "notification_center.task_add_podcast");
    assert_eq!(key("manual_backup_to_directory"), "notification_center.task_backup");
    assert_eq!(key("restore_from_backup_file"), "notification_center.task_restore");
    assert_eq!(key("refresh_gpodder_subscriptions"), "notification_center.task_gpodder_sync");
    assert_eq!(key("refresh_nextcloud_subscriptions"), "notification_center.task_nextcloud_sync");
    assert_eq!(key("nextcloud_auth"), "notification_center.task_nextcloud_auth");
    assert_eq!(key("cleanup_tasks"), "notification_center.task_cleanup");
    assert_eq!(key("refresh_hosts"), "notification_center.task_refresh_hosts");
    assert_eq!(notification_center::type_label("odd"), Label::Text("odd".to_string()));
    assert_eq!(
        notification_center::status_label("PENDING"),
        Label::Key("notification_center.status_queued")
    );
    assert_eq!(
        notification_center::status_label("SUCCESS"),
        Label::Key("notification_center.status_completed")
    );
    assert_eq!(
        notification_center::status_label("FAILED"),
        Label::Key("notification_center.status_failed")
    );
    assert_eq!(
        notification_center::status_label("odd"),
        Label::Key("notification_center.status_in_progress")
    );
}

#[test]
fn bars_are_never_empty_nor_overfull() {
    let bar = notification_center::render_progress(double(0.4), true);
    assert_eq!(bar.width, double(2.0));
    assert_eq!(bar.percent, Some("0%".to_string()));
    assert_eq!(notification_center::render_progress(double(140.0), false).width, double(100.0));
    assert_eq!(notification_center::render_progress(double(140.0), false).percent, None);
    let half = notification_center::render_progress(double(50.5), true);
    assert_eq!(half.width, double(50.5));
    assert_eq!(half.percent, Some("51%".to_string()));
    assert_eq!(notification_center::percent(double(-2.5)), "-3%");
    assert_eq!(notification_center::percent(double(f64::NAN)), "0%");
}

#[test]
fn cards_show_running_and_ended_tasks() {
    let mut running = task("r", "DOWNLOADING");
    running.progress = double(41.6);
    let card = notification_center::task_card(&running);
    assert_eq!(card.kind, "active");
    assert_eq!(card.title, Label::Key("notification_center.task_download"));
    assert_eq!(card.percent, Some("42%".to_string()));
    assert!(card.bar.is_some());
    assert_eq!(card.dismiss, None);
    let mut done = task("d", "SUCCESS");
    let mut details = Details::new();
    details.insert("item_title".to_string(), "Item".to_string());
    done.details = Some(details);
    let card = notification_center::task_card(&done);
    assert_eq!(card.title, Label::Text("Item".to_string()));
    assert_eq!(card.dismiss, Some("d".to_string()));
    assert_eq!(card.percent, None);
    assert_eq!(card.bar, None);
    let mut both = Details::new();
    both.insert("item_title".to_string(), "Item".to_string());
    both.insert("episode_title".to_string(), "Episode".to_string());
    done.details = Some(both);
    assert_eq!(notification_center::task_card(&done).title, Label::Text("Episode".to_string()));
}

#[test]
fn group_cards_open_and_close() {
    let mut running = grouped("b", "DOWNLOADING", "g");
    running.progress = double(10.0);
    let rows = progress::group_tasks(vec![grouped("a", "SUCCESS", "g"), running]);
    let g = match rows.into_iter().next() {
        Some(RenderNode::Group(g)) => g,
        other => panic!("not a group: {:?}", other),
    };
    let closed = notification_center::group_card(&g, double(55.0), false);
    assert_eq!(closed.kind, "active");
    assert_eq!(closed.done_text, "1/2 done");
    assert_eq!(closed.running_text, Some("1 running".to_string()));
    assert_eq!(closed.bar.as_ref().unwrap().percent, Some("55%".to_string()));
    assert!(closed.children.is_empty());
    let open = notification_center::group_card(&g, double(55.0), true);
    assert_eq!(open.children.len(), 2);
    assert_eq!(open.children[0].title, "podcast_download");
    assert_eq!(open.children[0].state, Label::Key("notification_center.status_completed"));
    assert_eq!(open.children[1].state, Label::Text("10%".to_string()));
    let rows = progress::group_tasks(vec![grouped("a", "SUCCESS", "g")]);
    if let RenderNode::Group(g) = &rows[0] {
        let card = notification_center::group_card(g, double(100.0), false);
        assert_eq!(card.kind, "success");
        assert_eq!(card.running_text, None);
        assert_eq!(card.bar, None);
    }
}

#[test]
fn message_cards_tell_their_age() {
    let card = notification_center::message_card(&message("m", "warning"), Some(0), 120_000);
    assert_eq!(card.age, "2m ago");
    assert_eq!((card.kind, card.icon), ("error", "ph-warning"));
    assert_eq!(notification_center::message_card(&message("m", "info"), None, 5).age, "");
}

#[test]
fn the_drawer_opens_closes_and_turns() {
    let mut d = Drawer::new();
    assert!(!d.open);
    assert_eq!(d.tab, "all");
    d.toggle_drawer();
    assert!(d.open);
    d.set_tab(Tab::Done);
    assert_eq!(d.tab, "done");
    d.set_tab(Tab::Active);
    assert_eq!(d.tab, "active");
    assert_eq!(d.go_settings(true), Some(Destination::Settings));
    assert!(!d.open);
    assert_eq!(d.go_settings(false), None);
    d.toggle_drawer();
    d.close_drawer();
    assert!(!d.open);
}

#[test]
fn groups_toggle_one_by_one() {
    let mut d = Drawer::new();
    d.toggle_group("a".to_string());
    d.toggle_group("b".to_string());
    assert!(d.shows_children_of("a") && d.shows_children_of("b"));
    d.toggle_group("a".to_string());
    assert!(!d.shows_children_of("a") && d.shows_children_of("b"));
}

#[test]
fn credentials_need_a_user_and_a_key() {
    let auth = AuthDetails { api_key: Some("k".to_string()), server_name: "s".to_string() };
    let creds = notification_center::credentials(Some(7), &Some(auth.clone()));
    assert_eq!(
        creds,
        Some(Credentials {
            user_id: 7,
            api_key: "k".to_string(),
            server_name: "s".to_string(),
        })
    );
    assert_eq!(notification_center::credentials(None, &Some(auth)), None);
    assert_eq!(notification_center::credentials(Some(7), &None), None);
    let keyless = AuthDetails { api_key: None, server_name: "s".to_string() };
    assert_eq!(notification_center::credentials(Some(7), &Some(keyless)), None);
    let post = notification_center::dismiss_on_server(&creds, "n").unwrap();
    assert_eq!(post.url, "s/api/data/notifications/n/dismiss?user_id=7");
    assert_eq!(post.purpose, "dismiss notification");
    assert!(notification_center::dismiss_on_server(&None, "n").is_none());
}

#[test]
fn the_view_counts_and_sections() {
    let tasks = || {
        vec![
            task("s", "SUCCESS"),
            task("p", "PENDING"),
            task("r", "DOWNLOADING"),
            task("f", "FAILED"),
        ]
    };
    let messages = || vec![message("i", "info"), message("e", "error")];
    let mut d = Drawer::new();
    let v = notification_center::notification_center(&d, tasks(), messages(), double(49.5));
    assert_eq!(v.bell_icon, "ph-bell-ringing");
    assert_eq!(v.badge, Some("3".to_string()));
    assert_eq!(v.all.pip, Some(6));
    assert!(v.all.is_active && !v.active.is_active);
    assert_eq!(v.active.pip, Some(3));
    assert_eq!(v.done.pip, Some(2));
    let summary = v.summary.unwrap();
    assert_eq!(summary.running, "1 task running");
    assert_eq!(summary.percent, "50%");
    assert_eq!(summary.bar.percent, None);
    assert!(v.show_labels);
    assert_eq!(v.sections.len(), 2);
    assert_eq!(v.sections[0].label, "Tasks");
    assert_eq!(v.sections[0].count, 4);
    assert_eq!(v.sections[1].label, "Messages");
    assert_eq!(v.sections[1].count, 2);
    assert_eq!(v.empty, None);
    assert_eq!(v.footer, Some(Footer::ClearCompleted));
    d.set_tab(Tab::Active);
    let v = notification_center::notification_center(&d, tasks(), messages(), double(0.0));
    assert_eq!(v.sections[0].label, "In progress");
    assert_eq!(v.sections[0].count, 2);
    assert_eq!(v.sections[1].label, "Needs attention");
    assert_eq!(v.sections[1].messages, vec![message("e", "error")]);
    d.set_tab(Tab::Done);
    let v = notification_center::notification_center(&d, tasks(), messages(), double(0.0));
    assert_eq!(v.sections.len(), 1);
    assert_eq!(v.sections[0].label, "Completed");
    assert!(v.sections[0].clearable);
    assert!(!v.show_labels);
    assert_eq!(v.summary, None);
}

#[test]
fn an_empty_drawer_says_so() {
    let mut d = Drawer::new();
    let v = notification_center::notification_center(&d, vec![], vec![], double(0.0));
    assert_eq!(v.bell_icon, "ph-bell");
    assert_eq!(v.badge, None);
    assert_eq!(v.all.pip, None);
    assert_eq!(
        v.empty,
        Some(("You're all caught up", "No downloads, syncs, or messages right now."))
    );
    assert_eq!(v.footer, None);
    d.set_tab(Tab::Active);
    let v = notification_center::notification_center(
        &d,
        vec![task("s", "odd")],
        vec![],
        double(0.0),
    );
    assert_eq!(
        v.empty,
        Some(("Nothing running", "Downloads and feed refreshes will show up here."))
    );
    assert_eq!(v.footer, Some(Footer::Running("0 active".to_string())));
    d.set_tab(Tab::Done);
    let v = notification_center::notification_center(&d, vec![], vec![], double(0.0));
    assert_eq!(
        v.empty,
        Some(("Nothing completed yet", "Finished tasks land here so you can review them."))
    );
}

#[test]
fn many_things_overflow_the_badge() {
    assert_eq!(notification_center::badge_text(9), Some("9".to_string()));
    assert_eq!(notification_center::badge_text(10), Some("9+".to_string()));
    let tasks: Vec<TaskProgress> = (0..12).map(|i| task(&format!("{}", i), "STARTED")).collect();
    let v = notification_center::notification_center(&Drawer::new(), tasks, vec![], double(7.0));
    assert_eq!(v.badge, Some("9+".to_string()));
    assert_eq!(v.summary.unwrap().running, "12 tasks running");
}

#[test]
fn clearing_leaves_what_runs() {
    let mut s = state(
        vec![task("s", "SUCCESS"), task("r", "STARTED"), task("f", "FAILED"), task("p", "PENDING")],
        vec![message("m", "error"), message("n", "info")],
    );
    let badge = |s: &NotificationState| {
        notification_center::count_tasks(s.active_tasks.as_ref().unwrap(), Part::Active)
            + notification_center::count_errors(&s.messages)
    };
    let before = badge(&s);
    s.clear_done();
    assert_eq!(ids(s.active_tasks.as_ref().unwrap()), vec!["r", "p"]);
    assert_eq!(badge(&s), before);
    s.dismiss_task("r");
    assert_eq!(ids(s.active_tasks.as_ref().unwrap()), vec!["p"]);
    s.dismiss_message("m");
    assert_eq!(s.messages, vec![message("n", "info")]);
    let mut none = NotificationState { active_tasks: None, ..state(vec![], vec![]) };
    none.clear_done();
    none.dismiss_task("r");
    assert_eq!(none.active_tasks, None);
}

#[test]
fn toast_messages_replace_one_another() {
    let mut s = state(vec![], vec![]);
    notify::toast_info(&mut s, "Queued!".to_string());
    notify::toast_success(&mut s, "Saved".to_string());
    notify::toast_error(&mut s, "Failed".to_string());
    assert_eq!(s.info_message, Some("Saved".to_string()));
    assert_eq!(s.error_message, Some("Failed".to_string()));
}

#[test]
fn requests_to_the_server_are_addressed() {
    let post = notify::dismiss_notification("https://pods.example//", "key", 7, "n1");
    assert_eq!(post.url, "https://pods.example/api/data/notifications/n1/dismiss?user_id=7");
    assert_eq!(post.api_key, "key");
    assert_eq!(
        notify::mark_notification_read("https://pods.example", "key", 7, "n1").url,
        "https://pods.example/api/data/notifications/n1/read?user_id=7"
    );
    assert_eq!(
        notify::clear_notifications("https://pods.example/", "key", 7, true).url,
        "https://pods.example/api/data/notifications/clear?user_id=7&read_only=true"
    );
    assert_eq!(
        notify::clear_notifications("https://pods.example", "key", 7, false).url,
        "https://pods.example/api/data/notifications/clear?user_id=7&read_only=false"
    );
    assert_eq!(post.settle(Reply::Answered { ok: true, status: 200 }), Ok(()));
    assert_eq!(
        post.settle(Reply::Answered { ok: false, status: 403 }),
        Err("dismiss notification failed: 403".to_string())
    );
    assert_eq!(
        post.settle(Reply::Unsent("offline".to_string())),
        Err("dismiss notification: offline".to_string())
    );
}

#[test]
fn toasts_appear_fade_and_go() {
    let mut t = Toasts::new();
    assert!(t.show(ToastKind::Error, "Oops", 1_000));
    assert!(!t.show(ToastKind::Error, "Oops", 2_000));
    assert!(t.show(ToastKind::Info, "Oops", 2_000));
    assert_eq!(t.queue.len(), 2);
    assert_eq!((t.queue[0].id, t.queue[1].id), (0, 1));
    assert_eq!(t.queue[0].expiry_time, 6_000);
    t.tick(5_999);
    assert!(t.queue[0].visible);
    t.tick(6_000);
    assert!(!t.queue[0].visible && t.queue[1].visible);
    assert!(t.show(ToastKind::Error, "Oops", 6_100));
    assert_eq!(t.queue[2].id, 2);
    t.tick(6_499);
    assert_eq!(t.queue.len(), 3);
    t.tick(6_500);
    assert_eq!(t.queue.len(), 2);
    assert_eq!(t.queue[0].id, 1);
    t.tick(20_000);
    assert!(t.queue.is_empty());
    assert_eq!(t.counter, 3);
}

#[test]
fn a_dismissed_toast_is_hidden_until_it_goes() {
    let mut t = Toasts::new();
    t.show(ToastKind::Info, "a", 0);
    t.show(ToastKind::Info, "b", 0);
    t.dismiss(0);
    let views = toasts::toast_notification(&t);
    assert_eq!(views[0].item_class, "toast-hidden");
    assert_eq!(views[1].item_class, "toast-visible");
    assert_eq!(views[1].toast_class, "toast-info");
    assert_eq!(views[1].icon_class, "ph ph-info");
    t.dismiss(9);
    assert!(t.queue[1].visible);
    t.tick(100);
    assert_eq!(t.queue.len(), 2);
    assert!(t.show(ToastKind::Info, "a", 100));
    let mut e = Toasts::new();
    e.show(ToastKind::Error, "x", 0);
    assert_eq!(toasts::toast_notification(&e)[0].toast_class, "toast-error");
    assert_eq!(toasts::toast_notification(&e)[0].icon_class, "ph ph-warning-circle");
}

#[test]
fn a_message_is_cleared_unless_replaced() {
    let mut s = state(vec![], vec![]);
    notify::toast_error(&mut s, "a".to_string());
    toasts::clear_told(&mut s, ToastKind::Error, "b");
    assert_eq!(s.error_message, Some("a".to_string()));
    toasts::clear_told(&mut s, ToastKind::Info, "a");
    assert_eq!(s.error_message, Some("a".to_string()));
    toasts::clear_told(&mut s, ToastKind::Error, "a");
    assert_eq!(s.error_message, None);
}
