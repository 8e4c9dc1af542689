//! Other devices: what they play, remote control, and taking over.

use pinepods_activity::double::Double;
use pinepods_activity::now_playing;
use pinepods_activity::now_playing::{
    Link, LinkEvent, LinkStep, LocalPlayer, MediaCall, NowPlayingDevice, NowPlayingState,
    PendingRemotePlay, ServerMsg, StoredId,
};
use pinepods_activity::remote_devices;
use serde_json::Value;

fn double(x: f64) -> Double {
    Double { bits: x.to_bits() }
}

fn args(entries: Vec<(&str, Value)>) -> Value {
    Value::Object(entries.into_iter().map(|(k, v)| (k.to_string(), v)).collect())
}

fn device(id: &str) -> NowPlayingDevice {
    NowPlayingDevice { device_id: id.to_string(), ..NowPlayingDevice::default() }
}

fn player() -> LocalPlayer {
    LocalPlayer { audio_playing: None, playback_speed: double(1.0) }
}

fn open() -> Link {
    Link { running: true, open: true }
}

#[test]
fn ids_are_thirty_two_digits() {
    assert_eq!(
        now_playing::generate_id(0, 1, 0xdead_beef, u32::MAX),
        "0000000000000001deadbeefffffffff"
    );
}

#[test]
fn a_stored_id_is_kept() {
    let (id, store) = now_playing::get_or_create_device_id(&StoredId::Available(None), 1, 2, 3, 4);
    assert_eq!(id, "00000001000000020000000300000004");
    assert!(store);
    let stored = StoredId::Available(Some(id.clone()));
    assert_eq!(now_playing::get_or_create_device_id(&stored, 9, 9, 9, 9), (id, false));
    let empty = StoredId::Available(Some(String::new()));
    assert!(now_playing::get_or_create_device_id(&empty, 9, 9, 9, 9).1);
    assert!(!now_playing::get_or_create_device_id(&StoredId::Unavailable, 9, 9, 9, 9).1);
}

#[test]
fn browsers_are_told_apart() {
    let name = now_playing::device_name;
    assert_eq!(name("Mozilla/5.0 Chrome/120.0 Safari/537.36 Edg/120.0"), "Web · Edge");
    assert_eq!(name("Mozilla/5.0 Gecko Firefox/121.0"), "Web · Firefox");
    assert_eq!(name("Mozilla/5.0 Chrome/120.0 Safari/537.36"), "Web · Chrome");
    assert_eq!(name("Mozilla/5.0 Version/17 Safari/605"), "Web · Safari");
    assert_eq!(name(""), "Web · Browser");
}

#[test]
fn only_one_connection_is_looked_after() {
    let mut link = Link::new();
    let mut state = NowPlayingState::default();
    let c = now_playing::connect_now_playing_ws(
        &mut link,
        &mut state,
        "https://pods.example",
        7,
        "a/b",
        &StoredId::Available(None),
        (1, 2, 3, 4),
        "Firefox",
    )
    .unwrap();
    assert!(c.store_id);
    assert_eq!(
        c.url,
        "wss://pods.example/ws/api/nowplaying/7?api_key=a%2Fb&device_id=00000001000000020000000300000004&device_name=Web%20%C2%B7%20Firefox&device_type=Web"
    );
    assert_eq!(state.self_device_id, "00000001000000020000000300000004");
    assert!(link.running && !link.is_connected());
    let again = now_playing::connect_now_playing_ws(
        &mut link,
        &mut state,
        "http://other",
        8,
        "x",
        &StoredId::Unavailable,
        (5, 6, 7, 8),
        "",
    );
    assert_eq!(again, None);
    assert_eq!(state.self_device_id, "00000001000000020000000300000004");
    let mut plain = Link::new();
    let c = now_playing::connect_now_playing_ws(
        &mut plain,
        &mut state,
        "http://localhost:8040",
        -1,
        "k",
        &StoredId::Available(Some("d".to_string())),
        (0, 0, 0, 0),
        "",
    )
    .unwrap();
    assert_eq!(
        c.url,
        "ws://localhost:8040/ws/api/nowplaying/-1?api_key=k&device_id=d&device_name=Web%20%C2%B7%20Browser&device_type=Web"
    );
    assert!(!c.store_id);
}

#[test]
fn a_lost_connection_is_tried_again() {
    let mut link = Link { running: true, open: false };
    let mut state = NowPlayingState::default();
    assert_eq!(
        now_playing::handle_link(&mut link, &mut state, LinkEvent::Failed("refused".to_string())),
        LinkStep::Wait {
            warning: Some("now-playing WebSocket failed: refused".to_string()),
            ms: 5000,
        }
    );
    assert_eq!(now_playing::handle_link(&mut link, &mut state, LinkEvent::Waited), LinkStep::Open);
    assert_eq!(
        now_playing::handle_link(&mut link, &mut state, LinkEvent::Opened),
        LinkStep::Exchange
    );
    assert!(link.is_connected() && state.connected);
    state.devices = vec![device("x")];
    assert_eq!(
        now_playing::handle_link(&mut link, &mut state, LinkEvent::Closed),
        LinkStep::Wait { warning: None, ms: 5000 }
    );
    assert!(!link.is_connected() && !state.connected && state.devices.is_empty());
}

#[test]
fn messages_go_out_only_while_connected() {
    assert_eq!(now_playing::send_heartbeat(&Link::new()), None);
    assert_eq!(
        now_playing::send_heartbeat(&open()),
        Some("{\"type\":\"heartbeat\"}".to_string())
    );
    assert_eq!(open().send_raw("x".to_string()), Some("x".to_string()));
    assert_eq!(Link::new().send_raw("x".to_string()), None);
}

#[test]
fn reports_hold_all_there_is_to_tell() {
    let sent = now_playing::send_report(
        &open(),
        5,
        true,
        "Ti\"tle",
        "art",
        Value::from(1.5),
        Value::Null,
        false,
        Value::from(2.0),
    )
    .unwrap();
    let v: Value = sent.parse().unwrap();
    assert_eq!(v["type"], Value::from("report"));
    assert_eq!(v["episode_id"], Value::from(5));
    assert_eq!(v["is_youtube"], Value::from(true));
    assert_eq!(v["title"], Value::from("Ti\"tle"));
    assert_eq!(v["artwork_url"], Value::from("art"));
    assert_eq!(v["position_sec"], Value::from(1.5));
    assert_eq!(v["duration_sec"], Value::Null);
    assert_eq!(v["playing"], Value::from(false));
    assert_eq!(v["speed"], Value::from(2.0));
    assert_eq!(v.as_object().unwrap().len(), 9);
}

#[test]
fn commands_name_their_target() {
    let sent =
        now_playing::send_command(&open(), "d1", "seek", args(vec![("position_sec", 3.into())]));
    let v: Value = sent.unwrap().parse().unwrap();
    assert_eq!(v["type"], Value::from("command"));
    assert_eq!(v["target_device_id"], Value::from("d1"));
    assert_eq!(v["action"], Value::from("seek"));
    assert_eq!(v["args"]["position_sec"], Value::from(3));
}

#[test]
fn objects_hold_what_was_put_and_no_more() {
    assert_eq!(remote_devices::without_args(), args(vec![]));
    assert_eq!(remote_devices::args_to_skip(30), args(vec![("seconds", 30.into())]));
    assert_eq!(now_playing::heartbeat(), args(vec![("type", "heartbeat".into())]));
    assert_eq!(
        now_playing::command("d1", "pause", remote_devices::without_args()),
        args(vec![
            ("type", "command".into()),
            ("target_device_id", "d1".into()),
            ("action", "pause".into()),
            ("args", args(vec![])),
        ])
    );
}

#[test]
fn commands_act_on_the_player() {
    let mut state = NowPlayingState::default();
    let mut p = player();
    let mut apply = |p: &mut LocalPlayer, action: &str, a: Value| {
        now_playing::apply_command(&mut state, p, action, &a)
    };
    assert_eq!(apply(&mut p, "play", Value::Null), Some(MediaCall::Play));
    assert_eq!(p.audio_playing, Some(true));
    assert_eq!(apply(&mut p, "pause", Value::Null), Some(MediaCall::Pause));
    assert_eq!(p.audio_playing, Some(false));
    assert_eq!(
        apply(&mut p, "seek", args(vec![("position_sec", 12.5.into())])),
        Some(MediaCall::SetTime(double(12.5)))
    );
    assert_eq!(
        apply(&mut p, "seek", args(vec![("position_sec", (-3).into())])),
        Some(MediaCall::SetTime(double(0.0)))
    );
    assert_eq!(apply(&mut p, "seek", args(vec![])), None);
    assert_eq!(apply(&mut p, "seek", args(vec![("position_sec", "12".into())])), None);
    assert_eq!(apply(&mut p, "skip_forward", Value::Null), Some(MediaCall::Skip(double(30.0))));
    assert_eq!(apply(&mut p, "skip_back", Value::Null), Some(MediaCall::Skip(double(-15.0))));
    assert_eq!(
        apply(&mut p, "skip_back", args(vec![("seconds", 7.into())])),
        Some(MediaCall::Skip(double(-7.0)))
    );
    assert_eq!(
        apply(&mut p, "set_speed", args(vec![("speed", 1.75.into())])),
        Some(MediaCall::SetRate(double(1.75)))
    );
    assert_eq!(p.playback_speed, double(1.75));
    assert_eq!(apply(&mut p, "set_speed", args(vec![])), None);
    assert_eq!(apply(&mut p, "dance", Value::Null), None);
    assert_eq!(state, NowPlayingState::default());
}

#[test]
fn a_command_can_start_an_episode() {
    let mut state = NowPlayingState::default();
    let mut p = player();
    let a = args(vec![("episode_id", 42.into()), ("is_youtube", true.into())]);
    assert_eq!(now_playing::apply_command(&mut state, &mut p, "play_episode", &a), None);
    assert_eq!(
        state.pending_remote_play,
        Some(PendingRemotePlay { episode_id: 42, is_youtube: true, resume_pos_sec: None })
    );
    let a = args(vec![("episode_id", 4_294_967_297i64.into()), ("is_youtube", "yes".into())]);
    now_playing::apply_command(&mut state, &mut p, "play_episode", &a);
    assert_eq!(
        state.pending_remote_play,
        Some(PendingRemotePlay { episode_id: 1, is_youtube: false, resume_pos_sec: None })
    );
    let mut idle = NowPlayingState::default();
    let a = args(vec![("episode_id", "42".into())]);
    now_playing::apply_command(&mut idle, &mut p, "play_episode", &a);
    assert_eq!(idle.pending_remote_play, None);
    assert_eq!(p, player());
}

#[test]
fn this_device_is_not_listed() {
    let mut state =
        NowPlayingState { self_device_id: "me".to_string(), ..NowPlayingState::default() };
    let mut p = player();
    let msg = ServerMsg::Devices { devices: vec![device("a"), device("me"), device("b")] };
    assert_eq!(now_playing::handle_inbound(&mut state, &mut p, Some(msg)), None);
    assert_eq!(state.devices, vec![device("a"), device("b")]);
    let msg = ServerMsg::Command {
        from_device_id: "a".to_string(),
        action: "pause".to_string(),
        args: Value::Null,
    };
    assert_eq!(
        now_playing::handle_inbound(&mut state, &mut p, Some(msg)),
        Some(MediaCall::Pause)
    );
    let before = state.clone();
    let ack = ServerMsg::Ack { ok: true, detail: String::new() };
    assert_eq!(now_playing::handle_inbound(&mut state, &mut p, Some(ack)), None);
    assert_eq!(now_playing::handle_inbound(&mut state, &mut p, None), None);
    assert_eq!(state, before);
}

#[test]
fn times_stand_on_a_clock() {
    let t = |x: f64| remote_devices::fmt_time(double(x));
    assert_eq!(t(0.0), "00:00");
    assert_eq!(t(-0.0), "00:00");
    assert_eq!(t(59.99), "00:59");
    assert_eq!(t(61.0), "01:01");
    assert_eq!(t(3599.0), "59:59");
    assert_eq!(t(3600.0), "1:00:00");
    assert_eq!(t(36_061.0), "10:01:01");
    assert_eq!(t(-1.0), "00:00");
    assert_eq!(t(f64::NAN), "00:00");
    assert_eq!(t(f64::INFINITY), "00:00");
    assert_eq!(t(1e300), "2562047788015215:30:07");
}

#[test]
fn rows_show_devices() {
    let mut d = device("x");
    d.device_type = "Web".to_string();
    d.position_sec = double(65.0);
    let row = remote_devices::render_device(&d);
    assert_eq!(row.label, "Web");
    assert_eq!(row.track, "Idle");
    assert_eq!(row.progress, "01:05");
    assert_eq!(row.state, "⏸ paused");
    assert_eq!((row.play_pause_title, row.play_pause_icon), ("Play", "ph ph-play"));
    d.device_name = "Phone".to_string();
    d.title = "Episode".to_string();
    d.duration_sec = double(3_700.0);
    d.playing = true;
    let row = remote_devices::render_device(&d);
    assert_eq!(row.label, "Phone");
    assert_eq!(row.track, "Episode");
    assert_eq!(row.progress, "01:05 / 1:01:40");
    assert_eq!(row.state, "▶ playing");
    assert_eq!((row.play_pause_title, row.play_pause_icon), ("Pause", "ph ph-pause"));
}

#[test]
fn the_panel_counts_devices() {
    let mut state = NowPlayingState::default();
    let view = remote_devices::remote_devices(&state, true);
    assert!(view.open && view.rows.is_empty());
    assert_eq!(view.badge, None);
    state.devices = (0..10).map(|i| device(&format!("{}", i))).collect();
    let view = remote_devices::remote_devices(&state, false);
    assert_eq!(view.badge, Some("9+".to_string()));
    assert_eq!(view.rows.len(), 10);
    state.devices.pop();
    assert_eq!(remote_devices::remote_devices(&state, false).badge, Some("9".to_string()));
}

#[test]
fn controls_send_commands() {
    let parse = |s: Option<String>| -> Value { s.unwrap().parse().unwrap() };
    let mut d = device("x");
    let v = parse(remote_devices::play_pause(&open(), &d));
    assert_eq!(v["action"], Value::from("play"));
    assert_eq!(v["args"], Value::Object(Default::default()));
    d.playing = true;
    assert_eq!(parse(remote_devices::play_pause(&open(), &d))["action"], Value::from("pause"));
    let back = parse(remote_devices::skip_back(&open(), &d));
    assert_eq!(back["action"], Value::from("skip_back"));
    assert_eq!(back["args"]["seconds"], Value::from(15));
    let forward = parse(remote_devices::skip_forward(&open(), &d));
    assert_eq!(forward["action"], Value::from("skip_forward"));
    assert_eq!(forward["args"]["seconds"], Value::from(30));
    assert_eq!(remote_devices::skip_back(&Link::new(), &d), None);
    let mut state = NowPlayingState::default();
    let mut p = player();
    assert_eq!(
        now_playing::apply_command(&mut state, &mut p, "skip_back", &back["args"]),
        Some(MediaCall::Skip(double(-15.0)))
    );
    assert_eq!(
        now_playing::apply_command(&mut state, &mut p, "skip_forward", &forward["args"]),
        Some(MediaCall::Skip(double(30.0)))
    );
}

#[test]
fn playback_is_taken_over_where_it_was() {
    let mut d = device("x");
    d.episode_id = 9;
    d.is_youtube = true;
    d.position_sec = double(83.7);
    d.playing = true;
    let mut state = NowPlayingState::default();
    let sent: Value =
        remote_devices::play_here(&open(), &mut state, &d).unwrap().parse().unwrap();
    assert_eq!(sent["action"], Value::from("pause"));
    assert_eq!(sent["target_device_id"], Value::from("x"));
    let start = remote_devices::start_pending(
        &mut state,
        &Some("https://s".to_string()),
        &Some("k".to_string()),
        Some(7),
    )
    .unwrap();
    assert_eq!(state.pending_remote_play, None);
    let again = remote_devices::start_pending(
        &mut state,
        &Some("https://s".to_string()),
        &Some("k".to_string()),
        Some(7),
    );
    assert_eq!(again, None);
    assert_eq!(start.request.episode_id, 9);
    assert_eq!(start.request.user_id, 7);
    assert!(start.request.is_youtube && !start.request.person_episode);
    assert_eq!(remote_devices::resume_at(start.resume_pos_sec, 5), 83);
    d.playing = false;
    assert_eq!(remote_devices::play_here(&open(), &mut state, &d), None);
    assert!(state.pending_remote_play.is_some());
    let none = remote_devices::start_pending(&mut state, &None, &Some("k".to_string()), Some(7));
    assert_eq!(none, None);
    assert_eq!(state.pending_remote_play, None);
}

#[test]
fn odd_positions_leave_the_server_in_charge() {
    assert_eq!(remote_devices::resume_at(None, 5), 5);
    assert_eq!(remote_devices::resume_at(Some(double(0.0)), 5), 5);
    assert_eq!(remote_devices::resume_at(Some(double(-4.0)), 5), 5);
    assert_eq!(remote_devices::resume_at(Some(double(f64::NAN)), 5), 5);
    assert_eq!(remote_devices::resume_at(Some(double(f64::INFINITY)), 5), 5);
    assert_eq!(remote_devices::resume_at(Some(double(0.5)), 5), 0);
    assert_eq!(remote_devices::resume_at(Some(double(1e12)), 5), i32::MAX);
}
