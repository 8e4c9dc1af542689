//! Texts, numbers of double precision, and the upkeep of yt-dlp.

use pinepods_activity::double::Double;
use pinepods_activity::notification_center::Label;
use pinepods_activity::notify::NotificationState;
use pinepods_activity::text;
use pinepods_activity::ytdlp;
use pinepods_activity::ytdlp::{
    AutoUpdateColumn, SettingsRow, ToolRun, YtDlpSettings, YtDlpSettingsUpdate,
};
use pinepods_activity::ytdlp_settings;
use pinepods_activity::ytdlp_settings::{UpdateResult, YtDlpPanel};

fn double(x: f64) -> Double {
    Double { bits: x.to_bits() }
}

fn ended(success: bool, stdout: &[u8], stderr: &[u8]) -> ToolRun {
    ToolRun::Ended { success, stdout: stdout.to_vec(), stderr: stderr.to_vec() }
}

#[test]
fn numbers_are_written_in_decimal() {
    assert_eq!(text::decimal(0), "0");
    assert_eq!(text::decimal(i64::MIN), "-9223372036854775808");
    assert_eq!(text::decimal(i64::MAX), "9223372036854775807");
    assert_eq!(text::decimal_u64(u64::MAX), "18446744073709551615");
    assert_eq!(text::two_digits(7), "07");
    assert_eq!(text::two_digits(70), "70");
    assert_eq!(text::two_digits(700), "700");
}

#[test]
fn numbers_are_read_back() {
    for n in [0, 1, -1, i32::MAX, i32::MIN, 1234] {
        assert_eq!(text::parse_i32(&text::decimal(n as i64)), Some(n));
    }
    for t in ["", "+", "-", " 1", "1 ", "0x1", "2147483648", "-2147483649", "--1", "١"] {
        assert_eq!(text::parse_i32(t), t.parse::<i32>().ok());
    }
    assert_eq!(text::parse_i32("+0012"), Some(12));
}

#[test]
fn texts_are_cut_and_searched() {
    assert!(text::same("aé", "aé") && !text::same("a", "b") && !text::same("a", "aa"));
    assert_eq!(text::cut_leading("http://http://x", "http://"), "x");
    assert_eq!(text::cut_leading("x", "http://"), "x");
    assert_eq!(text::cut_trailing("x///", '/'), "x");
    assert_eq!(text::cut_trailing("///", '/'), "");
    assert!(text::starts_with("https://x", "https://") && !text::starts_with("http", "https"));
    assert!(text::contains("abc", "bc") && text::contains("abc", "") && text::contains("", ""));
    assert!(!text::contains("abc", "cb") && !text::contains("", "a"));
    assert_eq!(text::trim("\u{3000} \t a b \n\u{85}"), "a b");
    assert_eq!(text::trim(" \n "), "");
    let all: String = (0..0x3100u32).filter_map(char::from_u32).collect();
    for c in all.chars() {
        let s = format!("{}x{}", c, c);
        assert_eq!(text::trim(&s), s.trim());
    }
}

#[test]
fn components_of_addresses_are_escaped() {
    assert_eq!(text::uri_component("AZaz09-_.!~*'()"), "AZaz09-_.!~*'()");
    assert_eq!(text::uri_component("a b&c=d/e?f#g+h"), "a%20b%26c%3Dd%2Fe%3Ff%23g%2Bh");
    assert_eq!(text::uri_component("·"), "%C2%B7");
    assert_eq!(text::uri_component("😀"), "%F0%9F%98%80");
}

#[test]
fn doubles_compare_as_they_should() {
    let values = [
        f64::NEG_INFINITY,
        -1e300,
        -1.5,
        -1.0,
        -f64::MIN_POSITIVE,
        -5e-324,
        -0.0,
        0.0,
        5e-324,
        0.5,
        1.0,
        99.999,
        100.0,
        1e300,
        f64::INFINITY,
        f64::NAN,
        -f64::NAN,
    ];
    for a in values {
        assert_eq!(double(a).is_nan(), a.is_nan());
        assert_eq!(double(a).is_finite(), a.is_finite());
        assert_eq!(f64::from_bits(double(a).negated().bits).to_bits(), (-a).to_bits());
        let zero = f64::from_bits(double(a).not_negative().bits);
        assert_eq!(zero, a.max(0.0));
        for b in values {
            assert_eq!(double(a).is_below(double(b)), a < b);
        }
        let held = f64::from_bits(double(a).clamp(double(2.0), double(100.0)).bits);
        let expected = a.clamp(2.0, 100.0);
        assert!(held == expected || held.is_nan() && expected.is_nan());
    }
}

#[test]
fn doubles_become_integers_as_they_should() {
    let mut values = vec![
        0.0,
        -0.0,
        0.49999999999999994,
        0.5,
        -0.5,
        1.5,
        2.5,
        -2.5,
        4503599627370495.5,
        9007199254740993.0,
        9.223372036854775e18,
        9.3e18,
        -9.3e18,
        1e300,
        5e-324,
        f64::INFINITY,
        f64::NEG_INFINITY,
        f64::NAN,
        2147483647.5,
        -2147483649.0,
    ];
    let mut x = 0.001;
    while x < 1e19 {
        values.push(x);
        values.push(-x);
        x *= 1.37;
    }
    for v in values {
        assert_eq!(double(v).rounded(), v.round() as i64, "{}", v);
        assert_eq!(double(v).truncated(), v as i64, "{}", v);
        assert_eq!(double(v).truncated_i32(), v as i32, "{}", v);
    }
}

#[test]
fn the_binary_is_the_managed_one_or_the_default() {
    assert_eq!(ytdlp::ytdlp_binary(Some("/opt/yt".to_string())), "/opt/yt");
    assert_eq!(ytdlp::ytdlp_binary(None), "yt-dlp");
}

#[test]
fn channels_are_stable_or_nightly() {
    assert_eq!(ytdlp::normalize_channel("nightly"), "nightly");
    assert_eq!(ytdlp::normalize_channel("Nightly"), "stable");
    assert_eq!(ytdlp::normalize_channel("stable"), "stable");
    assert_eq!(ytdlp::normalize_channel(""), "stable");
    let once = ytdlp::normalize_channel("master");
    assert_eq!(ytdlp::normalize_channel(once), once);
}

#[test]
fn settings_have_defaults() {
    assert_eq!(ytdlp::get_settings(None), YtDlpSettings::default());
    let row = |auto_update| SettingsRow {
        auto_update,
        channel: None,
        last_updated: None,
        last_result: None,
    };
    assert!(ytdlp::get_settings(Some(row(AutoUpdateColumn::Postgres(None)))).auto_update);
    assert!(!ytdlp::get_settings(Some(row(AutoUpdateColumn::Postgres(Some(false))))).auto_update);
    assert!(ytdlp::get_settings(Some(row(AutoUpdateColumn::MySql(None)))).auto_update);
    assert!(ytdlp::get_settings(Some(row(AutoUpdateColumn::MySql(Some(1))))).auto_update);
    assert!(!ytdlp::get_settings(Some(row(AutoUpdateColumn::MySql(Some(0))))).auto_update);
    assert!(!ytdlp::get_settings(Some(row(AutoUpdateColumn::MySql(Some(2))))).auto_update);
    assert_eq!(ytdlp::get_settings(Some(row(AutoUpdateColumn::MySql(None)))).channel, "stable");
}

#[test]
fn written_settings_read_back() {
    let update = YtDlpSettingsUpdate { auto_update: false, channel: "master".to_string() };
    let stored = ytdlp::set_settings(&update);
    assert_eq!((stored.auto_update, stored.auto_update_number), (false, 0));
    assert_eq!(stored.channel, "stable");
    let read = ytdlp::get_settings(Some(SettingsRow {
        auto_update: AutoUpdateColumn::MySql(Some(stored.auto_update_number)),
        channel: Some(stored.channel.to_string()),
        last_updated: Some("then".to_string()),
        last_result: Some("ok".to_string()),
    }));
    assert!(!read.auto_update);
    assert_eq!(read.channel, "stable");
    assert_eq!(read.last_updated, Some("then".to_string()));
    assert_eq!(read.last_result, Some("ok".to_string()));
}

#[test]
fn versions_are_trimmed_and_errors_told() {
    assert_eq!(
        ytdlp::current_version("yt", &ended(true, b"2025.01.01\n", b"")),
        Ok("2025.01.01".to_string())
    );
    assert_eq!(
        ytdlp::current_version("yt", &ended(true, b" \xff\n", b"")),
        Ok("\u{fffd}".to_string())
    );
    assert_eq!(
        ytdlp::current_version("yt", &ended(false, b"", b"bad\n")),
        Err("yt-dlp --version failed: bad".to_string())
    );
    let missing = ToolRun::NotStarted { error: "not found".to_string() };
    assert_eq!(
        ytdlp::current_version("yt", &missing),
        Err("failed to execute yt-dlp (yt): not found".to_string())
    );
    assert_eq!(ytdlp::version_arguments(), vec!["--version"]);
    assert_eq!(ytdlp::update_arguments("odd"), vec!["--update-to", "stable"]);
    assert_eq!(ytdlp::update_arguments("nightly"), vec!["--update-to", "nightly"]);
}

#[test]
fn updates_are_verified() {
    let good = ended(true, b"", b"");
    let version = ended(true, b"v2", b"");
    assert_eq!(ytdlp::run_update("yt", &good, &version), Ok("v2".to_string()));
    assert_eq!(
        ytdlp::run_update("yt", &ended(false, b"", b" no net "), &version),
        Err("yt-dlp update failed: no net".to_string())
    );
    assert_eq!(
        ytdlp::run_update("yt", &good, &ended(false, b"", b"x")),
        Err("yt-dlp updated but --version failed: yt-dlp --version failed: x".to_string())
    );
    let missing = ToolRun::NotStarted { error: "e".to_string() };
    assert_eq!(
        ytdlp::run_update("yt", &missing, &version),
        Err("failed to execute yt-dlp (yt): e".to_string())
    );
    assert_eq!(ytdlp::failed_update("yt", &good), None);
}

#[test]
fn updates_are_recorded() {
    assert_eq!(
        ytdlp::update_and_record(Ok("v2".to_string()), "nightly"),
        (Ok("v2".to_string()), "Updated to v2 (nightly channel)".to_string())
    );
    assert_eq!(
        ytdlp::update_and_record(Err("e".to_string()), "odd"),
        (Err("e".to_string()), "Update failed: e".to_string())
    );
    assert_eq!(ytdlp::channel_to_follow(Err("db".to_string())), "stable");
    let nightly = YtDlpSettings { channel: "nightly".to_string(), ..YtDlpSettings::default() };
    assert_eq!(ytdlp::channel_to_follow(Ok(nightly)), "nightly");
}

fn quiet() -> NotificationState {
    NotificationState {
        active_tasks: None,
        messages: vec![],
        error_message: None,
        info_message: None,
    }
}

#[test]
fn the_panel_is_for_administrators() {
    let mut p = YtDlpPanel::new();
    assert_eq!(ytdlp_settings::ytdlp_settings(&p), None);
    p.loaded(None);
    assert!(!p.is_admin);
    let settings = YtDlpSettings {
        auto_update: false,
        channel: String::new(),
        last_updated: Some("then".to_string()),
        last_result: None,
    };
    p.loaded(Some((settings, None)));
    let v = ytdlp_settings::ytdlp_settings(&p).unwrap();
    assert_eq!(v.version, Label::Key("ytdlp_settings.version_unknown"));
    assert_eq!(v.last_update, Some(("then".to_string(), String::new())));
    assert!(v.stable_selected && !v.nightly_selected && !v.auto_update);
    assert_eq!(v.update_label, "ytdlp_settings.update_now");
    assert_eq!(v.save_label, "ytdlp_settings.save");
    p.loaded(Some((YtDlpSettings::default(), Some("v1".to_string()))));
    let v = ytdlp_settings::ytdlp_settings(&p).unwrap();
    assert_eq!(v.version, Label::Text("v1".to_string()));
    assert_eq!(v.last_update, None);
}

#[test]
fn saving_tells_how_it_went() {
    let mut p = YtDlpPanel::new();
    let mut n = quiet();
    p.toggle_auto();
    p.choose_channel("nightly".to_string());
    let (call, update) = p.save(&Some("s".to_string()), &Some("k".to_string())).unwrap();
    assert_eq!(call.server_name, "s");
    assert_eq!(call.api_key, Some("k".to_string()));
    assert_eq!(
        update,
        YtDlpSettingsUpdate { auto_update: false, channel: "nightly".to_string() }
    );
    assert!(p.saving);
    p.save_ended(&mut n, Ok(()), "Saved".to_string(), "Could not save");
    assert!(!p.saving);
    assert_eq!(p.refresh, 1);
    assert_eq!(n.info_message, Some("Saved".to_string()));
    assert_eq!(p.save(&None, &None), None);
    assert!(p.saving);
    p.save_ended(&mut n, Err("500".to_string()), "Saved".to_string(), "Could not save");
    assert_eq!(n.error_message, Some("Could not save: 500".to_string()));
    assert_eq!(p.refresh, 1);
}

#[test]
fn updating_tells_what_the_server_said() {
    let mut p = YtDlpPanel::new();
    let mut n = quiet();
    assert!(p.update_now(&mut n, &Some("s".to_string()), &None, "Started".to_string()).is_some());
    assert!(p.updating);
    assert_eq!(n.info_message, Some("Started".to_string()));
    let good = UpdateResult { success: true, detail: "Updated to v2".to_string() };
    p.update_ended(&mut n, Ok(good), "Could not update");
    assert!(!p.updating);
    assert_eq!(p.refresh, 1);
    assert_eq!(n.info_message, Some("Updated to v2".to_string()));
    let bad = UpdateResult { success: false, detail: "no net".to_string() };
    p.update_ended(&mut n, Ok(bad), "Could not update");
    assert_eq!(n.error_message, Some("no net".to_string()));
    assert_eq!(p.refresh, 2);
    p.update_ended(&mut n, Err("503".to_string()), "Could not update");
    assert_eq!(n.error_message, Some("Could not update: 503".to_string()));
    assert_eq!(p.refresh, 2);
    assert!(p.update_now(&mut n, &None, &None, "x".to_string()).is_none());
}

#[test]
fn a_full_count_of_reloads_hinders_no_error() {
    let mut p = YtDlpPanel::new();
    let mut n = quiet();
    p.refresh = u32::MAX;
    p.saving = true;
    p.save_ended(&mut n, Err("500".to_string()), "Saved".to_string(), "Could not save");
    assert!(!p.saving);
    assert_eq!(n.error_message, Some("Could not save: 500".to_string()));
    p.updating = true;
    p.update_ended(&mut n, Err("503".to_string()), "Could not update");
    assert!(!p.updating);
    assert_eq!(n.error_message, Some("Could not update: 503".to_string()));
    assert_eq!(p.refresh, u32::MAX);
}
