//! The panel of the user's other devices: what they are playing, controls for them, and taking
//! over what they play.

use crate::double::{Double, ZERO};
use crate::json;
use crate::notification_center;
use crate::now_playing;
use crate::now_playing::{
    Link, LocalPlayer, MediaCall, NowPlayingDevice, NowPlayingState, PendingRemotePlay,
};
use crate::text;
use serde_json::Value;
use vstd::prelude::*;

verus! {

// ---- times ----

/// A number of seconds on a clock: minutes and seconds, and hours where there are any.
pub open spec fn clock_text(total: int) -> Seq<char> {
    let h = total / 3600;
    let m = (total % 3600) / 60;
    let s = total % 60;
    if h > 0 {
        text::decimal_text(h) + ":"@ + text::two_digits_text(m as nat) + ":"@
            + text::two_digits_text(s as nat)
    } else {
        text::two_digits_text(m as nat) + ":"@ + text::two_digits_text(s as nat)
    }
}

/// A time on a clock; one that is negative, infinite or no number counts as none.
pub open spec fn time_text(secs: Double) -> Seq<char> {
    if !secs.finite() || secs.below(Double { bits: ZERO }) {
        "00:00"@
    } else {
        clock_text(secs.cut())
    }
}

/// A time on a clock.
pub fn fmt_time(secs: Double) -> (r: String)
    ensures
        r@ == time_text(secs),
{
    if !secs.is_finite() || secs.is_below(Double { bits: ZERO }) {
        return "00:00".to_string();
    }
    let total: i64 = secs.truncated();
    proof {
        crate::double::lemma_cut_not_negative(secs);
    }
    let h: i64 = total / 3600;
    let m: u64 = ((total % 3600) / 60) as u64;
    let s: u64 = (total % 60) as u64;
    let mut r: String = String::new();
    if h > 0 {
        r.append(text::decimal(h).as_str());
        r.append(":");
    }
    r.append(text::two_digits(m).as_str());
    r.append(":");
    r.append(text::two_digits(s).as_str());
    assert(r@ =~= clock_text(total as int));
    r
}

// ---- devices ----

/// A device as it appears.
#[derive(Debug, PartialEq)]
pub struct DeviceRow {
    pub label: String,
    pub is_playing: bool,
    pub state: &'static str,
    pub track: String,
    pub progress: String,
    pub play_pause_title: &'static str,
    pub play_pause_icon: &'static str,
}

/// Whether a device appears as it should.
pub open spec fn row_shows(row: DeviceRow, device: NowPlayingDevice) -> bool {
    &&& row.label@ == if device.device_name@.len() == 0 {
        device.device_type@
    } else {
        device.device_name@
    }
    &&& row.is_playing == device.playing
    &&& row.state@ == if device.playing {
        "▶ playing"@
    } else {
        "⏸ paused"@
    }
    &&& row.track@ == if device.title@.len() == 0 {
        "Idle"@
    } else {
        device.title@
    }
    &&& row.progress@ == if (Double { bits: ZERO }).below(device.duration_sec) {
        time_text(device.position_sec) + " / "@ + time_text(device.duration_sec)
    } else {
        time_text(device.position_sec)
    }
    &&& row.play_pause_title@ == if device.playing {
        "Pause"@
    } else {
        "Play"@
    }
    &&& row.play_pause_icon@ == if device.playing {
        "ph ph-pause"@
    } else {
        "ph ph-play"@
    }
}

/// A device as it appears.
pub fn render_device(device: &NowPlayingDevice) -> (r: DeviceRow)
    ensures
        row_shows(r, *device),
{
    let mut progress: String = fmt_time(device.position_sec);
    if (Double { bits: ZERO }).is_below(device.duration_sec) {
        progress.append(" / ");
        progress.append(fmt_time(device.duration_sec).as_str());
    }
    DeviceRow {
        label: if device.device_name.as_str().is_empty() {
            device.device_type.clone()
        } else {
            device.device_name.clone()
        },
        is_playing: device.playing,
        state: if device.playing {
            "▶ playing"
        } else {
            "⏸ paused"
        },
        track: if device.title.as_str().is_empty() {
            "Idle".to_string()
        } else {
            device.title.clone()
        },
        progress,
        play_pause_title: if device.playing {
            "Pause"
        } else {
            "Play"
        },
        play_pause_icon: if device.playing {
            "ph ph-pause"
        } else {
            "ph ph-play"
        },
    }
}

/// The panel as it appears.
#[derive(Debug, PartialEq)]
pub struct PanelView {
    pub open: bool,
    /// How many devices there are, unless there are none.
    pub badge: Option<String>,
    /// The devices; where there are none, the panel says so.
    pub rows: Vec<DeviceRow>,
}

/// The panel as it appears.
pub fn remote_devices(state: &NowPlayingState, open: bool) -> (r: PanelView)
    ensures
        r.open == open,
        text::held(r.badge) == notification_center::badge_text_of(state.devices@.len()),
        r.rows@.len() == state.devices@.len(),
        forall|i: int| 0 <= i < r.rows@.len() ==> row_shows(#[trigger] r.rows@[i], state.devices@[i]),
{
    let count: usize = state.devices.len();
    let mut rows: Vec<DeviceRow> = Vec::new();
    let mut i: usize = 0;
    while i < count
        invariant
            i <= count,
            count == state.devices@.len(),
            rows@.len() == i,
            forall|k: int| 0 <= k < i ==> row_shows(#[trigger] rows@[k], state.devices@[k]),
        decreases count - i,
    {
        rows.push(render_device(&state.devices[i]));
        i += 1;
    }
    PanelView {
        open,
        badge: notification_center::badge_text(count),
        rows,
    }
}

// ---- controls ----

/// Whether arguments say nothing.
pub open spec fn no_args(args: Value) -> bool {
    json::is_object(args) && json::members(args) == json::no_members()
}

/// Whether arguments say how many seconds to skip, and no more.
pub open spec fn skip_args(args: Value, seconds: i32) -> bool {
    let m = json::members(args);
    &&& json::is_object(args)
    &&& m.dom() == set!["seconds"@]
    &&& json::as_integer(m["seconds"@]) == Some(seconds as i64)
    &&& json::as_double_bits(m["seconds"@]) is Some
    &&& (Double { bits: json::as_double_bits(m["seconds"@])->0 }).finite()
    &&& (Double { bits: json::as_double_bits(m["seconds"@])->0 }).cut() == seconds
}

/// Arguments that say nothing.
pub fn without_args() -> (r: Value)
    ensures
        no_args(r),
{
    json::empty_object()
}

/// Arguments that say how many seconds to skip.
pub fn args_to_skip(seconds: i32) -> (r: Value)
    ensures
        skip_args(r, seconds),
{
    let mut object: Value = json::empty_object();
    json::put(&mut object, "seconds", json::integer(seconds));
    assert(json::members(object).dom() =~= set!["seconds"@]);
    object
}

/// Whether a message carries a command to a device.
pub open spec fn tells_to(
    message: Seq<char>,
    device_id: Seq<char>,
    action: Seq<char>,
    args: Value,
) -> bool {
    exists|v: Value|
        message == #[trigger] json::compact_text(v) && now_playing::is_command(
            v,
            device_id,
            action,
            args,
        )
}

/// What a device is told: to pause, or to play if it is paused.
pub open spec fn play_pause_action(device: NowPlayingDevice) -> Seq<char> {
    if device.playing {
        "pause"@
    } else {
        "play"@
    }
}

/// Tells a device to pause, or to play if it is paused.
pub fn play_pause(link: &Link, device: &NowPlayingDevice) -> (r: Option<String>)
    ensures
        r is Some == link.open,
        r is Some ==> exists|args: Value| #[trigger]
            no_args(args) && tells_to(
                r->0@,
                device.device_id@,
                play_pause_action(*device),
                args,
            ),
{
    let action: &'static str = if device.playing {
        "pause"
    } else {
        "play"
    };
    let args: Value = without_args();
    let ghost a = args;
    let r: Option<String> = now_playing::send_command(link, device.device_id.as_str(), action, args);
    assert(no_args(a));
    r
}

/// Tells a device to go back fifteen seconds.
pub fn skip_back(link: &Link, device: &NowPlayingDevice) -> (r: Option<String>)
    ensures
        r is Some == link.open,
        r is Some ==> exists|args: Value| #[trigger]
            skip_args(args, 15) && tells_to(r->0@, device.device_id@, "skip_back"@, args),
{
    let args: Value = args_to_skip(15);
    let ghost a = args;
    let r: Option<String> = now_playing::send_command(
        link,
        device.device_id.as_str(),
        "skip_back",
        args,
    );
    assert(skip_args(a, 15));
    r
}

/// Tells a device to go on thirty seconds.
pub fn skip_forward(link: &Link, device: &NowPlayingDevice) -> (r: Option<String>)
    ensures
        r is Some == link.open,
        r is Some ==> exists|args: Value| #[trigger]
            skip_args(args, 30) && tells_to(r->0@, device.device_id@, "skip_forward"@, args),
{
    let args: Value = args_to_skip(30);
    let ghost a = args;
    let r: Option<String> = now_playing::send_command(
        link,
        device.device_id.as_str(),
        "skip_forward",
        args,
    );
    assert(skip_args(a, 30));
    r
}

/// What is to start here where a device's playback is taken over.
pub open spec fn handed_over(device: NowPlayingDevice) -> PendingRemotePlay {
    PendingRemotePlay {
        episode_id: device.episode_id,
        is_youtube: device.is_youtube,
        resume_pos_sec: Some(device.position_sec),
    }
}

/// Takes over what a device is playing: tells it to pause, if it plays, and has the episode
/// start here at the same position.
pub fn play_here(link: &Link, state: &mut NowPlayingState, device: &NowPlayingDevice) -> (r: Option<
    String,
>)
    ensures
        *final(state) == (NowPlayingState {
            pending_remote_play: Some(handed_over(*device)),
            ..*old(state)
        }),
        r is Some == (link.open && device.playing),
        r is Some ==> exists|args: Value| #[trigger]
            no_args(args) && tells_to(r->0@, device.device_id@, "pause"@, args),
{
    let mut r: Option<String> = None;
    if device.playing {
        let args: Value = without_args();
        let ghost a = args;
        r = now_playing::send_command(link, device.device_id.as_str(), "pause", args);
        assert(no_args(a));
    }
    state.pending_remote_play = Some(
        PendingRemotePlay {
            episode_id: device.episode_id,
            is_youtube: device.is_youtube,
            resume_pos_sec: Some(device.position_sec),
        },
    );
    r
}

// ---- starting an episode here ----

/// A request for what the server knows of an episode.
#[derive(Clone, Copy, Debug, PartialEq, Eq)]
pub struct EpisodeRequest {
    pub episode_id: i32,
    pub user_id: i32,
    pub person_episode: bool,
    pub is_youtube: bool,
}

/// What it takes to start an episode here.
#[derive(Clone, Debug, PartialEq)]
pub struct RemoteStart {
    pub server_name: String,
    pub api_key: String,
    pub request: EpisodeRequest,
    pub resume_pos_sec: Option<Double>,
}

/// What starts here, given what is to start and who is signed in.
pub open spec fn start_of(
    pending: Option<PendingRemotePlay>,
    server_name: Option<String>,
    api_key: Option<String>,
    user_id: Option<i32>,
) -> Option<RemoteStart> {
    match (pending, server_name, api_key, user_id) {
        (Some(pending), Some(server_name), Some(api_key), Some(user_id)) => Some(
            RemoteStart {
                server_name,
                api_key,
                request: EpisodeRequest {
                    episode_id: pending.episode_id,
                    user_id,
                    person_episode: false,
                    is_youtube: pending.is_youtube,
                },
                resume_pos_sec: pending.resume_pos_sec,
            },
        ),
        _ => None,
    }
}

/// What is known of other devices once what is to start was taken out.
pub open spec fn taken_out(state: NowPlayingState) -> NowPlayingState {
    NowPlayingState { pending_remote_play: None, ..state }
}

/// Takes out what is to start here, so that it starts once. Nothing starts unless the user is
/// signed in.
pub fn start_pending(
    state: &mut NowPlayingState,
    server_name: &Option<String>,
    api_key: &Option<String>,
    user_id: Option<i32>,
) -> (r: Option<RemoteStart>)
    ensures
        *final(state) == taken_out(*old(state)),
        r == start_of(old(state).pending_remote_play, *server_name, *api_key, user_id),
{
    let pending: PendingRemotePlay = match state.pending_remote_play {
        Some(p) => p,
        None => {
            return None;
        },
    };
    state.pending_remote_play = None;
    match (server_name, api_key, user_id) {
        (Some(server_name), Some(api_key), Some(user_id)) => Some(
            RemoteStart {
                server_name: server_name.clone(),
                api_key: api_key.clone(),
                request: EpisodeRequest {
                    episode_id: pending.episode_id,
                    user_id,
                    person_episode: false,
                    is_youtube: pending.is_youtube,
                },
                resume_pos_sec: pending.resume_pos_sec,
            },
        ),
        _ => None,
    }
}

/// The second at which to resume: the position that was handed over, if it is a finite one
/// above zero, or else where the server says listening stopped.
pub open spec fn resume_second(resume_pos_sec: Option<Double>, listenduration: i32) -> int {
    match resume_pos_sec {
        Some(pos) => if pos.finite() && (Double { bits: ZERO }).below(pos) {
            if pos.cut() > i32::MAX {
                i32::MAX as int
            } else {
                pos.cut()
            }
        } else {
            listenduration as int
        },
        None => listenduration as int,
    }
}

/// The second at which to resume.
pub fn resume_at(resume_pos_sec: Option<Double>, listenduration: i32) -> (r: i32)
    ensures
        r == resume_second(resume_pos_sec, listenduration),
{
    match resume_pos_sec {
        Some(pos) => {
            if pos.is_finite() && (Double { bits: ZERO }).is_below(pos) {
                let second: i32 = pos.truncated_i32();
                assert(pos.cut() >= 0);
                second
            } else {
                listenduration
            }
        },
        None => listenduration,
    }
}

// ---- laws ----

/// What a device that is told to skip does, if its arguments come through as they were sent:
/// the button for going back goes back fifteen seconds and the one for going on goes on thirty.
pub proof fn law_skips_are_as_long_as_they_say(args: Value, seconds: i32)
    requires
        skip_args(args, seconds),
    ensures
        now_playing::number_at(args, "seconds"@) is Some,
        now_playing::number_at(args, "seconds"@)->0.finite(),
        now_playing::number_at(args, "seconds"@)->0.cut() == seconds,
{
    assert(json::members(args).dom().contains("seconds"@));
}

/// Taking over playback resumes at the source's position: what is to start is the source's
/// episode, and it resumes at the second the source had reached, whatever the server says.
pub proof fn law_playback_resumes_where_it_was(device: NowPlayingDevice, listenduration: i32)
    requires
        device.position_sec.finite(),
        (Double { bits: ZERO }).below(device.position_sec),
        device.position_sec.cut() <= i32::MAX,
    ensures
        handed_over(device).episode_id == device.episode_id,
        resume_second(handed_over(device).resume_pos_sec, listenduration)
            == device.position_sec.cut(),
{
}

/// What is to start here starts once: after it was taken out, nothing is left to start.
pub proof fn law_pending_play_starts_once(
    state: NowPlayingState,
    server_name: Option<String>,
    api_key: Option<String>,
    user_id: Option<i32>,
)
    ensures
        start_of(taken_out(state).pending_remote_play, server_name, api_key, user_id) is None,
{
}

/// A device that does what it is told by the button for playing and pausing plays if it was
/// paused, and pauses if it played.
pub proof fn law_play_pause_turns_playback_over(
    device: NowPlayingDevice,
    player: LocalPlayer,
    args: Value,
)
    ensures
        ({
            let call = now_playing::media_call(play_pause_action(device), args);
            &&& call == Some(
                if device.playing {
                    MediaCall::Pause
                } else {
                    MediaCall::Play
                },
            )
            &&& now_playing::player_after(player, call).audio_playing == Some(!device.playing)
        }),
{
    reveal_strlit("play");
    reveal_strlit("pause");
    assert("play"@.len() != "pause"@.len());
}

} // verus!
