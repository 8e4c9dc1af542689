//! What remote control between devices does, told of what goes into it and what comes out.

use crate::double::Double;
use crate::json;
use crate::now_playing;
use crate::now_playing::{
    Link, LocalPlayer, MediaCall, NowPlayingDevice, NowPlayingState, PendingRemotePlay, ServerMsg,
};
use crate::remote_devices;
use crate::remote_devices::{DeviceRow, PanelView, RemoteStart};
use crate::text;
use crate::text_laws;
use serde_json::Value;
use vstd::prelude::*;

verus! {

// ---- commands ----

/// Whether a text is what `serde_json` writes for a command to a device: an object with the
/// device, the action and the arguments, and nothing else.
pub open spec fn commands(
    message: Seq<char>,
    device_id: Seq<char>,
    action: Seq<char>,
    args: Value,
) -> bool {
    exists|v: Value|
        {
            &&& message == #[trigger] json::compact_text(v)
            &&& json::is_object(v)
            &&& json::members(v).contains_key("type"@)
            &&& json::as_text(json::members(v)["type"@]) == Some("command"@)
            &&& json::members(v).contains_key("target_device_id"@)
            &&& json::as_text(json::members(v)["target_device_id"@]) == Some(device_id)
            &&& json::members(v).contains_key("action"@)
            &&& json::as_text(json::members(v)["action"@]) == Some(action)
            &&& json::members(v).contains_key("args"@)
            &&& json::members(v)["args"@] == args
            &&& forall|key: Seq<char>| #[trigger]
                json::members(v).contains_key(key) ==> key == "type"@ || key
                    == "target_device_id"@ || key == "action"@ || key == "args"@
        }
}

/// Whether a text is a command without arguments.
pub open spec fn commands_plainly(
    message: Seq<char>,
    device_id: Seq<char>,
    action: Seq<char>,
) -> bool {
    exists|args: Value| #[trigger]
        commands(message, device_id, action, args) && json::is_object(args) && (forall|
            key: Seq<char>,
        |
            !(#[trigger] json::members(args).contains_key(key)))
}

/// Whether a text is a command that names a number of seconds and nothing else.
pub open spec fn commands_seconds(
    message: Seq<char>,
    device_id: Seq<char>,
    action: Seq<char>,
    seconds: int,
) -> bool {
    exists|args: Value| #[trigger]
        commands(message, device_id, action, args) && json::is_object(args) && (forall|
            key: Seq<char>,
        | #[trigger]
            json::members(args).contains_key(key) <==> key == "seconds"@) && json::as_integer(
            json::members(args)["seconds"@],
        ) == Some(seconds as i64)
}

proof fn lemma_commands(v: Value, device_id: Seq<char>, action: Seq<char>, args: Value)
    requires
        now_playing::is_command(v, device_id, action, args),
    ensures
        commands(json::compact_text(v), device_id, action, args),
{
    let m = json::members(v);
    assert(m.dom().contains("type"@));
    assert(m.dom().contains("target_device_id"@));
    assert(m.dom().contains("action"@));
    assert(m.dom().contains("args"@));
}

/// The buttons of a device speak to that device, and only over an open connection: the one for
/// playing pauses what plays and plays what is paused, and the two for skipping go back fifteen
/// and on thirty seconds.
pub proof fn law_buttons_speak_to_their_device(
    link: Link,
    device: NowPlayingDevice,
    toggled: Option<String>,
    back: Option<String>,
    on: Option<String>,
)
    requires
        call_ensures(remote_devices::play_pause, (&link, &device), toggled),
        call_ensures(remote_devices::skip_back, (&link, &device), back),
        call_ensures(remote_devices::skip_forward, (&link, &device), on),
    ensures
        toggled is Some == link.open,
        back is Some == link.open,
        on is Some == link.open,
        link.open && device.playing ==> commands_plainly(
            toggled->0@,
            device.device_id@,
            "pause"@,
        ),
        link.open && !device.playing ==> commands_plainly(
            toggled->0@,
            device.device_id@,
            "play"@,
        ),
        link.open ==> commands_seconds(back->0@, device.device_id@, "skip_back"@, 15),
        link.open ==> commands_seconds(on->0@, device.device_id@, "skip_forward"@, 30),
{
    if link.open {
        let action = remote_devices::play_pause_action(device);
        let args = choose|args: Value| #[trigger]
            remote_devices::no_args(args) && remote_devices::tells_to(
                toggled->0@,
                device.device_id@,
                action,
                args,
            );
        lemma_plain(toggled->0@, device.device_id@, action, args);
        let args = choose|args: Value| #[trigger]
            remote_devices::skip_args(args, 15) && remote_devices::tells_to(
                back->0@,
                device.device_id@,
                "skip_back"@,
                args,
            );
        lemma_seconds(back->0@, device.device_id@, "skip_back"@, args, 15);
        let args = choose|args: Value| #[trigger]
            remote_devices::skip_args(args, 30) && remote_devices::tells_to(
                on->0@,
                device.device_id@,
                "skip_forward"@,
                args,
            );
        lemma_seconds(on->0@, device.device_id@, "skip_forward"@, args, 30);
    }
}

proof fn lemma_plain(message: Seq<char>, device_id: Seq<char>, action: Seq<char>, args: Value)
    requires
        remote_devices::no_args(args),
        remote_devices::tells_to(message, device_id, action, args),
    ensures
        commands_plainly(message, device_id, action),
{
    let v = choose|v: Value|
        message == #[trigger] json::compact_text(v) && now_playing::is_command(
            v,
            device_id,
            action,
            args,
        );
    lemma_commands(v, device_id, action, args);
}

proof fn lemma_seconds(
    message: Seq<char>,
    device_id: Seq<char>,
    action: Seq<char>,
    args: Value,
    seconds: i32,
)
    requires
        remote_devices::skip_args(args, seconds),
        remote_devices::tells_to(message, device_id, action, args),
    ensures
        commands_seconds(message, device_id, action, seconds as int),
{
    let v = choose|v: Value|
        message == #[trigger] json::compact_text(v) && now_playing::is_command(
            v,
            device_id,
            action,
            args,
        );
    lemma_commands(v, device_id, action, args);
    assert forall|key: Seq<char>| #[trigger]
        json::members(args).contains_key(key) <==> key == "seconds"@ by {
        assert(json::members(args).dom().contains(key) <==> key == "seconds"@);
    }
}

// ---- taking over ----

/// Taking over playback has the item that the device plays start here, from where the device is:
/// the same episode of the same kind, at the same position. A device that plays is told to
/// pause, if it can be told; nothing else that is known of devices changes.
pub proof fn law_takeover_names_the_same_item(
    link: Link,
    state: &mut NowPlayingState,
    device: NowPlayingDevice,
    told: Option<String>,
)
    requires
        call_ensures(remote_devices::play_here, (&link, state, &device), told),
    ensures
        final(state).pending_remote_play is Some,
        final(state).pending_remote_play->0.episode_id == device.episode_id,
        final(state).pending_remote_play->0.is_youtube == device.is_youtube,
        final(state).pending_remote_play->0.resume_pos_sec == Some(device.position_sec),
        final(state).devices == old(state).devices,
        final(state).connected == old(state).connected,
        final(state).self_device_id == old(state).self_device_id,
        told is Some == (link.open && device.playing),
        told is Some ==> commands_plainly(told->0@, device.device_id@, "pause"@),
{
    if told is Some {
        let args = choose|args: Value| #[trigger]
            remote_devices::no_args(args) && remote_devices::tells_to(
                told->0@,
                device.device_id@,
                "pause"@,
                args,
            );
        lemma_plain(told->0@, device.device_id@, "pause"@, args);
    }
}

/// What is to start is asked for as it is: the request names its item and its kind and the user
/// who is signed in, and carries where to resume. It is taken out, so that it starts once; and
/// where nobody is signed in, nothing starts.
pub proof fn law_what_is_pending_is_asked_for(
    state: &mut NowPlayingState,
    server_name: Option<String>,
    api_key: Option<String>,
    user_id: Option<i32>,
    start: Option<RemoteStart>,
)
    requires
        call_ensures(
            remote_devices::start_pending,
            (state, &server_name, &api_key, user_id),
            start,
        ),
    ensures
        start is Some == (old(state).pending_remote_play is Some && server_name is Some
            && api_key is Some && user_id is Some),
        start is Some ==> {
            let pending = old(state).pending_remote_play->0;
            &&& start->0.request.episode_id == pending.episode_id
            &&& start->0.request.is_youtube == pending.is_youtube
            &&& start->0.request.user_id == user_id->0
            &&& !start->0.request.person_episode
            &&& start->0.resume_pos_sec == pending.resume_pos_sec
            &&& start->0.server_name == server_name->0
            &&& start->0.api_key == api_key->0
        },
        final(state).pending_remote_play is None,
        final(state).devices == old(state).devices,
        final(state).connected == old(state).connected,
        final(state).self_device_id == old(state).self_device_id,
{
}

/// From the button to the request: what starts here after a takeover is the item that the other
/// device was playing, at the second at which it was.
pub proof fn law_takeover_starts_what_was_playing(
    link: Link,
    before: &mut NowPlayingState,
    device: NowPlayingDevice,
    told: Option<String>,
    state: &mut NowPlayingState,
    server_name: String,
    api_key: String,
    user_id: i32,
    start: Option<RemoteStart>,
    listenduration: i32,
    second: i32,
)
    requires
        call_ensures(remote_devices::play_here, (&link, before, &device), told),
        *old(state) == *final(before),
        call_ensures(
            remote_devices::start_pending,
            (state, &Some(server_name), &Some(api_key), Some(user_id)),
            start,
        ),
        start is Some ==> call_ensures(
            remote_devices::resume_at,
            (start->0.resume_pos_sec, listenduration),
            second,
        ),
    ensures
        start is Some,
        start->0.request.episode_id == device.episode_id,
        start->0.request.is_youtube == device.is_youtube,
        start->0.request.user_id == user_id,
        device.position_sec.finite() && (Double { bits: 0 }).below(device.position_sec)
            && device.position_sec.cut() <= i32::MAX ==> second == device.position_sec.cut(),
        !device.position_sec.finite() || !(Double { bits: 0 }).below(device.position_sec)
            ==> second == listenduration,
        final(state).pending_remote_play is None,
{
}

/// Without a position that was handed over, an episode resumes where the server says; a position
/// beyond the largest second there is resumes there.
pub proof fn law_resumption_goes_by_the_position(
    pos: Option<Double>,
    listenduration: i32,
    second: i32,
)
    requires
        call_ensures(remote_devices::resume_at, (pos, listenduration), second),
    ensures
        pos is None ==> second == listenduration,
        pos matches Some(p) ==> {
            let usable = p.finite() && (Double { bits: 0 }).below(p);
            &&& usable && p.cut() <= i32::MAX ==> second == p.cut()
            &&& usable && p.cut() > i32::MAX ==> second == i32::MAX
            &&& !usable ==> second == listenduration
        },
{
}

// ---- what a device does when it is told ----

/// The number that arguments hold under a key.
pub open spec fn number_in(args: Value, key: Seq<char>) -> Option<Double> {
    if json::members(args).contains_key(key) && json::as_double_bits(json::members(args)[key])
        is Some {
        Some(Double { bits: json::as_double_bits(json::members(args)[key])->0 })
    } else {
        None
    }
}

/// A device that is told to play plays and says so, and one told to pause pauses and says so; both
/// whatever it did before, and without touching its speed.
pub proof fn law_told_device_plays_and_pauses(
    state: &mut NowPlayingState,
    player: &mut LocalPlayer,
    action: &str,
    args: Value,
    call: Option<MediaCall>,
)
    requires
        call_ensures(now_playing::apply_command, (state, player, action, &args), call),
    ensures
        action@ == "play"@ ==> call == Some(MediaCall::Play) && final(player).audio_playing == Some(
            true,
        ),
        action@ == "pause"@ ==> call == Some(MediaCall::Pause) && final(player).audio_playing
            == Some(false),
        call == Some(MediaCall::Play) <==> action@ == "play"@,
        call == Some(MediaCall::Pause) <==> action@ == "pause"@,
        action@ != "play"@ && action@ != "pause"@
            ==> final(player).audio_playing == old(player).audio_playing,
        action@ != "set_speed"@ ==> final(player).playback_speed == old(player).playback_speed,
{
    lemma_actions();
}

/// A device that is told a place goes there, but never before the beginning; told to skip, it goes
/// on or back by as many seconds as it is told, or else on by thirty and back by fifteen; told a
/// speed, it plays at that and shows it. Without the number it needs it does nothing.
pub proof fn law_told_device_moves_as_told(
    state: &mut NowPlayingState,
    player: &mut LocalPlayer,
    action: &str,
    args: Value,
    call: Option<MediaCall>,
)
    requires
        call_ensures(now_playing::apply_command, (state, player, action, &args), call),
    ensures
        action@ == "seek"@ ==> match number_in(args, "position_sec"@) {
            Some(sec) => call == Some(
                MediaCall::SetTime(
                    if sec.nan() || sec.below(Double { bits: 0 }) {
                        Double { bits: 0 }
                    } else {
                        sec
                    },
                ),
            ),
            None => call is None,
        },
        action@ == "skip_forward"@ ==> match number_in(args, "seconds"@) {
            Some(by) => call == Some(MediaCall::Skip(by)),
            None => call == Some(MediaCall::Skip(Double { bits: 0x403e_0000_0000_0000 })),
        },
        action@ == "skip_back"@ ==> call is Some && call->0 is Skip && match number_in(
            args,
            "seconds"@,
        ) {
            Some(by) => is_opposite(call->0->Skip_0, by),
            None => is_opposite(call->0->Skip_0, Double { bits: 0x402e_0000_0000_0000 }),
        },
        action@ == "set_speed"@ ==> match number_in(args, "speed"@) {
            Some(rate) => call == Some(MediaCall::SetRate(rate)) && final(player).playback_speed
                == rate,
            None => call is None && *final(player) == *old(player),
        },
{
    lemma_actions();
}

/// Whether two numbers differ in their sign alone.
pub open spec fn is_opposite(a: Double, b: Double) -> bool {
    a.magnitude() == b.magnitude() && a.negative() != b.negative()
}

/// A device that is told to play an episode is to start that one, of the kind it is told, from where
/// the server says listening stopped; no other command has anything start. A command that is not
/// known does nothing.
pub proof fn law_told_device_starts_the_episode(
    state: &mut NowPlayingState,
    player: &mut LocalPlayer,
    action: &str,
    args: Value,
    call: Option<MediaCall>,
)
    requires
        call_ensures(now_playing::apply_command, (state, player, action, &args), call),
    ensures
        action@ != "play_episode"@ ==> *final(state) == *old(state),
        action@ == "play_episode"@ ==> {
            let m = json::members(args);
            let named = m.contains_key("episode_id"@) && json::as_integer(m["episode_id"@]) is Some;
            &&& call is None
            &&& *final(player) == *old(player)
            &&& !named ==> *final(state) == *old(state)
            &&& named ==> {
                let start = final(state).pending_remote_play;
                let id = json::as_integer(m["episode_id"@])->0;
                &&& start is Some
                &&& i32::MIN <= id <= i32::MAX ==> start->0.episode_id == id
                &&& (id - start->0.episode_id) % 0x1_0000_0000 == 0
                &&& start->0.is_youtube <==> m.contains_key("is_youtube"@) && json::as_flag(
                    m["is_youtube"@],
                ) == Some(true)
                &&& start->0.resume_pos_sec is None
                &&& final(state).devices == old(state).devices
                &&& final(state).connected == old(state).connected
                &&& final(state).self_device_id == old(state).self_device_id
            }
        },
        !known(action@) ==> call is None && *final(player) == *old(player)
            && *final(state) == *old(state),
{
    lemma_actions();
    if json::members(args).contains_key("episode_id"@) {
        if let Some(id) = json::as_integer(json::members(args)["episode_id"@]) {
            assert((id - (id as i32)) % 0x1_0000_0000 == 0) by (bit_vector);
        }
    }
}

/// The commands that are known.
pub open spec fn known(action: Seq<char>) -> bool {
    ||| action == "play"@
    ||| action == "pause"@
    ||| action == "seek"@
    ||| action == "skip_forward"@
    ||| action == "skip_back"@
    ||| action == "set_speed"@
    ||| action == "play_episode"@
}

proof fn lemma_actions()
    ensures
        "play"@ != "pause"@,
        "play"@ != "seek"@,
        "play"@ != "skip_forward"@,
        "play"@ != "skip_back"@,
        "play"@ != "set_speed"@,
        "play"@ != "play_episode"@,
        "pause"@ != "seek"@,
        "pause"@ != "skip_forward"@,
        "pause"@ != "skip_back"@,
        "pause"@ != "set_speed"@,
        "pause"@ != "play_episode"@,
        "seek"@ != "skip_forward"@,
        "seek"@ != "skip_back"@,
        "seek"@ != "set_speed"@,
        "seek"@ != "play_episode"@,
        "skip_forward"@ != "skip_back"@,
        "skip_forward"@ != "set_speed"@,
        "skip_forward"@ != "play_episode"@,
        "skip_back"@ != "set_speed"@,
        "skip_back"@ != "play_episode"@,
        "set_speed"@ != "play_episode"@,
{
    reveal_strlit("play");
    reveal_strlit("pause");
    reveal_strlit("seek");
    reveal_strlit("skip_forward");
    reveal_strlit("skip_back");
    reveal_strlit("set_speed");
    reveal_strlit("play_episode");
    assert("play"@.len() == 4 && "play"@[0] == 'p');
    assert("pause"@.len() == 5);
    assert("seek"@.len() == 4 && "seek"@[0] == 's');
    assert("skip_forward"@.len() == 12 && "skip_forward"@[0] == 's');
    assert("skip_back"@.len() == 9 && "skip_back"@[1] == 'k');
    assert("set_speed"@.len() == 9 && "set_speed"@[1] == 'e');
    assert("play_episode"@.len() == 12 && "play_episode"@[0] == 'p');
}

/// A message with a command does what the command does; one with devices leaves the others of them
/// to be shown, in their order, and never this one; any other changes nothing.
pub proof fn law_messages_do_what_they_carry(
    state: &mut NowPlayingState,
    player: &mut LocalPlayer,
    message: Option<ServerMsg>,
    call: Option<MediaCall>,
    told: &mut NowPlayingState,
    telling: &mut LocalPlayer,
    action: &str,
    args: Value,
    done: Option<MediaCall>,
)
    requires
        call_ensures(now_playing::handle_inbound, (state, player, message), call),
        *old(told) == *old(state),
        *old(telling) == *old(player),
        call_ensures(now_playing::apply_command, (told, telling, action, &args), done),
    ensures
        message matches Some(ServerMsg::Command { action: said, args: with, .. }) ==> (said@
            == action@ && with == args ==> call == done && *final(state) == *final(told)
            && *final(player) == *final(telling)),
        message matches Some(ServerMsg::Devices { devices }) ==> {
            &&& call is None
            &&& *final(player) == *old(player)
            &&& final(state).devices@ == devices@.filter(
                |d: NowPlayingDevice| d.device_id@ != old(state).self_device_id@,
            )
            &&& final(state).self_device_id == old(state).self_device_id
            &&& final(state).connected == old(state).connected
            &&& final(state).pending_remote_play == old(state).pending_remote_play
        },
        message matches Some(ServerMsg::Command { action, args, .. }) ==> {
            &&& action@ == "play"@ ==> call == Some(MediaCall::Play)
            &&& action@ == "pause"@ ==> call == Some(MediaCall::Pause)
            &&& action@ == "skip_forward"@ && number_in(args, "seconds"@) is Some ==> call == Some(
                MediaCall::Skip(number_in(args, "seconds"@)->0),
            )
            &&& action@ == "skip_back"@ && number_in(args, "seconds"@) is Some ==> call is Some
                && call->0 is Skip && is_opposite(
                call->0->Skip_0,
                number_in(args, "seconds"@)->0,
            )
            &&& !known(action@) ==> call is None && *final(state) == *old(state)
            &&& call == Some(MediaCall::Play) ==> final(player).audio_playing == Some(true)
            &&& call == Some(MediaCall::Pause) ==> final(player).audio_playing == Some(false)
        },
        message is None || message->0 is Ack ==> call is None && *final(state) == *old(state)
            && *final(player) == *old(player),
{
    lemma_actions();
    let other = |d: NowPlayingDevice| now_playing::is_other(d, old(state).self_device_id@);
    assert(other =~= (|d: NowPlayingDevice| d.device_id@ != old(state).self_device_id@));
}

// ---- what a device tells ----

/// Whether an object holds a text under a key.
pub open spec fn says(value: Value, key: Seq<char>, said: Seq<char>) -> bool {
    json::members(value).contains_key(key) && json::as_text(json::members(value)[key]) == Some(said)
}

/// A report says what is playing here, at which place, how long it is, whether it plays and how
/// fast; a sign of life says that it is one; and both are sent exactly while there is a
/// connection.
pub proof fn law_report_says_what_is_playing(
    link: Link,
    episode_id: i32,
    is_youtube: bool,
    title: &str,
    artwork_url: &str,
    position_sec: Value,
    duration_sec: Value,
    playing: bool,
    speed: Value,
    report: Value,
    alive: Value,
    sent: Option<String>,
    sign: Option<String>,
)
    requires
        call_ensures(
            now_playing::report,
            (
                episode_id,
                is_youtube,
                title,
                artwork_url,
                position_sec,
                duration_sec,
                playing,
                speed,
            ),
            report,
        ),
        call_ensures(now_playing::heartbeat, (), alive),
        call_ensures(
            now_playing::send_report,
            (
                &link,
                episode_id,
                is_youtube,
                title,
                artwork_url,
                position_sec,
                duration_sec,
                playing,
                speed,
            ),
            sent,
        ),
        call_ensures(now_playing::send_heartbeat, (&link,), sign),
    ensures
        json::is_object(report),
        says(report, "type"@, "report"@),
        says(report, "title"@, title@),
        says(report, "artwork_url"@, artwork_url@),
        ({
            let m = json::members(report);
            &&& m.contains_key("episode_id"@) && json::as_integer(m["episode_id"@]) == Some(
                episode_id as i64,
            )
            &&& m.contains_key("is_youtube"@) && json::as_flag(m["is_youtube"@]) == Some(is_youtube)
            &&& m.contains_key("playing"@) && json::as_flag(m["playing"@]) == Some(playing)
            &&& m.contains_key("position_sec"@) && m["position_sec"@] == position_sec
            &&& m.contains_key("duration_sec"@) && m["duration_sec"@] == duration_sec
            &&& m.contains_key("speed"@) && m["speed"@] == speed
        }),
        json::is_object(alive),
        says(alive, "type"@, "heartbeat"@),
        sent is Some <==> link.open,
        sign is Some <==> link.open,
        sent is Some ==> exists|v: Value|
            {
                let m = json::members(v);
                &&& sent->0@ == #[trigger] json::compact_text(v)
                &&& says(v, "type"@, "report"@)
                &&& says(v, "title"@, title@)
                &&& says(v, "artwork_url"@, artwork_url@)
                &&& json::as_integer(m["episode_id"@]) == Some(episode_id as i64)
                &&& json::as_flag(m["is_youtube"@]) == Some(is_youtube)
                &&& json::as_flag(m["playing"@]) == Some(playing)
                &&& m["position_sec"@] == position_sec
                &&& m["duration_sec"@] == duration_sec
                &&& m["speed"@] == speed
                &&& forall|key: Seq<char>| #[trigger]
                    m.contains_key(key) <==> json::members(report).contains_key(key)
            },
        sign is Some ==> exists|v: Value|
            sign->0@ == #[trigger] json::compact_text(v) && says(v, "type"@, "heartbeat"@) && (
            forall|key: Seq<char>| #[trigger]
                json::members(v).contains_key(key) ==> key == "type"@),
        forall|key: Seq<char>| #[trigger]
            json::members(alive).contains_key(key) ==> key == "type"@,
        forall|key: Seq<char>| #[trigger]
            json::members(report).contains_key(key) ==> key == "type"@ || key == "title"@ || key
                == "artwork_url"@ || key == "episode_id"@ || key == "is_youtube"@ || key
                == "playing"@ || key == "position_sec"@ || key == "duration_sec"@ || key
                == "speed"@,
{
    lemma_report_keys(json::members(report));
    assert(json::members(alive).dom().contains("type"@));
    assert forall|key: Seq<char>| #[trigger] json::members(alive).contains_key(key) implies key
        == "type"@ by {
        assert(json::members(alive).dom().contains(key));
    }
    if sent is Some {
        let v = choose|v: Value|
            sent->0@ == #[trigger] json::compact_text(v) && now_playing::is_report(
                v,
                episode_id,
                is_youtube,
                title@,
                artwork_url@,
                position_sec,
                duration_sec,
                playing,
                speed,
            );
        lemma_report_keys(json::members(v));
        assert forall|key: Seq<char>| #[trigger]
            json::members(v).contains_key(key) <==> json::members(report).contains_key(key) by {
            assert(json::members(v).dom().contains(key) == json::members(report).dom().contains(
                key,
            ));
        }
    }
    if sign is Some {
        let v = choose|v: Value|
            sign->0@ == #[trigger] json::compact_text(v) && now_playing::is_heartbeat(v);
        assert(json::members(v).dom().contains("type"@));
        assert forall|key: Seq<char>| #[trigger] json::members(v).contains_key(key) implies key
            == "type"@ by {
            assert(json::members(v).dom().contains(key));
        }
    }
}

proof fn lemma_report_keys(m: Map<Seq<char>, Value>)
    requires
        m.dom() == set![
            "type"@,
            "episode_id"@,
            "is_youtube"@,
            "title"@,
            "artwork_url"@,
            "position_sec"@,
            "duration_sec"@,
            "playing"@,
            "speed"@,
        ],
    ensures
        m.contains_key("type"@),
        m.contains_key("episode_id"@),
        m.contains_key("is_youtube"@),
        m.contains_key("title"@),
        m.contains_key("artwork_url"@),
        m.contains_key("position_sec"@),
        m.contains_key("duration_sec"@),
        m.contains_key("playing"@),
        m.contains_key("speed"@),
        forall|key: Seq<char>| #[trigger]
            m.contains_key(key) ==> key == "type"@ || key == "title"@ || key == "artwork_url"@
                || key == "episode_id"@ || key == "is_youtube"@ || key == "playing"@ || key
                == "position_sec"@ || key == "duration_sec"@ || key == "speed"@,
{
    assert forall|key: Seq<char>| #[trigger] m.contains_key(key) implies key == "type"@ || key
        == "title"@ || key == "artwork_url"@ || key == "episode_id"@ || key == "is_youtube"@ || key
        == "playing"@ || key == "position_sec"@ || key == "duration_sec"@ || key == "speed"@ by {
        assert(m.dom().contains(key));
    }
    assert(m.dom().contains("type"@));
    assert(m.dom().contains("episode_id"@));
    assert(m.dom().contains("is_youtube"@));
    assert(m.dom().contains("title"@));
    assert(m.dom().contains("artwork_url"@));
    assert(m.dom().contains("position_sec"@));
    assert(m.dom().contains("duration_sec"@));
    assert(m.dom().contains("playing"@));
    assert(m.dom().contains("speed"@));
}

/// A command that is sent names the device, the action and the arguments it was given, and nothing
/// is sent without a connection.
pub proof fn law_command_names_its_device(
    link: Link,
    target: &str,
    action: &str,
    args: Value,
    sent: Option<String>,
    message: String,
    raw: Option<String>,
)
    requires
        call_ensures(now_playing::send_command, (&link, target, action, args), sent),
        call_ensures(Link::send_raw, (&link, message), raw),
    ensures
        sent is Some <==> link.open,
        sent is Some ==> commands(sent->0@, target@, action@, args),
        raw is Some <==> link.open,
        raw is Some ==> raw->0@ == message@,
{
    if sent is Some {
        let v = choose|v: Value|
            sent->0@ == #[trigger] json::compact_text(v) && now_playing::is_command(
                v,
                target@,
                action@,
                args,
            );
        lemma_commands(v, target@, action@, args);
    }
}

// ---- the panel ----

/// Whether a text is a number of seconds on a clock.
pub open spec fn on_clock(told: Seq<char>, seconds: int) -> bool {
    exists|h: int, m: int, s: int|
        {
            &&& seconds == #[trigger] clock_seconds(h, m, s)
            &&& 0 <= m < 60
            &&& 0 <= s < 60
            &&& h >= 0
            &&& h == 0 ==> told == two_wide(m) + ":"@ + two_wide(s)
            &&& h > 0 ==> told == text::decimal_text(h) + ":"@ + two_wide(m) + ":"@ + two_wide(s)
        }
}

/// Hours, minutes and seconds as seconds.
pub open spec fn clock_seconds(h: int, m: int, s: int) -> int {
    h * 3600 + m * 60 + s
}

/// A number in decimal notation, behind a zero where it has one digit.
pub open spec fn two_wide(n: int) -> Seq<char> {
    if n < 10 {
        "0"@ + text::decimal_text(n)
    } else {
        text::decimal_text(n)
    }
}

proof fn lemma_on_clock(seconds: int)
    requires
        seconds >= 0,
    ensures
        on_clock(remote_devices::clock_text(seconds), seconds),
{
    let h = seconds / 3600;
    let m = (seconds % 3600) / 60;
    let s = seconds % 60;
    reveal_strlit("0");
    assert("0"@ =~= seq!['0']);
    assert(seconds == clock_seconds(h, m, s));
    assert(text::two_digits_text(m as nat) =~= two_wide(m));
    assert(text::two_digits_text(s as nat) =~= two_wide(s));
}

/// Whether a text is a time on a clock, where one that is negative or no finite number counts as
/// none.
pub open spec fn tells_time(told: Seq<char>, secs: Double) -> bool {
    if secs.finite() && !secs.below(Double { bits: 0 }) {
        on_clock(told, secs.cut())
    } else {
        told == "00:00"@
    }
}

proof fn lemma_tells_time(secs: Double)
    ensures
        tells_time(remote_devices::time_text(secs), secs),
{
    if secs.finite() && !secs.below(Double { bits: 0 }) {
        crate::double::lemma_cut_not_negative(secs);
        lemma_on_clock(secs.cut());
    }
}

/// A time is told by its hours, where it has any, its minutes and its seconds.
pub proof fn law_time_is_told_on_a_clock(secs: Double, told: String)
    requires
        call_ensures(remote_devices::fmt_time, (secs,), told),
    ensures
        tells_time(told@, secs),
{
    lemma_tells_time(secs);
}

/// The row of a device bears its name, or else its type, and what it plays; it says whether it plays
/// and offers the contrary; and it tells where it is, and of how much where that is known.
pub proof fn law_device_row_tells_the_device(device: NowPlayingDevice, row: DeviceRow)
    requires
        call_ensures(remote_devices::render_device, (&device,), row),
    ensures
        device.device_name@.len() > 0 ==> row.label@ == device.device_name@,
        device.device_name@.len() == 0 ==> row.label@ == device.device_type@,
        device.title@.len() > 0 ==> row.track@ == device.title@,
        device.title@.len() == 0 ==> row.track@ == "Idle"@,
        row.is_playing == device.playing,
        row.state@ == "▶ playing"@ <==> device.playing,
        row.state@ == "⏸ paused"@ <==> !device.playing,
        row.play_pause_title@ == "Pause"@ <==> device.playing,
        row.play_pause_title@ == "Play"@ <==> !device.playing,
        row.play_pause_icon@ == "ph ph-pause"@ <==> device.playing,
        row.play_pause_icon@ == "ph ph-play"@ <==> !device.playing,
        exists|place: Seq<char>, length: Seq<char>|
            {
                &&& #[trigger] tells_time(place, device.position_sec)
                &&& #[trigger] tells_time(length, device.duration_sec)
                &&& (Double { bits: 0 }).below(device.duration_sec) ==> row.progress@ == place
                    + " / "@ + length
                &&& !(Double { bits: 0 }).below(device.duration_sec) ==> row.progress@ == place
            },
{
    lemma_tells_time(device.position_sec);
    lemma_tells_time(device.duration_sec);
    reveal_strlit("▶ playing");
    reveal_strlit("⏸ paused");
    reveal_strlit("Pause");
    reveal_strlit("Play");
    reveal_strlit("ph ph-pause");
    reveal_strlit("ph ph-play");
    assert("▶ playing"@.len() == 9 && "⏸ paused"@.len() == 8);
    assert("Pause"@.len() == 5 && "Play"@.len() == 4);
    assert("ph ph-pause"@.len() == 11 && "ph ph-play"@.len() == 10);
}

/// The panel shows a row for each of the other devices, and how many there are, up to nine.
pub proof fn law_panel_counts_devices(
    state: NowPlayingState,
    open: bool,
    view: PanelView,
    i: int,
    row: DeviceRow,
)
    requires
        call_ensures(remote_devices::remote_devices, (&state, open), view),
        0 <= i < state.devices@.len(),
        call_ensures(remote_devices::render_device, (&state.devices@[i],), row),
    ensures
        view.open == open,
        view.rows@.len() == state.devices@.len(),
        view.rows@[i].label@ == row.label@,
        view.rows@[i].track@ == row.track@,
        view.rows@[i].progress@ == row.progress@,
        view.rows@[i].is_playing == row.is_playing,
        view.rows@[i].state@ == row.state@,
        view.rows@[i].play_pause_title@ == row.play_pause_title@,
        view.rows@[i].play_pause_icon@ == row.play_pause_icon@,
        view.badge is Some,
        state.devices@.len() <= 9 ==> view.badge->0@ == text::decimal_text(
            state.devices@.len() as int,
        ),
        state.devices@.len() > 9 ==> view.badge->0@ == "9+"@,
{
    assert(remote_devices::row_shows(view.rows@[i], state.devices@[i]));
}

/// Without other devices the panel has neither rows nor a number.
pub proof fn law_panel_without_devices_has_no_number(
    state: NowPlayingState,
    open: bool,
    view: PanelView,
)
    requires
        call_ensures(remote_devices::remote_devices, (&state, open), view),
    ensures
        view.open == open,
        view.badge is None <==> state.devices@.len() == 0,
        state.devices@.len() == 0 ==> view.rows@.len() == 0,
{
}

// ---- the connection ----

/// A device keeps the id that is stored, unless that is empty, and stores a new one where it can; a
/// new id is thirty-two hexadecimal digits that depend on all the numbers it is made of.
pub proof fn law_device_keeps_its_id(
    stored: now_playing::StoredId,
    a: u32,
    b: u32,
    c: u32,
    d: u32,
    r: (String, bool),
    fresh: String,
)
    requires
        call_ensures(now_playing::get_or_create_device_id, (&stored, a, b, c, d), r),
        call_ensures(now_playing::generate_id, (a, b, c, d), fresh),
    ensures
        stored is Unavailable || r.1 ==> r.0@ == fresh@,
        stored matches now_playing::StoredId::Available(Some(id)) ==> (id@.len() > 0 ==> r.0@ == id@
            && !r.1),
        r.1 <==> stored is Available && (stored->Available_0 is None
            || stored->Available_0->0@.len()
            == 0),
        stored is Unavailable || r.1 ==> r.0@.len() == 32 && (forall|i: int|
            0 <= i < 32 ==> crate::ident::is_hex(#[trigger] r.0@[i])),
{
    now_playing::law_generated_ids_differ(a, b, c, d, a, b, c, d);
}

/// A device is called after its browser: Edge wherever the agent names that, and else Firefox,
/// Chrome and Safari in turn, since later ones are also named by agents of earlier ones.
pub proof fn law_device_is_called_after_its_browser(agent: &str, name: String)
    requires
        call_ensures(now_playing::device_name, (agent,), name),
    ensures
        ({
            let edge = text::holds_part(agent@, "Edg"@);
            let firefox = text::holds_part(agent@, "Firefox"@);
            let chrome = text::holds_part(agent@, "Chrome"@);
            let safari = text::holds_part(agent@, "Safari"@);
            &&& edge ==> name@ == "Web · "@ + "Edge"@
            &&& firefox && !edge ==> name@ == "Web · "@ + "Firefox"@
            &&& chrome && !edge && !firefox ==> name@ == "Web · "@ + "Chrome"@
            &&& safari && !edge && !firefox && !chrome ==> name@ == "Web · "@ + "Safari"@
            &&& !edge && !firefox && !chrome && !safari ==> name@ == "Web · "@ + "Browser"@
        }),
{
}

/// The path and the questions behind the host of a connection.
pub open spec fn question(
    user_id: i32,
    api_key: Seq<char>,
    device_id: Seq<char>,
    name: Seq<char>,
) -> Seq<char> {
    "/ws/api/nowplaying/"@ + text::decimal_text(user_id as int) + "?api_key="@
        + text::uri_component_text(api_key) + "&device_id="@ + text::uri_component_text(device_id)
        + "&device_name="@ + text::uri_component_text(name) + "&device_type="@
        + text::uri_component_text("Web"@)
}

/// A device connects once, under its id, to the server it is signed in to: securely where the
/// address of that says so first, and else plainly; the protocols that the address names are taken
/// off, however often it names them. It says who the user is, by which key, and what the
/// device is called. Nothing else that is known of devices changes.
pub proof fn law_device_connects_once(
    link: &mut Link,
    state: &mut NowPlayingState,
    server_name: &str,
    plainly: nat,
    securely: nat,
    host: Seq<char>,
    user_id: i32,
    api_key: &str,
    stored: now_playing::StoredId,
    random: (u32, u32, u32, u32),
    agent: &str,
    name: String,
    id: (String, bool),
    r: Option<now_playing::Connection>,
)
    requires
        call_ensures(
            now_playing::connect_now_playing_ws,
            (link, state, server_name, user_id, api_key, &stored, random, agent),
            r,
        ),
        call_ensures(now_playing::device_name, (agent,), name),
        call_ensures(
            now_playing::get_or_create_device_id,
            (&stored, random.0, random.1, random.2, random.3),
            id,
        ),
        server_name@ == text_laws::repeated("http://"@, plainly) + text_laws::repeated(
            "https://"@,
            securely,
        ) + host,
        !text::stands_at(host, "https://"@, 0),
        securely == 0 ==> !text::stands_at(host, "http://"@, 0),
    ensures
        r is Some <==> !old(link).running,
        final(link).running,
        final(link).open == old(link).open,
        final(state).devices == old(state).devices,
        final(state).connected == old(state).connected,
        final(state).pending_remote_play == old(state).pending_remote_play,
        r is None ==> final(state).self_device_id == old(state).self_device_id,
        r is Some ==> final(state).self_device_id@ == id.0@ && r->0.store_id == id.1,
        r is Some ==> r->0.url@ == (if plainly == 0 && securely > 0 {
            "wss://"@
        } else {
            "ws://"@
        }) + host + question(user_id, api_key@, id.0@, name@),
{
    reveal_strlit("http://");
    reveal_strlit("https://");
    let plain = "http://"@;
    let secure = "https://"@;
    assert(plain.len() == 7 && secure.len() == 8);
    assert(plain[4] == ':' && secure[4] == 's');
    let rest = text_laws::repeated(secure, securely) + host;
    let full = text_laws::repeated(plain, plainly) + rest;
    assert(server_name@ =~= full);
    text_laws::lemma_copies_begin(secure, securely, host);
    text_laws::lemma_copies_begin(plain, plainly, rest);
    if text::stands_at(rest, plain, 0) {
        assert(rest.subrange(0, 7)[4] == rest[4]);
        if securely > 0 {
            assert(rest.subrange(0, 8)[4] == rest[4]);
        }
    }
    text_laws::lemma_without_copies(plain, plainly, rest);
    text_laws::lemma_without_copies(secure, securely, host);
    if plainly > 0 {
        assert(full.subrange(0, 7)[4] == full[4]);
        if text::stands_at(full, secure, 0) {
            assert(full.subrange(0, 8)[4] == full[4]);
        }
    }
    if r is Some {
        assert(r->0.url@ =~= (if plainly == 0 && securely > 0 {
            "wss://"@
        } else {
            "ws://"@
        }) + host + question(user_id, api_key@, id.0@, name@));
    }
}

/// A connection that opens is used; one that closes is tried again after five seconds, and until
/// then no device is shown; one that cannot be opened is tried again too, with a warning that says
/// why. What is to start here and who this device is stay.
pub proof fn law_lost_connection_is_tried_again(
    link: &mut Link,
    state: &mut NowPlayingState,
    event: now_playing::LinkEvent,
    step: now_playing::LinkStep,
)
    requires
        call_ensures(now_playing::handle_link, (link, state, event), step),
    ensures
        event is Opened ==> step is Exchange && final(link).open && final(state).connected
            && final(state).devices == old(state).devices,
        event is Closed ==> !final(link).open && !final(state).connected
            && final(state).devices@.len() == 0,
        event is Closed ==> (step matches now_playing::LinkStep::Wait { warning, ms }
            && warning is None
            && ms == 5_000),
        event matches now_playing::LinkEvent::Failed(reason) ==> (step matches
            now_playing::LinkStep::Wait { warning, ms } && ms == 5_000 && text::held(warning)
            == Some("now-playing WebSocket failed: "@ + reason@)),
        event is Failed || event is Waited ==> *final(link) == *old(link)
            && *final(state) == *old(state),
        event is Waited ==> step is Open,
        final(link).running == old(link).running,
        final(state).pending_remote_play == old(state).pending_remote_play,
        final(state).self_device_id == old(state).self_device_id,
{
}

/// A generated id is made of four numbers of eight hexadecimal digits each, in turn, so that ids of
/// different numbers differ.
pub proof fn law_ids_are_made_of_their_numbers(
    a: u32,
    b: u32,
    c: u32,
    d: u32,
    id: String,
    e: u32,
    f: u32,
    g: u32,
    h: u32,
    other: String,
)
    requires
        call_ensures(now_playing::generate_id, (a, b, c, d), id),
        call_ensures(now_playing::generate_id, (e, f, g, h), other),
    ensures
        id@.len() == 32,
        text_laws::counts(id@.subrange(0, 8), 16) == a,
        text_laws::counts(id@.subrange(8, 16), 16) == b,
        text_laws::counts(id@.subrange(16, 24), 16) == c,
        text_laws::counts(id@.subrange(24, 32), 16) == d,
        id@ == other@ <==> a == e && b == f && c == g && d == h,
{
    lemma_made_of(id@, a, b, c, d);
    lemma_made_of(other@, e, f, g, h);
}

proof fn lemma_made_of(id: Seq<char>, a: u32, b: u32, c: u32, d: u32)
    requires
        id == now_playing::generated_id(a, b, c, d),
    ensures
        id.len() == 32,
        text_laws::counts(id.subrange(0, 8), 16) == a,
        text_laws::counts(id.subrange(8, 16), 16) == b,
        text_laws::counts(id.subrange(16, 24), 16) == c,
        text_laws::counts(id.subrange(24, 32), 16) == d,
{
    text_laws::lemma_eight_digits(a);
    text_laws::lemma_eight_digits(b);
    text_laws::lemma_eight_digits(c);
    text_laws::lemma_eight_digits(d);
    assert(id.subrange(0, 8) =~= text::hex_text(a as nat, 8));
    assert(id.subrange(8, 16) =~= text::hex_text(b as nat, 8));
    assert(id.subrange(16, 24) =~= text::hex_text(c as nat, 8));
    assert(id.subrange(24, 32) =~= text::hex_text(d as nat, 8));
}

/// A command says for which device it is, what to do and with which arguments, and nothing else;
/// arguments for skipping name the seconds, and those that say nothing name nothing.
pub proof fn law_command_says_what_to_do(
    target: &str,
    action: &str,
    args: Value,
    r: Value,
    seconds: i32,
    to_skip: Value,
    nothing: Value,
    link: Link,
    connected: bool,
)
    requires
        call_ensures(now_playing::command, (target, action, args), r),
        call_ensures(remote_devices::args_to_skip, (seconds,), to_skip),
        call_ensures(remote_devices::without_args, (), nothing),
        call_ensures(Link::is_connected, (&link,), connected),
    ensures
        commands(json::compact_text(r), target@, action@, args),
        json::is_object(to_skip),
        forall|key: Seq<char>| #[trigger]
            json::members(to_skip).contains_key(key) <==> key == "seconds"@,
        json::as_integer(json::members(to_skip)["seconds"@]) == Some(seconds as i64),
        json::is_object(nothing),
        forall|key: Seq<char>| !(#[trigger] json::members(nothing).contains_key(key)),
        connected <==> link.open,
{
    lemma_commands(r, target@, action@, args);
}

/// At first there is no connection and none is looked after, and nothing is known of any device.
pub proof fn law_link_begins_unconnected(
    link: Link,
    message: String,
    sent: Option<String>,
    state: NowPlayingState,
    device: NowPlayingDevice,
)
    requires
        call_ensures(Link::new, (), link),
        call_ensures(Link::send_raw, (&link, message), sent),
        call_ensures(NowPlayingState::default, (), state),
        call_ensures(NowPlayingDevice::default, (), device),
    ensures
        !link.open && !link.running,
        sent is None,
        state.devices@.len() == 0 && !state.connected && state.pending_remote_play is None
            && state.self_device_id@.len() == 0,
        device.device_id@.len() == 0 && device.device_name@.len() == 0 && device.device_type@.len()
            == 0 && device.title@.len() == 0 && device.artwork_url@.len() == 0,
        device.episode_id == 0 && !device.is_youtube && !device.playing,
        device.position_sec.bits == 0 && device.duration_sec.bits == 0 && device.speed.bits == 0,
{
}

} // verus!
