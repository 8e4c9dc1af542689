//! What each of a user's devices is playing, and remote control between them.
//!
//! One socket per client reports this device's playback and receives the list of the user's
//! devices, along with advisory commands. The local player stays authoritative: commands are
//! applied to it, never the other way round.

use crate::double::{Double, FIFTEEN, THIRTY, ZERO};
use crate::ident;
use crate::json;
use crate::lists;
use crate::text;
use serde_json::Value;
use vstd::prelude::*;

verus! {

/// A device and what it is playing.
#[derive(Clone, Debug, PartialEq)]
pub struct NowPlayingDevice {
    pub device_id: String,
    pub device_name: String,
    pub device_type: String,
    pub episode_id: i32,
    pub is_youtube: bool,
    pub title: String,
    pub artwork_url: String,
    pub position_sec: Double,
    pub duration_sec: Double,
    pub playing: bool,
    pub speed: Double,
    pub updated_at: i64,
}

impl Default for NowPlayingDevice {
    /// An idle device without a name.
    fn default() -> (r: Self)
        ensures
            r.device_id@ == Seq::<char>::empty(),
            r.device_name@ == Seq::<char>::empty(),
            r.device_type@ == Seq::<char>::empty(),
            r.episode_id == 0,
            !r.is_youtube,
            r.title@ == Seq::<char>::empty(),
            r.artwork_url@ == Seq::<char>::empty(),
            r.position_sec.bits == ZERO,
            r.duration_sec.bits == ZERO,
            !r.playing,
            r.speed.bits == ZERO,
            r.updated_at == 0,
    {
        NowPlayingDevice {
            device_id: String::new(),
            device_name: String::new(),
            device_type: String::new(),
            episode_id: 0,
            is_youtube: false,
            title: String::new(),
            artwork_url: String::new(),
            position_sec: Double { bits: ZERO },
            duration_sec: Double { bits: ZERO },
            playing: false,
            speed: Double { bits: ZERO },
            updated_at: 0,
        }
    }
}

/// A request to start an episode on this device.
#[derive(Clone, Copy, Debug, PartialEq)]
pub struct PendingRemotePlay {
    pub episode_id: i32,
    pub is_youtube: bool,
    /// Where to resume, in seconds; without it, where the server says listening stopped.
    pub resume_pos_sec: Option<Double>,
}

/// What the client knows of the user's other devices.
#[derive(Clone, Debug, PartialEq)]
pub struct NowPlayingState {
    pub self_device_id: String,
    /// The user's devices without this one.
    pub devices: Vec<NowPlayingDevice>,
    pub connected: bool,
    /// What is to start on this device; whoever starts it takes it out.
    pub pending_remote_play: Option<PendingRemotePlay>,
}

impl Default for NowPlayingState {
    /// Nothing known, and not connected.
    fn default() -> (r: Self)
        ensures
            r.self_device_id@ == Seq::<char>::empty(),
            r.devices@.len() == 0,
            !r.connected,
            r.pending_remote_play is None,
    {
        NowPlayingState {
            self_device_id: String::new(),
            devices: Vec::new(),
            connected: false,
            pending_remote_play: None,
        }
    }
}

/// A message of the server.
#[derive(Debug, PartialEq)]
pub enum ServerMsg {
    Devices { devices: Vec<NowPlayingDevice> },
    Command { from_device_id: String, action: String, args: Value },
    Ack { ok: bool, detail: String },
}

// ---- who this device is ----

/// The key under which a browser keeps the id of its device.
pub const DEVICE_ID_KEY: &'static str = "pinepods_device_id";

/// An id made of four random numbers.
pub open spec fn generated_id(a: u32, b: u32, c: u32, d: u32) -> Seq<char> {
    text::hex_text(a as nat, 8) + text::hex_text(b as nat, 8) + text::hex_text(c as nat, 8)
        + text::hex_text(d as nat, 8)
}

/// Makes an id of four random numbers.
pub fn generate_id(a: u32, b: u32, c: u32, d: u32) -> (r: String)
    ensures
        r@ == generated_id(a, b, c, d),
{
    let mut s: String = String::new();
    text::push_hex(&mut s, a, 8);
    text::push_hex(&mut s, b, 8);
    text::push_hex(&mut s, c, 8);
    text::push_hex(&mut s, d, 8);
    assert(s@ =~= generated_id(a, b, c, d));
    s
}

/// What the client's storage holds of a device id.
#[derive(Clone, Debug, PartialEq)]
pub enum StoredId {
    /// There is no storage.
    Unavailable,
    /// There is storage, which holds this, if anything can be read.
    Available(Option<String>),
}

/// The id that storage holds, unless it is empty.
pub open spec fn usable_id(stored: StoredId) -> Option<Seq<char>> {
    match stored {
        StoredId::Available(Some(id)) => if id@.len() > 0 {
            Some(id@)
        } else {
            None
        },
        _ => None,
    }
}

/// The id of this device: the stored one, or else a new one.
pub open spec fn device_id_of(stored: StoredId, a: u32, b: u32, c: u32, d: u32) -> Seq<char> {
    match usable_id(stored) {
        Some(id) => id,
        None => generated_id(a, b, c, d),
    }
}

/// Whether the id of this device is to be stored.
pub open spec fn id_is_new(stored: StoredId) -> bool {
    stored is Available && usable_id(stored) is None
}

/// The stable id of this device: the stored one, or else a new one. Says whether the id is to
/// be stored.
pub fn get_or_create_device_id(stored: &StoredId, a: u32, b: u32, c: u32, d: u32) -> (r: (
    String,
    bool,
))
    ensures
        r.0@ == device_id_of(*stored, a, b, c, d),
        r.1 == id_is_new(*stored),
{
    match stored {
        StoredId::Unavailable => (generate_id(a, b, c, d), false),
        StoredId::Available(Some(id)) => {
            if id.as_str().is_empty() {
                (generate_id(a, b, c, d), true)
            } else {
                (id.clone(), false)
            }
        },
        StoredId::Available(None) => (generate_id(a, b, c, d), true),
    }
}

/// The browser that a user agent names.
pub open spec fn browser_of(user_agent: Seq<char>) -> Seq<char> {
    if text::holds_part(user_agent, "Edg"@) {
        "Edge"@
    } else if text::holds_part(user_agent, "Firefox"@) {
        "Firefox"@
    } else if text::holds_part(user_agent, "Chrome"@) {
        "Chrome"@
    } else if text::holds_part(user_agent, "Safari"@) {
        "Safari"@
    } else {
        "Browser"@
    }
}

/// What a device with this user agent is called.
pub open spec fn device_name_text(user_agent: Seq<char>) -> Seq<char> {
    "Web · "@ + browser_of(user_agent)
}

/// What a device with this user agent is called.
pub fn device_name(user_agent: &str) -> (r: String)
    ensures
        r@ == device_name_text(user_agent@),
{
    let browser: &'static str = if text::contains(user_agent, "Edg") {
        "Edge"
    } else if text::contains(user_agent, "Firefox") {
        "Firefox"
    } else if text::contains(user_agent, "Chrome") {
        "Chrome"
    } else if text::contains(user_agent, "Safari") {
        "Safari"
    } else {
        "Browser"
    };
    text::joined("Web · ", browser)
}

// ---- the connection ----

/// How long to wait before connecting again, in milliseconds.
pub const RETRY_MS: u32 = 5000;

/// The state of the connection.
#[derive(Clone, Copy, Debug, PartialEq, Eq, Structural)]
pub struct Link {
    /// Whether the connection is being looked after.
    pub running: bool,
    /// Whether messages can be sent.
    pub open: bool,
}

impl Link {
    /// No connection yet.
    pub fn new() -> (r: Self)
        ensures
            r == (Link { running: false, open: false }),
    {
        Link { running: false, open: false }
    }

    /// Whether messages can be sent.
    pub fn is_connected(&self) -> (r: bool)
        ensures
            r == self.open,
    {
        self.open
    }

    /// Sends a message if that is possible, and else drops it.
    pub fn send_raw(&self, message: String) -> (r: Option<String>)
        ensures
            r == if self.open {
                Some(message)
            } else {
                None
            },
    {
        if self.open {
            Some(message)
        } else {
            None
        }
    }
}

/// Whether what the client shows agrees with the connection: it says so when it is connected;
/// it shows devices only then, and never this one.
pub open spec fn consistent(link: Link, state: NowPlayingState) -> bool {
    &&& state.connected == link.open
    &&& link.open ==> link.running
    &&& !link.open ==> state.devices@.len() == 0
    &&& others_only(state)
}

/// Whether no device shown is this one.
pub open spec fn others_only(state: NowPlayingState) -> bool {
    forall|i: int|
        0 <= i < state.devices@.len() ==> (#[trigger] state.devices@[i]).device_id@
            != state.self_device_id@
}

/// Where a device connects to.
pub open spec fn connection_url(
    server_name: Seq<char>,
    user_id: i32,
    api_key: Seq<char>,
    device_id: Seq<char>,
    device_name: Seq<char>,
) -> Seq<char> {
    (if text::stands_at(server_name, "https://"@, 0) {
        "wss://"@
    } else {
        "ws://"@
    }) + text::without_leading(text::without_leading(server_name, "http://"@), "https://"@)
        + "/ws/api/nowplaying/"@ + text::decimal_text(user_id as int) + "?api_key="@
        + text::uri_component_text(api_key) + "&device_id="@ + text::uri_component_text(device_id)
        + "&device_name="@ + text::uri_component_text(device_name) + "&device_type="@
        + text::uri_component_text("Web"@)
}

fn url_for(
    server_name: &str,
    user_id: i32,
    api_key: &str,
    device_id: &str,
    device_name: &str,
) -> (r: String)
    ensures
        r@ == connection_url(server_name@, user_id, api_key@, device_id@, device_name@),
{
    let bare: String = text::cut_leading(server_name, "http://");
    let clean: String = text::cut_leading(bare.as_str(), "https://");
    let mut url: String = if text::starts_with(server_name, "https://") {
        "wss://".to_string()
    } else {
        "ws://".to_string()
    };
    url.append(clean.as_str());
    url.append("/ws/api/nowplaying/");
    url.append(text::decimal(user_id as i64).as_str());
    url.append("?api_key=");
    url.append(text::uri_component(api_key).as_str());
    url.append("&device_id=");
    url.append(text::uri_component(device_id).as_str());
    url.append("&device_name=");
    url.append(text::uri_component(device_name).as_str());
    url.append("&device_type=");
    url.append(text::uri_component("Web").as_str());
    url
}

/// What it takes to connect.
#[derive(Clone, Debug, PartialEq)]
pub struct Connection {
    pub url: String,
    /// Whether the device's id is to be stored.
    pub store_id: bool,
}

/// Begins to look after the connection, unless that is being done already. The numbers are
/// random.
pub fn connect_now_playing_ws(
    link: &mut Link,
    state: &mut NowPlayingState,
    server_name: &str,
    user_id: i32,
    api_key: &str,
    stored: &StoredId,
    random: (u32, u32, u32, u32),
    user_agent: &str,
) -> (r: Option<Connection>)
    ensures
        r is Some == !old(link).running,
        *final(link) == (Link { running: true, ..*old(link) }),
        final(state).devices == old(state).devices,
        final(state).connected == old(state).connected,
        final(state).pending_remote_play == old(state).pending_remote_play,
        r is None ==> *final(state) == *old(state),
        r is Some ==> {
            let id = final(state).self_device_id@;
            &&& id == device_id_of(*stored, random.0, random.1, random.2, random.3)
            &&& r->0.store_id == id_is_new(*stored)
            &&& r->0.url@ == connection_url(
                server_name@,
                user_id,
                api_key@,
                id,
                device_name_text(user_agent@),
            )
        },
        consistent(*old(link), *old(state)) ==> consistent(*final(link), *final(state)),
{
    if link.running {
        return None;
    }
    link.running = true;
    let (id, store_id): (String, bool) = get_or_create_device_id(
        stored,
        random.0,
        random.1,
        random.2,
        random.3,
    );
    let name: String = device_name(user_agent);
    let url: String = url_for(server_name, user_id, api_key, id.as_str(), name.as_str());
    state.self_device_id = id;
    Some(Connection { url, store_id })
}

/// What happens to the connection.
#[derive(Clone, Debug, PartialEq)]
pub enum LinkEvent {
    /// The socket has opened.
    Opened,
    /// The socket has closed.
    Closed,
    /// The socket could not be opened, for this reason.
    Failed(String),
    /// The time to wait is over.
    Waited,
}

/// What is to be done next about the connection.
#[derive(Clone, Debug, PartialEq)]
pub enum LinkStep {
    /// Open the socket.
    Open,
    /// Send what is queued and read what comes, until the socket closes.
    Exchange,
    /// Give this warning, if any, and wait so many milliseconds.
    Wait { warning: Option<String>, ms: u32 },
}

/// Looks after the connection: whatever ends it is followed by another try.
pub fn handle_link(link: &mut Link, state: &mut NowPlayingState, event: LinkEvent) -> (r: LinkStep)
    ensures
        match event {
            LinkEvent::Opened => {
                &&& r == LinkStep::Exchange
                &&& *final(link) == (Link { open: true, ..*old(link) })
                &&& *final(state) == (NowPlayingState { connected: true, ..*old(state) })
            },
            LinkEvent::Closed => {
                &&& r == (LinkStep::Wait { warning: None, ms: RETRY_MS })
                &&& *final(link) == (Link { open: false, ..*old(link) })
                &&& !final(state).connected
                &&& final(state).devices@.len() == 0
                &&& final(state).self_device_id == old(state).self_device_id
                &&& final(state).pending_remote_play == old(state).pending_remote_play
            },
            LinkEvent::Failed(reason) => {
                &&& r matches LinkStep::Wait { warning: Some(w), ms }
                &&& w@ == "now-playing WebSocket failed: "@ + reason@
                &&& ms == RETRY_MS
                &&& *final(link) == *old(link)
                &&& *final(state) == *old(state)
            },
            LinkEvent::Waited => {
                &&& r == LinkStep::Open
                &&& *final(link) == *old(link)
                &&& *final(state) == *old(state)
            },
        },
        consistent(*old(link), *old(state)) && old(link).running ==> consistent(
            *final(link),
            *final(state),
        ) && final(link).running,
{
    match event {
        LinkEvent::Opened => {
            link.open = true;
            state.connected = true;
            LinkStep::Exchange
        },
        LinkEvent::Closed => {
            link.open = false;
            state.connected = false;
            state.devices = Vec::new();
            LinkStep::Wait { warning: None, ms: RETRY_MS }
        },
        LinkEvent::Failed(reason) => LinkStep::Wait {
            warning: Some(text::joined("now-playing WebSocket failed: ", reason.as_str())),
            ms: RETRY_MS,
        },
        LinkEvent::Waited => LinkStep::Open,
    }
}

// ---- messages to the server ----

/// Whether a value is the report of what this device is playing.
pub open spec fn is_report(
    value: Value,
    episode_id: i32,
    is_youtube: bool,
    title: Seq<char>,
    artwork_url: Seq<char>,
    position_sec: Value,
    duration_sec: Value,
    playing: bool,
    speed: Value,
) -> bool {
    let m = json::members(value);
    &&& json::is_object(value)
    &&& m.dom() == set![
        "type"@,
        "episode_id"@,
        "is_youtube"@,
        "title"@,
        "artwork_url"@,
        "position_sec"@,
        "duration_sec"@,
        "playing"@,
        "speed"@,
    ]
    &&& json::as_text(m["type"@]) == Some("report"@)
    &&& json::as_integer(m["episode_id"@]) == Some(episode_id as i64)
    &&& json::as_flag(m["is_youtube"@]) == Some(is_youtube)
    &&& json::as_text(m["title"@]) == Some(title)
    &&& json::as_text(m["artwork_url"@]) == Some(artwork_url)
    &&& m["position_sec"@] == position_sec
    &&& m["duration_sec"@] == duration_sec
    &&& json::as_flag(m["playing"@]) == Some(playing)
    &&& m["speed"@] == speed
}

proof fn lemma_report_keys_differ()
    ensures
        "type"@.len() == 4,
        "episode_id"@.len() == 10 && "episode_id"@[0] == 'e',
        "is_youtube"@.len() == 10 && "is_youtube"@[0] == 'i',
        "title"@.len() == 5 && "title"@[0] == 't',
        "artwork_url"@.len() == 11,
        "position_sec"@.len() == 12 && "position_sec"@[0] == 'p',
        "duration_sec"@.len() == 12 && "duration_sec"@[0] == 'd',
        "playing"@.len() == 7,
        "speed"@.len() == 5 && "speed"@[0] == 's',
{
    reveal_strlit("type");
    reveal_strlit("episode_id");
    reveal_strlit("is_youtube");
    reveal_strlit("title");
    reveal_strlit("artwork_url");
    reveal_strlit("position_sec");
    reveal_strlit("duration_sec");
    reveal_strlit("playing");
    reveal_strlit("speed");
}

/// The report of what this device is playing. Position, length and speed are JSON numbers, or
/// null where there is no finite number to tell.
pub fn report(
    episode_id: i32,
    is_youtube: bool,
    title: &str,
    artwork_url: &str,
    position_sec: Value,
    duration_sec: Value,
    playing: bool,
    speed: Value,
) -> (r: Value)
    ensures
        is_report(
            r,
            episode_id,
            is_youtube,
            title@,
            artwork_url@,
            position_sec,
            duration_sec,
            playing,
            speed,
        ),
{
    let mut object: Value = json::empty_object();
    json::put(&mut object, "type", json::text("report"));
    json::put(&mut object, "episode_id", json::integer(episode_id));
    json::put(&mut object, "is_youtube", json::flag(is_youtube));
    json::put(&mut object, "title", json::text(title));
    json::put(&mut object, "artwork_url", json::text(artwork_url));
    json::put(&mut object, "position_sec", position_sec);
    json::put(&mut object, "duration_sec", duration_sec);
    json::put(&mut object, "playing", json::flag(playing));
    json::put(&mut object, "speed", speed);
    proof {
        lemma_report_keys_differ();
        assert(json::members(object).dom() =~= set![
            "type"@,
            "episode_id"@,
            "is_youtube"@,
            "title"@,
            "artwork_url"@,
            "position_sec"@,
            "duration_sec"@,
            "playing"@,
            "speed"@,
        ]);
    }
    object
}

/// Reports what this device is playing, if that is possible.
pub fn send_report(
    link: &Link,
    episode_id: i32,
    is_youtube: bool,
    title: &str,
    artwork_url: &str,
    position_sec: Value,
    duration_sec: Value,
    playing: bool,
    speed: Value,
) -> (r: Option<String>)
    ensures
        r is Some == link.open,
        r is Some ==> exists|v: Value|
            r->0@ == #[trigger] json::compact_text(v) && is_report(
                v,
                episode_id,
                is_youtube,
                title@,
                artwork_url@,
                position_sec,
                duration_sec,
                playing,
                speed,
            ),
{
    let value: Value = report(
        episode_id,
        is_youtube,
        title,
        artwork_url,
        position_sec,
        duration_sec,
        playing,
        speed,
    );
    link.send_raw(json::printed(&value))
}

/// Whether a value is a sign of life.
pub open spec fn is_heartbeat(value: Value) -> bool {
    &&& json::is_object(value)
    &&& json::members(value).dom() == set!["type"@]
    &&& json::as_text(json::members(value)["type"@]) == Some("heartbeat"@)
}

/// A sign of life.
pub fn heartbeat() -> (r: Value)
    ensures
        is_heartbeat(r),
{
    let mut object: Value = json::empty_object();
    json::put(&mut object, "type", json::text("heartbeat"));
    assert(json::members(object).dom() =~= set!["type"@]);
    object
}

/// Gives a sign of life, if that is possible.
pub fn send_heartbeat(link: &Link) -> (r: Option<String>)
    ensures
        r is Some == link.open,
        r is Some ==> exists|v: Value|
            r->0@ == #[trigger] json::compact_text(v) && is_heartbeat(v),
{
    let value: Value = heartbeat();
    link.send_raw(json::printed(&value))
}

/// Whether a value is a command to another device.
pub open spec fn is_command(
    value: Value,
    target_device_id: Seq<char>,
    action: Seq<char>,
    args: Value,
) -> bool {
    let m = json::members(value);
    &&& json::is_object(value)
    &&& m.dom() == set!["type"@, "target_device_id"@, "action"@, "args"@]
    &&& json::as_text(m["type"@]) == Some("command"@)
    &&& json::as_text(m["target_device_id"@]) == Some(target_device_id)
    &&& json::as_text(m["action"@]) == Some(action)
    &&& m["args"@] == args
}

/// A command to another device.
pub fn command(target_device_id: &str, action: &str, args: Value) -> (r: Value)
    ensures
        is_command(r, target_device_id@, action@, args),
{
    let mut object: Value = json::empty_object();
    json::put(&mut object, "type", json::text("command"));
    json::put(&mut object, "target_device_id", json::text(target_device_id));
    json::put(&mut object, "action", json::text(action));
    json::put(&mut object, "args", args);
    proof {
        reveal_strlit("type");
        reveal_strlit("target_device_id");
        reveal_strlit("action");
        reveal_strlit("args");
        assert("type"@.len() == 4 && "type"@[0] == 't');
        assert("target_device_id"@.len() == 16);
        assert("action"@.len() == 6);
        assert("args"@.len() == 4 && "args"@[0] == 'a');
        assert(json::members(object).dom() =~= set![
            "type"@,
            "target_device_id"@,
            "action"@,
            "args"@,
        ]);
    }
    object
}

/// Sends a command to another device, if that is possible.
pub fn send_command(link: &Link, target_device_id: &str, action: &str, args: Value) -> (r: Option<
    String,
>)
    ensures
        r is Some == link.open,
        r is Some ==> exists|v: Value|
            r->0@ == #[trigger] json::compact_text(v) && is_command(
                v,
                target_device_id@,
                action@,
                args,
            ),
{
    let value: Value = command(target_device_id, action, args);
    link.send_raw(json::printed(&value))
}

// ---- messages from the server ----

/// What the local player shows.
#[derive(Clone, Copy, Debug, PartialEq)]
pub struct LocalPlayer {
    pub audio_playing: Option<bool>,
    pub playback_speed: Double,
}

/// What is to be done to the medium, if one is loaded.
#[derive(Clone, Copy, Debug, PartialEq)]
pub enum MediaCall {
    Play,
    Pause,
    /// Go to this second.
    SetTime(Double),
    /// Go so many seconds on from where it is, but not before the beginning.
    Skip(Double),
    /// Play at this speed.
    SetRate(Double),
}

/// The number under a key of the arguments.
pub open spec fn number_at(args: Value, key: Seq<char>) -> Option<Double> {
    if json::members(args).contains_key(key) {
        match json::as_double_bits(json::members(args)[key]) {
            Some(bits) => Some(Double { bits }),
            None => None,
        }
    } else {
        None
    }
}

/// The integer under a key of the arguments.
pub open spec fn integer_at(args: Value, key: Seq<char>) -> Option<i64> {
    if json::members(args).contains_key(key) {
        json::as_integer(json::members(args)[key])
    } else {
        None
    }
}

/// Whether the flag under a key of the arguments is there and set.
pub open spec fn flag_at(args: Value, key: Seq<char>) -> bool {
    json::members(args).contains_key(key) && json::as_flag(json::members(args)[key]) == Some(true)
}

fn number_under(args: &Value, key: &str) -> (r: Option<Double>)
    ensures
        r == number_at(*args, key@),
{
    match json::member(args, key) {
        Some(v) => match json::double_bits_in(v) {
            Some(bits) => Some(Double { bits }),
            None => None,
        },
        None => None,
    }
}

fn integer_under(args: &Value, key: &str) -> (r: Option<i64>)
    ensures
        r == integer_at(*args, key@),
{
    match json::member(args, key) {
        Some(v) => json::integer_in(v),
        None => None,
    }
}

fn flag_under(args: &Value, key: &str) -> (r: bool)
    ensures
        r == flag_at(*args, key@),
{
    match json::member(args, key) {
        Some(v) => match json::flag_in(v) {
            Some(b) => b,
            None => false,
        },
        None => false,
    }
}

/// How far a command skips: as far as its arguments say, or else by so many seconds.
pub open spec fn skip_length(args: Value, otherwise: u64) -> Double {
    match number_at(args, "seconds"@) {
        Some(by) => by,
        None => Double { bits: otherwise },
    }
}

/// What a command does to the medium.
pub open spec fn media_call(action: Seq<char>, args: Value) -> Option<MediaCall> {
    if action == "play"@ {
        Some(MediaCall::Play)
    } else if action == "pause"@ {
        Some(MediaCall::Pause)
    } else if action == "seek"@ {
        match number_at(args, "position_sec"@) {
            Some(sec) => Some(MediaCall::SetTime(sec.from_zero())),
            None => None,
        }
    } else if action == "skip_forward"@ {
        Some(MediaCall::Skip(skip_length(args, THIRTY)))
    } else if action == "skip_back"@ {
        Some(MediaCall::Skip(skip_length(args, FIFTEEN).opposite()))
    } else if action == "set_speed"@ {
        match number_at(args, "speed"@) {
            Some(rate) => Some(MediaCall::SetRate(rate)),
            None => None,
        }
    } else {
        None
    }
}

/// What the local player shows after something was done to the medium.
pub open spec fn player_after(player: LocalPlayer, call: Option<MediaCall>) -> LocalPlayer {
    match call {
        Some(MediaCall::Play) => LocalPlayer { audio_playing: Some(true), ..player },
        Some(MediaCall::Pause) => LocalPlayer { audio_playing: Some(false), ..player },
        Some(MediaCall::SetRate(rate)) => LocalPlayer { playback_speed: rate, ..player },
        _ => player,
    }
}

/// The episode that a command starts on this device, resumed where the server says.
pub open spec fn episode_to_start(action: Seq<char>, args: Value) -> Option<PendingRemotePlay> {
    match integer_at(args, "episode_id"@) {
        Some(id) => if action == "play_episode"@ {
            Some(
                PendingRemotePlay {
                    episode_id: id as i32,
                    is_youtube: flag_at(args, "is_youtube"@),
                    resume_pos_sec: None,
                },
            )
        } else {
            None
        },
        None => None,
    }
}

/// Applies a command to the local player. A command that is not known does nothing.
pub fn apply_command(
    state: &mut NowPlayingState,
    player: &mut LocalPlayer,
    action: &str,
    args: &Value,
) -> (r: Option<MediaCall>)
    ensures
        r == media_call(action@, *args),
        *final(player) == player_after(*old(player), r),
        *final(state) == match episode_to_start(action@, *args) {
            Some(episode) => NowPlayingState {
                pending_remote_play: Some(episode),
                ..*old(state)
            },
            None => *old(state),
        },
{
    proof {
        lemma_actions_differ();
    }
    if text::same(action, "play") {
        player.audio_playing = Some(true);
        Some(MediaCall::Play)
    } else if text::same(action, "pause") {
        player.audio_playing = Some(false);
        Some(MediaCall::Pause)
    } else if text::same(action, "seek") {
        match number_under(args, "position_sec") {
            Some(sec) => Some(MediaCall::SetTime(sec.not_negative())),
            None => None,
        }
    } else if text::same(action, "skip_forward") {
        let by: Double = match number_under(args, "seconds") {
            Some(by) => by,
            None => Double { bits: THIRTY },
        };
        Some(MediaCall::Skip(by))
    } else if text::same(action, "skip_back") {
        let by: Double = match number_under(args, "seconds") {
            Some(by) => by,
            None => Double { bits: FIFTEEN },
        };
        Some(MediaCall::Skip(by.negated()))
    } else if text::same(action, "set_speed") {
        match number_under(args, "speed") {
            Some(rate) => {
                player.playback_speed = rate;
                Some(MediaCall::SetRate(rate))
            },
            None => None,
        }
    } else if text::same(action, "play_episode") {
        if let Some(id) = integer_under(args, "episode_id") {
            state.pending_remote_play = Some(
                PendingRemotePlay {
                    episode_id: #[verifier::truncate] (id as i32),
                    is_youtube: flag_under(args, "is_youtube"),
                    resume_pos_sec: None,
                },
            );
        }
        None
    } else {
        None
    }
}

/// The word for starting an episode differs from those for other actions.
proof fn lemma_actions_differ()
    ensures
        "play_episode"@ != "play"@,
        "play_episode"@ != "pause"@,
        "play_episode"@ != "seek"@,
        "play_episode"@ != "skip_forward"@,
        "play_episode"@ != "skip_back"@,
        "play_episode"@ != "set_speed"@,
{
    reveal_strlit("play_episode");
    reveal_strlit("play");
    reveal_strlit("pause");
    reveal_strlit("seek");
    reveal_strlit("skip_forward");
    reveal_strlit("skip_back");
    reveal_strlit("set_speed");
    assert("play_episode"@[0] == 'p' && "play_episode"@.len() == 12);
    assert("skip_forward"@[0] == 's' && "skip_forward"@.len() == 12);
}

/// The devices but for one.
pub open spec fn other_devices(
    devices: Seq<NowPlayingDevice>,
    id: Seq<char>,
) -> Seq<NowPlayingDevice> {
    devices.filter(|d: NowPlayingDevice| is_other(d, id))
}

/// Whether a device is another than this.
pub open spec fn is_other(device: NowPlayingDevice, id: Seq<char>) -> bool {
    device.device_id@ != id
}

fn without_device(devices: Vec<NowPlayingDevice>, id: &str) -> (r: Vec<NowPlayingDevice>)
    ensures
        r@ == other_devices(devices@, id@),
        forall|i: int| 0 <= i < r@.len() ==> (#[trigger] r@[i]).device_id@ != id@,
{
    let ghost keep = |d: NowPlayingDevice| is_other(d, id@);
    let ghost all = devices@;
    let test = |d: &NowPlayingDevice| -> (b: bool)
        ensures
            b == is_other(*d, id@),
    { !text::same(d.device_id.as_str(), id) };
    let r: Vec<NowPlayingDevice> = lists::kept(devices, test, Ghost(keep));
    assert forall|i: int| 0 <= i < r@.len() implies (#[trigger] r@[i]).device_id@ != id@ by {
        lists::lemma_filtered(all, keep, r@[i]);
        assert(r@.contains(r@[i]));
    }
    r
}

/// Takes a message of the server, if it could be read.
pub fn handle_inbound(
    state: &mut NowPlayingState,
    player: &mut LocalPlayer,
    message: Option<ServerMsg>,
) -> (r: Option<MediaCall>)
    ensures
        match message {
            Some(ServerMsg::Devices { devices }) => {
                &&& r is None
                &&& final(state).devices@ == other_devices(devices@, old(state).self_device_id@)
                &&& final(state).self_device_id == old(state).self_device_id
                &&& final(state).connected == old(state).connected
                &&& final(state).pending_remote_play == old(state).pending_remote_play
            },
            Some(ServerMsg::Command { from_device_id, action, args }) => {
                &&& r == media_call(action@, args)
                &&& *final(state) == match episode_to_start(action@, args) {
                    Some(episode) => NowPlayingState {
                        pending_remote_play: Some(episode),
                        ..*old(state)
                    },
                    None => *old(state),
                }
            },
            Some(ServerMsg::Ack { .. }) | None => r is None && *final(state) == *old(state),
        },
        *final(player) == player_after(*old(player), r),
        forall|link: Link|
            link.open && consistent(link, *old(state)) ==> #[trigger] consistent(
                link,
                *final(state),
            ),
{
    match message {
        Some(ServerMsg::Devices { devices }) => {
            state.devices = without_device(devices, state.self_device_id.as_str());
            None
        },
        Some(ServerMsg::Command { action, args, .. }) => apply_command(
            state,
            player,
            action.as_str(),
            &args,
        ),
        Some(ServerMsg::Ack { .. }) => None,
        None => None,
    }
}

// ---- laws ----

proof fn lemma_hex_text(n: nat, width: nat)
    ensures
        text::hex_text(n, width).len() == width,
        forall|i: int| 0 <= i < width ==> ident::is_hex(#[trigger] text::hex_text(n, width)[i]),
    decreases width,
{
    if width > 0 {
        lemma_hex_text(n / 16, (width - 1) as nat);
    }
}

proof fn lemma_hex_text_distinct(m: nat, n: nat, width: nat)
    requires
        text::hex_text(m, width) == text::hex_text(n, width),
        width <= 8,
        m < vstd::arithmetic::power::pow(16, width),
        n < vstd::arithmetic::power::pow(16, width),
    ensures
        m == n,
    decreases width,
{
    if width > 0 {
        let a = text::hex_text(m / 16, (width - 1) as nat);
        let b = text::hex_text(n / 16, (width - 1) as nat);
        let x = text::hex_char((m % 16) as int);
        let y = text::hex_char((n % 16) as int);
        assert(a.push(x).drop_last() =~= a);
        assert(b.push(y).drop_last() =~= b);
        assert(a.push(x).last() == x);
        assert(b.push(y).last() == y);
        vstd::arithmetic::power::lemma_pow_positive(16, (width - 1) as nat);
        assert(vstd::arithmetic::power::pow(16, width) == 16 * vstd::arithmetic::power::pow(
            16,
            (width - 1) as nat,
        )) by {
            vstd::arithmetic::power::lemma_pow1(16);
            vstd::arithmetic::power::lemma_pow_adds(16, 1, (width - 1) as nat);
        }
        lemma_hex_text_distinct(m / 16, n / 16, (width - 1) as nat);
    } else {
        vstd::arithmetic::power::lemma_pow0(16);
    }
}

/// A generated id is made of thirty-two hexadecimal digits, and other numbers give another id.
pub proof fn law_generated_ids_differ(
    a: u32,
    b: u32,
    c: u32,
    d: u32,
    e: u32,
    f: u32,
    g: u32,
    h: u32,
)
    ensures
        generated_id(a, b, c, d).len() == 32,
        forall|i: int| 0 <= i < 32 ==> ident::is_hex(#[trigger] generated_id(a, b, c, d)[i]),
        generated_id(a, b, c, d) == generated_id(e, f, g, h) ==> a == e && b == f && c == g && d
            == h,
{
    let left = generated_id(a, b, c, d);
    let right = generated_id(e, f, g, h);
    lemma_hex_text(a as nat, 8);
    lemma_hex_text(b as nat, 8);
    lemma_hex_text(c as nat, 8);
    lemma_hex_text(d as nat, 8);
    lemma_hex_text(e as nat, 8);
    lemma_hex_text(f as nat, 8);
    lemma_hex_text(g as nat, 8);
    lemma_hex_text(h as nat, 8);
    if left == right {
        assert(left.subrange(0, 8) =~= text::hex_text(a as nat, 8));
        assert(left.subrange(8, 16) =~= text::hex_text(b as nat, 8));
        assert(left.subrange(16, 24) =~= text::hex_text(c as nat, 8));
        assert(left.subrange(24, 32) =~= text::hex_text(d as nat, 8));
        assert(right.subrange(0, 8) =~= text::hex_text(e as nat, 8));
        assert(right.subrange(8, 16) =~= text::hex_text(f as nat, 8));
        assert(right.subrange(16, 24) =~= text::hex_text(g as nat, 8));
        assert(right.subrange(24, 32) =~= text::hex_text(h as nat, 8));
        assert(vstd::arithmetic::power::pow(16, 8) == 0x1_0000_0000) by {
            reveal(vstd::arithmetic::power::pow);
            reveal_with_fuel(vstd::arithmetic::power::pow, 9);
        }
        lemma_hex_text_distinct(a as nat, e as nat, 8);
        lemma_hex_text_distinct(b as nat, f as nat, 8);
        lemma_hex_text_distinct(c as nat, g as nat, 8);
        lemma_hex_text_distinct(d as nat, h as nat, 8);
    }
}

/// A device keeps its id: once a new id has been stored, the next time gives it back, whatever
/// the numbers then are, and stores nothing.
pub proof fn law_device_id_is_stable(
    stored: StoredId,
    id: String,
    a: u32,
    b: u32,
    c: u32,
    d: u32,
    e: u32,
    f: u32,
    g: u32,
    h: u32,
)
    requires
        id@ == device_id_of(stored, a, b, c, d),
    ensures
        device_id_of(StoredId::Available(Some(id)), e, f, g, h) == id@,
        !id_is_new(StoredId::Available(Some(id))),
{
    law_generated_ids_differ(a, b, c, d, a, b, c, d);
}

/// A seek never goes before the beginning.
pub proof fn law_seeks_stay_in_the_medium(args: Value)
    ensures
        media_call("seek"@, args) matches Some(MediaCall::SetTime(sec)) ==> !sec.nan()
            && !sec.below(Double { bits: ZERO }),
{
}

} // verus!
