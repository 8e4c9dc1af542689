//! Sockets that follow the tasks of a user, and the bridge between replicas.

use crate::access;
use crate::access::{Authorization, Checked};
use crate::lists;
use crate::task_manager;
use crate::task_manager::{
    BridgeEvent, BridgePacket, InAppNotification, Signal, TaskInfo, TaskManager, TaskStatus,
    TaskUpdate, WebSocketMessage,
};
use crate::text;
use std::collections::HashMap;
use vstd::prelude::*;

verus! {

broadcast use vstd::std_specs::hash::group_hash_axioms;

// ---- connections ----

/// The open sockets of each user, by the numbers of their channels.
#[derive(Debug)]
pub struct WebSocketManager {
    connections: HashMap<i32, Vec<u64>>,
}

impl WebSocketManager {
    /// The channels of each user who has any.
    pub closed spec fn channels(self) -> Map<i32, Seq<u64>> {
        Map::new(
            |user_id: i32| self.connections@.contains_key(user_id),
            |user_id: i32| self.connections@[user_id]@,
        )
    }

    /// The channels of a user, in the order in which they were opened.
    pub open spec fn of_user(self, user_id: i32) -> Seq<u64> {
        if self.channels().contains_key(user_id) {
            self.channels()[user_id]
        } else {
            Seq::empty()
        }
    }

    /// No user is kept without a channel.
    pub open spec fn well_formed(self) -> bool {
        forall|user_id: i32| #[trigger]
            self.channels().contains_key(user_id) ==> self.channels()[user_id].len() > 0
    }

    /// A manager without connections.
    pub fn new() -> (r: Self)
        ensures
            r.well_formed(),
            r.channels() == Map::<i32, Seq<u64>>::empty(),
    {
        let r = WebSocketManager { connections: HashMap::new() };
        assert(r.channels() =~= Map::<i32, Seq<u64>>::empty());
        r
    }

    /// Adds a channel of a user.
    pub fn add_connection(&mut self, user_id: i32, channel: u64)
        requires
            old(self).well_formed(),
        ensures
            final(self).well_formed(),
            final(self).channels() == old(self).channels().insert(
                user_id,
                old(self).of_user(user_id).push(channel),
            ),
    {
        let mut list: Vec<u64> = match self.connections.remove(&user_id) {
            Some(list) => list,
            None => Vec::new(),
        };
        list.push(channel);
        self.connections.insert(user_id, list);
        assert(self.channels() =~= old(self).channels().insert(
            user_id,
            old(self).of_user(user_id).push(channel),
        ));
    }

    /// Removes a channel of a user; a user without channels is forgotten.
    pub fn remove_connection(&mut self, user_id: i32, channel: u64)
        requires
            old(self).well_formed(),
        ensures
            final(self).well_formed(),
            final(self).of_user(user_id) == old(self).of_user(user_id).filter(
                |c: u64| c != channel,
            ),
            final(self).channels().remove(user_id) == old(self).channels().remove(user_id),
    {
        let ghost keep = |c: u64| c != channel;
        let ghost before = self.of_user(user_id);
        match self.connections.remove(&user_id) {
            Some(list) => {
                let ghost channels = list@;
                let test = |c: &u64| -> (b: bool)
                    ensures
                        b == (*c != channel),
                { *c != channel };
                let kept: Vec<u64> = lists::kept(list, test, Ghost(keep));
                assert(before == channels);
                if kept.len() > 0 {
                    self.connections.insert(user_id, kept);
                }
            },
            None => {
                assert(before =~= Seq::empty());
                assert(before.filter(keep) =~= Seq::empty());
            },
        }
        assert(self.of_user(user_id) =~= before.filter(keep));
        assert(self.channels().remove(user_id) =~= old(self).channels().remove(user_id));
        assert forall|u: i32| #[trigger] self.channels().contains_key(u) implies self.channels()[u]
            .len() > 0 by {
            if u != user_id {
                assert(old(self).channels().remove(user_id).contains_key(u));
                assert(self.channels().remove(user_id)[u] == old(self).channels().remove(
                    user_id,
                )[u]);
            }
        }
    }

    /// The channels that an update for a user goes to.
    pub fn broadcast_to_user(&self, user_id: i32) -> (r: Vec<u64>)
        ensures
            r@ == self.of_user(user_id),
    {
        match self.connections.get(&user_id) {
            Some(list) => {
                let r: Vec<u64> = list.clone();
                assert(r@ =~= list@);
                r
            },
            None => Vec::new(),
        }
    }
}

/// Opening a channel and closing it again leaves a user's channels as they were.
pub proof fn law_closed_connection_leaves_no_trace(before: Seq<u64>, channel: u64)
    requires
        !before.contains(channel),
    ensures
        before.push(channel).filter(|c: u64| c != channel) == before,
    decreases before.len(),
{
    let keep = |c: u64| c != channel;
    before.lemma_filter_push(channel, keep);
    lists::lemma_filter_all(before, keep);
}

// ---- opening a socket ----

/// The key that a socket is opened with.
#[derive(Clone, Debug, PartialEq)]
pub struct WebSocketQuery {
    pub api_key: String,
}

/// How far the opening of a socket has come.
#[derive(Clone, Copy, Debug, PartialEq, Eq, Structural)]
pub enum SocketGate {
    /// It has to be asked whose key it is.
    Identify,
    /// The socket opens.
    Upgrade,
    /// The key is not valid, or belongs to nobody.
    InvalidKey,
    /// The key belongs to another user.
    OtherUser,
}

/// The user whose key opens every socket: background work runs under it.
pub const SYSTEM_USER: i32 = 1;

impl SocketGate {
    /// The status and the text that a refused socket is answered with.
    pub fn refusal(&self) -> (r: Option<(u16, &'static str)>)
        ensures
            match *self {
                SocketGate::InvalidKey => r matches Some((status, body)) && status == 403 && body@
                    == "Invalid API key"@,
                SocketGate::OtherUser => r matches Some((status, body)) && status == 403 && body@
                    == "Unauthorized - API key does not belong to requested user"@,
                _ => r is None,
            },
    {
        match self {
            SocketGate::InvalidKey => Some((403, "Invalid API key")),
            SocketGate::OtherUser => Some(
                (403, "Unauthorized - API key does not belong to requested user"),
            ),
            _ => None,
        }
    }
}

/// Takes the answer whether the key of a socket is valid; a check that failed counts as no.
pub fn socket_verified(valid: Option<bool>) -> (r: SocketGate)
    ensures
        r == if valid == Some(true) {
            SocketGate::Identify
        } else {
            SocketGate::InvalidKey
        },
{
    match valid {
        Some(true) => SocketGate::Identify,
        _ => SocketGate::InvalidKey,
    }
}

/// Takes the answer whose key it is; it opens the sockets of its user, and that of the
/// system user opens all.
pub fn socket_identified(user_id: i32, key_user_id: Option<i32>) -> (r: SocketGate)
    ensures
        r == match key_user_id {
            Some(owner) => if owner == user_id || owner == SYSTEM_USER {
                SocketGate::Upgrade
            } else {
                SocketGate::OtherUser
            },
            None => SocketGate::InvalidKey,
        },
{
    match key_user_id {
        Some(owner) => if owner == user_id || owner == SYSTEM_USER {
            SocketGate::Upgrade
        } else {
            SocketGate::OtherUser
        },
        None => SocketGate::InvalidKey,
    }
}

/// What becomes of a request for a socket, given all answers.
pub fn task_progress_websocket(
    user_id: i32,
    valid: Option<bool>,
    key_user_id: Option<i32>,
) -> (r: SocketGate)
    ensures
        r == if valid != Some(true) || key_user_id is None {
            SocketGate::InvalidKey
        } else if key_user_id == Some(user_id) || key_user_id == Some(SYSTEM_USER) {
            SocketGate::Upgrade
        } else {
            SocketGate::OtherUser
        },
{
    match socket_verified(valid) {
        SocketGate::Identify => socket_identified(user_id, key_user_id),
        gate => gate,
    }
}

// ---- a socket at work ----

/// Something that a socket learns.
#[derive(Debug, PartialEq)]
pub enum SocketEvent {
    /// An update on the socket's own channel.
    Update(TaskUpdate),
    /// The socket's own channel is closed.
    UpdatesClosed,
    /// The socket's own channel has dropped updates.
    UpdatesLagged,
    /// A notification for any user.
    Notification(InAppNotification),
    /// The stream of notifications is closed.
    NotificationsClosed,
    /// The stream of notifications has dropped some.
    NotificationsLagged,
}

/// What a socket does about it.
#[derive(Debug, PartialEq)]
pub enum SocketAction {
    Send(WebSocketMessage),
    Continue,
    Stop,
}

/// Something that came in from the other end of a socket.
#[derive(Debug, PartialEq)]
pub enum Incoming {
    Text(String),
    Close,
    Error,
    Other,
}

/// Something that came over the common stream of updates.
#[derive(Debug, PartialEq)]
pub enum Received {
    Update(TaskUpdate),
    /// The stream has dropped updates.
    Lagged,
    /// The stream is closed.
    Closed,
}

/// What becomes of it.
#[derive(Debug, PartialEq)]
pub enum Forwarding {
    /// It goes to the socket's own channel.
    Pass(TaskUpdate),
    Skip,
    /// Nothing is forwarded any more, and the socket closes.
    Stop,
}

/// What becomes of something on the common stream for a user's socket: updates for the user
/// pass, and a stream that has lost anything is followed no further.
pub fn forward(user_id: i32, received: Received) -> (r: Forwarding)
    ensures
        r == match received {
            Received::Update(update) => if update.user_id == user_id {
                Forwarding::Pass(update)
            } else {
                Forwarding::Skip
            },
            Received::Lagged | Received::Closed => Forwarding::Stop,
        },
{
    match received {
        Received::Update(update) => if update.user_id == user_id {
            Forwarding::Pass(update)
        } else {
            Forwarding::Skip
        },
        Received::Lagged => Forwarding::Stop,
        Received::Closed => Forwarding::Stop,
    }
}

/// Whether a message carries one update and nothing else.
pub open spec fn carries_update(message: WebSocketMessage, update: TaskUpdate) -> bool {
    &&& message.event@ == "update"@
    &&& message.task == Some(update)
    &&& message.tasks is None
    &&& message.notification is None
    &&& message.notifications is None
}

/// Whether a message carries one notification and nothing else.
pub open spec fn carries_notification(
    message: WebSocketMessage,
    notif: InAppNotification,
) -> bool {
    &&& message.event@ == "notification"@
    &&& message.task is None
    &&& message.tasks is None
    &&& message.notification == Some(notif)
    &&& message.notifications is None
}

/// What a user's socket does about an event: updates on its channel go out, notifications
/// only if they are for the user. It stops when its channel is closed.
pub fn handle_socket_event(user_id: i32, event: SocketEvent) -> (r: SocketAction)
    ensures
        match event {
            SocketEvent::Update(update) => r matches SocketAction::Send(m) && carries_update(
                m,
                update,
            ),
            SocketEvent::UpdatesClosed => r is Stop,
            SocketEvent::Notification(notif) => if notif.user_id == user_id {
                r matches SocketAction::Send(m) && carries_notification(m, notif)
            } else {
                r is Continue
            },
            _ => r is Continue,
        },
{
    match event {
        SocketEvent::Update(update) => SocketAction::Send(WebSocketMessage::update(update)),
        SocketEvent::UpdatesClosed => SocketAction::Stop,
        SocketEvent::UpdatesLagged => SocketAction::Continue,
        SocketEvent::Notification(notif) => if notif.user_id == user_id {
            SocketAction::Send(WebSocketMessage::notification(notif))
        } else {
            SocketAction::Continue
        },
        SocketEvent::NotificationsClosed => SocketAction::Continue,
        SocketEvent::NotificationsLagged => SocketAction::Continue,
    }
}

/// Whether a socket goes on listening after something came in.
pub fn keeps_listening(incoming: &Incoming) -> (r: bool)
    ensures
        r == !(incoming is Close || incoming is Error),
{
    match incoming {
        Incoming::Close => false,
        Incoming::Error => false,
        Incoming::Text(_) => true,
        Incoming::Other => true,
    }
}

/// The first message of a socket: what the user's lists hold; a list that could not be
/// read counts as empty.
pub fn initial_message(
    tasks: Option<Vec<TaskInfo>>,
    notifications: Option<Vec<InAppNotification>>,
) -> (r: WebSocketMessage)
    ensures
        r.event@ == "initial"@,
        r.task is None,
        r.notification is None,
        r.tasks is Some,
        r.tasks->0@ == match tasks {
            Some(list) => list@,
            None => Seq::empty(),
        },
        r.notifications is Some,
        r.notifications->0@ == match notifications {
            Some(list) => list@,
            None => Seq::empty(),
        },
{
    let tasks: Vec<TaskInfo> = match tasks {
        Some(list) => list,
        None => Vec::new(),
    };
    let notifications: Vec<InAppNotification> = match notifications {
        Some(list) => list,
        None => Vec::new(),
    };
    WebSocketMessage::tasks("initial", tasks, notifications)
}

/// The text of the first message, or an empty object where it could not be written.
pub fn initial_text(json: Option<String>) -> (r: String)
    ensures
        r@ == match json {
            Some(t) => t@,
            None => "{}"@,
        },
{
    match json {
        Some(t) => t,
        None => "{}".to_string(),
    }
}

// ---- the bridge between replicas ----

/// How long a replica waits before it subscribes again, in seconds.
pub const BRIDGE_RETRY_SECS: u64 = 5;

/// What a packet makes a replica raise: nothing if it comes from the replica itself, else
/// its event, here only.
pub open spec fn relayed(instance_id: Seq<char>, packet: BridgePacket) -> Seq<Signal> {
    if packet.instance_id@ == instance_id {
        Seq::empty()
    } else {
        match packet.event {
            BridgeEvent::Task(update) => seq![Signal::LocalUpdate(update)],
            BridgeEvent::Notification(notif) => seq![Signal::LocalNotification(notif)],
        }
    }
}

/// Takes a packet off the bridge; one that could not be read is passed over.
pub fn handle_bridge_packet(manager: &TaskManager, packet: Option<BridgePacket>) -> (r: Vec<Signal>)
    ensures
        r@ == match packet {
            Some(p) => relayed(manager.instance_id@, p),
            None => Seq::empty(),
        },
{
    match packet {
        Some(packet) => {
            if text::same(packet.instance_id.as_str(), manager.instance_id.as_str()) {
                return Vec::new();
            }
            match packet.event {
                BridgeEvent::Task(update) => manager.reinject_update(update),
                BridgeEvent::Notification(notif) => manager.reinject_notification(notif),
            }
        },
        None => Vec::new(),
    }
}

/// What some signals send to the sockets of a replica, without what they publish.
pub open spec fn local_part(signals: Seq<Signal>) -> Seq<Signal> {
    signals.filter(|s: Signal| !(s is Publish))
}

/// An update that one replica raises reaches the sockets of every replica exactly once: its
/// own when it is raised, those of the others over the bridge, and no replica passes it on
/// again.
pub proof fn law_updates_reach_each_replica_once(
    origin: String,
    other: Seq<char>,
    update: TaskUpdate,
)
    ensures
        ({
            let raised = task_manager::update_signals(origin, update);
            let packet = raised[1]->Publish_0;
            &&& raised[1] is Publish
            &&& local_part(raised) == seq![Signal::LocalUpdate(update)]
            &&& relayed(origin@, packet) == Seq::<Signal>::empty()
            &&& other != origin@ ==> relayed(other, packet) == seq![Signal::LocalUpdate(update)]
        }),
{
    let raised = task_manager::update_signals(origin, update);
    lemma_local_part(raised[0], raised[1]);
    assert(raised =~= seq![raised[0], raised[1]]);
}

/// A notification that one replica raises reaches the sockets of every replica exactly once.
pub proof fn law_notifications_reach_each_replica_once(
    origin: String,
    other: Seq<char>,
    notif: InAppNotification,
)
    ensures
        ({
            let raised = task_manager::notification_signals(origin, notif);
            let packet = raised[1]->Publish_0;
            &&& raised[1] is Publish
            &&& local_part(raised) == seq![Signal::LocalNotification(notif)]
            &&& relayed(origin@, packet) == Seq::<Signal>::empty()
            &&& other != origin@ ==> relayed(other, packet) == seq![
                Signal::LocalNotification(notif),
            ]
        }),
{
    let raised = task_manager::notification_signals(origin, notif);
    lemma_local_part(raised[0], raised[1]);
    assert(raised =~= seq![raised[0], raised[1]]);
}

proof fn lemma_local_part(a: Signal, b: Signal)
    requires
        !(a is Publish),
        b is Publish,
    ensures
        local_part(seq![a, b]) == seq![a],
{
    let keep = |s: Signal| !(s is Publish);
    let none = Seq::<Signal>::empty();
    none.lemma_filter_push(a, keep);
    none.push(a).lemma_filter_push(b, keep);
    assert(none.push(a).push(b) =~= seq![a, b]);
    assert(none.filter(keep) =~= none);
    assert(none.push(a) =~= seq![a]);
}

/// What comes off the bridge is never published again.
pub proof fn law_bridge_does_not_echo(instance_id: Seq<char>, packet: BridgePacket)
    ensures
        forall|i: int|
            0 <= i < relayed(instance_id, packet).len() ==> !(#[trigger] relayed(
                instance_id,
                packet,
            )[i] is Publish),
{
}

// ---- requests on tasks ----

/// Takes the outcome of one check of a request on tasks.
pub fn authorize(from: Authorization, checked: Checked) -> (r: Authorization)
    ensures
        access::moves(from, checked, "You can only view your own tasks!"@, r),
{
    access::proceed(from, checked, "You can only view your own tasks!")
}

/// What a request on tasks shows once it was granted.
#[derive(Debug, PartialEq)]
pub enum TaskCall {
    /// All tasks of a user.
    List { user_id: i32 },
    /// The tasks of a user that are still under way.
    Active { user_id: i32 },
    /// An empty list.
    Nothing,
    /// One task.
    Show { task: TaskInfo },
}

impl TaskCall {
    /// The user to whom access is needed before anything is shown.
    pub open spec fn subject(self) -> Option<i32> {
        match self {
            TaskCall::List { user_id } => Some(user_id),
            TaskCall::Active { user_id } => Some(user_id),
            TaskCall::Nothing => None,
            TaskCall::Show { task } => Some(task.user_id),
        }
    }

    /// The user to whom access is needed before anything is shown. An empty list shows
    /// nothing of anyone.
    pub fn access_needed(&self) -> (r: Option<i32>)
        ensures
            r == self.subject(),
    {
        match self {
            TaskCall::List { user_id } => Some(*user_id),
            TaskCall::Active { user_id } => Some(*user_id),
            TaskCall::Nothing => None,
            TaskCall::Show { task } => Some(task.user_id),
        }
    }
}

/// Asks for a user's tasks.
pub fn get_user_tasks(user_id: i32) -> (r: TaskCall)
    ensures
        r == (TaskCall::List { user_id }),
{
    TaskCall::List { user_id }
}

/// Asks for one task, which was loaded to see whose it is.
pub fn get_task_status(task: TaskInfo) -> (r: TaskCall)
    ensures
        r == (TaskCall::Show { task }),
{
    TaskCall::Show { task }
}

/// Asks for the active tasks of the user that the request names. Where it names none, or no
/// number, the answer is an empty list.
pub fn get_active_tasks(user_id: Option<&str>) -> (r: TaskCall)
    ensures
        r == match user_id {
            Some(t) => match text::parsed_i32(t@) {
                Some(user_id) => TaskCall::Active { user_id },
                None => TaskCall::Nothing,
            },
            None => TaskCall::Nothing,
        },
{
    match user_id {
        Some(t) => match text::parse_i32(t) {
            Some(user_id) => TaskCall::Active { user_id },
            None => TaskCall::Nothing,
        },
        None => TaskCall::Nothing,
    }
}

/// Whether a task is still under way.
pub open spec fn under_way(task: TaskInfo) -> bool {
    task.status == TaskStatus::Pending || task.status == TaskStatus::Running
}

/// The tasks that are still under way, in the order of the list.
pub fn only_active(tasks: Vec<TaskInfo>) -> (r: Vec<TaskInfo>)
    ensures
        r@ == tasks@.filter(|t: TaskInfo| under_way(t)),
{
    let test = |t: &TaskInfo| -> (b: bool)
        ensures
            b == under_way(*t),
    { matches!(t.status, TaskStatus::Pending | TaskStatus::Running) };
    lists::kept(tasks, test, Ghost(|t: TaskInfo| under_way(t)))
}

} // verus!
