//! Background tasks and durable notifications: what is stored, what is sent to
//! sockets, and what is passed on to the other replicas of the server.
//!
//! A manager decides. It answers each request with the commands that the store has
//! to run, in order, and the signals to raise once all of them have succeeded.

use crate::double::{Double, HUNDRED, ZERO};
use crate::json;
use crate::moment;
use crate::moment::Timestamp;
use crate::order::Ranked;
use crate::store;
use crate::store::{Fetched, StoreCommand, StoreOp};
use crate::text;
use vstd::prelude::*;

verus! {

/// How far a task has come.
#[derive(Clone, Copy, Debug, PartialEq, Eq, Structural)]
pub enum TaskStatus {
    Pending,
    Running,
    Completed,
    Failed,
}

impl TaskStatus {
    /// The name of a status in messages and in the store.
    pub open spec fn name_text(self) -> Seq<char> {
        match self {
            TaskStatus::Pending => "PENDING"@,
            TaskStatus::Running => "DOWNLOADING"@,
            TaskStatus::Completed => "SUCCESS"@,
            TaskStatus::Failed => "FAILED"@,
        }
    }

    /// The name of a status in messages and in the store.
    pub fn name(&self) -> (r: &'static str)
        ensures
            r@ == self.name_text(),
    {
        match self {
            TaskStatus::Pending => "PENDING",
            TaskStatus::Running => "DOWNLOADING",
            TaskStatus::Completed => "SUCCESS",
            TaskStatus::Failed => "FAILED",
        }
    }
}

/// How grave a durable notification is. `Warning` and `Error` count toward the bell
/// badge; `Info` and `Success` do not.
#[derive(Clone, Copy, Debug, PartialEq, Eq, Structural)]
pub enum MsgSeverity {
    Info,
    Success,
    Warning,
    Error,
}

impl Default for MsgSeverity {
    fn default() -> (r: Self)
        ensures
            r == MsgSeverity::Info,
    {
        MsgSeverity::Info
    }
}

impl MsgSeverity {
    /// The name of a severity in messages and in the store.
    pub open spec fn name_text(self) -> Seq<char> {
        match self {
            MsgSeverity::Info => "info"@,
            MsgSeverity::Success => "success"@,
            MsgSeverity::Warning => "warning"@,
            MsgSeverity::Error => "error"@,
        }
    }

    /// The name of a severity in messages and in the store.
    pub fn name(&self) -> (r: &'static str)
        ensures
            r@ == self.name_text(),
    {
        match self {
            MsgSeverity::Info => "info",
            MsgSeverity::Success => "success",
            MsgSeverity::Warning => "warning",
            MsgSeverity::Error => "error",
        }
    }
}

/// A durable message without progress, shown until it expires or is dismissed.
#[derive(Debug, PartialEq)]
pub struct InAppNotification {
    pub id: String,
    pub user_id: i32,
    /// Free-form category tag, such as "feed_refresh" or "new_episode".
    pub category: String,
    pub severity: MsgSeverity,
    pub title: String,
    pub body: Option<String>,
    pub episode_id: Option<i32>,
    pub podcast_id: Option<i32>,
    pub art_url: Option<String>,
    /// A link within the application that the message leads to.
    pub link: Option<String>,
    pub created_at: Timestamp,
    pub read: bool,
    /// Lists drop the message once this instant has come.
    pub expires_at: Timestamp,
}

impl Clone for InAppNotification {
    fn clone(&self) -> (r: Self)
        ensures
            r == *self,
    {
        InAppNotification {
            id: self.id.clone(),
            user_id: self.user_id,
            category: self.category.clone(),
            severity: self.severity,
            title: self.title.clone(),
            body: self.body.clone(),
            episode_id: self.episode_id,
            podcast_id: self.podcast_id,
            art_url: self.art_url.clone(),
            link: self.link.clone(),
            created_at: self.created_at,
            read: self.read,
            expires_at: self.expires_at,
        }
    }
}

/// A background task as it is stored.
#[derive(Debug, PartialEq)]
pub struct TaskInfo {
    pub id: String,
    pub task_type: String,
    pub user_id: i32,
    pub status: TaskStatus,
    /// Per cent.
    pub progress: Double,
    pub message: Option<String>,
    pub created_at: Timestamp,
    pub updated_at: Timestamp,
    pub result: Option<serde_json::Value>,
    pub episode_title: Option<String>,
    pub podcast_name: Option<String>,
    /// When the task succeeded or failed.
    pub completed_at: Option<Timestamp>,
    /// Cover art of the card.
    pub art_url: Option<String>,
    /// The line below the title; after a failure, its reason.
    pub detail: Option<String>,
    /// The key that folds sibling tasks into one group.
    pub group: Option<String>,
    pub group_label: Option<String>,
    /// How many items a grouped run works through.
    pub total: Option<i32>,
}

fn copy_value(value: &Option<serde_json::Value>) -> (r: Option<serde_json::Value>)
    ensures
        r == *value,
{
    match value {
        Some(v) => Some(json::copy(v)),
        None => None,
    }
}

impl Clone for TaskInfo {
    fn clone(&self) -> (r: Self)
        ensures
            r == *self,
    {
        TaskInfo {
            id: self.id.clone(),
            task_type: self.task_type.clone(),
            user_id: self.user_id,
            status: self.status,
            progress: self.progress,
            message: self.message.clone(),
            created_at: self.created_at,
            updated_at: self.updated_at,
            result: copy_value(&self.result),
            episode_title: self.episode_title.clone(),
            podcast_name: self.podcast_name.clone(),
            completed_at: self.completed_at,
            art_url: self.art_url.clone(),
            detail: self.detail.clone(),
            group: self.group.clone(),
            group_label: self.group_label.clone(),
            total: self.total,
        }
    }
}

/// A change of a task, as sockets and replicas receive it.
#[derive(Debug, PartialEq)]
pub struct TaskUpdate {
    pub task_id: String,
    pub user_id: i32,
    pub task_type: String,
    pub item_id: Option<i32>,
    /// Per cent.
    pub progress: Double,
    pub status: TaskStatus,
    pub details: serde_json::Value,
    pub started_at: String,
    pub completed_at: Option<String>,
    pub art_url: Option<String>,
    pub detail: Option<String>,
    pub group: Option<String>,
    pub group_label: Option<String>,
    pub total: Option<i32>,
}

impl Clone for TaskUpdate {
    fn clone(&self) -> (r: Self)
        ensures
            r == *self,
    {
        TaskUpdate {
            task_id: self.task_id.clone(),
            user_id: self.user_id,
            task_type: self.task_type.clone(),
            item_id: self.item_id,
            progress: self.progress,
            status: self.status,
            details: json::copy(&self.details),
            started_at: self.started_at.clone(),
            completed_at: self.completed_at.clone(),
            art_url: self.art_url.clone(),
            detail: self.detail.clone(),
            group: self.group.clone(),
            group_label: self.group_label.clone(),
            total: self.total,
        }
    }
}

/// A message to a socket. Lists come with the events `initial` and `refresh`, single
/// items with `update` and `notification`.
#[derive(Debug, PartialEq)]
pub struct WebSocketMessage {
    pub event: String,
    pub task: Option<TaskUpdate>,
    pub tasks: Option<Vec<TaskInfo>>,
    pub notification: Option<InAppNotification>,
    pub notifications: Option<Vec<InAppNotification>>,
}

impl WebSocketMessage {
    /// A message with both lists.
    pub fn tasks(event: &str, tasks: Vec<TaskInfo>, notifications: Vec<InAppNotification>) -> (r:
        Self)
        ensures
            r.event@ == event@,
            r.task is None,
            r.tasks == Some(tasks),
            r.notification is None,
            r.notifications == Some(notifications),
    {
        WebSocketMessage {
            event: event.to_string(),
            task: None,
            tasks: Some(tasks),
            notification: None,
            notifications: Some(notifications),
        }
    }

    /// A message with one task update.
    pub fn update(task: TaskUpdate) -> (r: Self)
        ensures
            r.event@ == "update"@,
            r.task == Some(task),
            r.tasks is None,
            r.notification is None,
            r.notifications is None,
    {
        WebSocketMessage {
            event: "update".to_string(),
            task: Some(task),
            tasks: None,
            notification: None,
            notifications: None,
        }
    }

    /// A message with one notification.
    pub fn notification(notification: InAppNotification) -> (r: Self)
        ensures
            r.event@ == "notification"@,
            r.task is None,
            r.tasks is None,
            r.notification == Some(notification),
            r.notifications is None,
    {
        WebSocketMessage {
            event: "notification".to_string(),
            task: None,
            tasks: None,
            notification: Some(notification),
            notifications: None,
        }
    }
}

/// What replicas tell one another, stamped with the replica that says it.
#[derive(Debug, PartialEq)]
pub struct BridgePacket {
    pub instance_id: String,
    pub event: BridgeEvent,
}

/// The event of a packet.
#[derive(Debug, PartialEq)]
pub enum BridgeEvent {
    Task(TaskUpdate),
    Notification(InAppNotification),
}

/// The channel on which replicas publish their packets.
pub const TASK_EVENTS_CHANNEL: &'static str = "pinepods:events";

/// How long an informational message lives, in seconds: a day.
pub const NOTIF_TTL_TRANSIENT_SECS: i64 = 86_400;

/// How long a warning or an error lives, in seconds: thirty days.
pub const NOTIF_TTL_STICKY_SECS: i64 = 2_592_000;

/// How long a task is stored after its last change, in seconds: seven days.
pub const TASK_TTL_SECS: u64 = 604_800;

/// How long the index of a user's tasks outlives its last change: eight days.
pub const TASK_INDEX_TTL_SECS: i64 = 691_200;

/// How long the index of a user's notifications outlives its last change: a day more
/// than the longest-lived notification.
pub const NOTIF_INDEX_TTL_SECS: i64 = 2_678_400;

// ---- keys ----

/// The key of a task.
pub open spec fn task_key_text(task_id: Seq<char>) -> Seq<char> {
    "task:"@ + task_id
}

/// The key of the set of a user's task ids.
pub open spec fn task_index_text(user_id: i32) -> Seq<char> {
    "task:index:"@ + text::decimal_text(user_id as int)
}

/// The key of a notification.
pub open spec fn notif_key_text(user_id: i32, id: Seq<char>) -> Seq<char> {
    "notif:"@ + text::decimal_text(user_id as int) + ":"@ + id
}

/// The key of the set of a user's notification ids.
pub open spec fn notif_index_text(user_id: i32) -> Seq<char> {
    "notif:index:"@ + text::decimal_text(user_id as int)
}

// ---- plans ----

/// Something to raise once the store has done its part.
#[derive(Debug, PartialEq)]
pub enum Signal {
    /// Send an update to the sockets of this replica.
    LocalUpdate(TaskUpdate),
    /// Send a notification to the sockets of this replica.
    LocalNotification(InAppNotification),
    /// Publish a packet on [`TASK_EVENTS_CHANNEL`].
    Publish(BridgePacket),
}

/// An answer of the manager: commands for the store, to be run in order until one
/// fails, and the signals to raise if none did (see [`Plan::signals_after`]).
#[derive(Debug, PartialEq)]
pub struct Plan {
    pub writes: Vec<StoreCommand>,
    pub signals: Vec<Signal>,
}

/// The commands that store a task and enter it in the index of its user.
pub open spec fn save_task_ops(task: TaskInfo) -> Seq<StoreOp> {
    seq![
        StoreOp::PutTask { key: task_key_text(task.id@), task, ttl_secs: TASK_TTL_SECS },
        StoreOp::AddMember { set: task_index_text(task.user_id), member: task.id@ },
        StoreOp::Expire { key: task_index_text(task.user_id), secs: TASK_INDEX_TTL_SECS },
    ]
}

/// The commands that store a notification and enter it in the index of its user.
pub open spec fn save_notification_ops(notif: InAppNotification, ttl_secs: u64) -> Seq<StoreOp> {
    seq![
        StoreOp::PutNotification {
            key: notif_key_text(notif.user_id, notif.id@),
            notification: notif,
            ttl_secs,
        },
        StoreOp::AddMember { set: notif_index_text(notif.user_id), member: notif.id@ },
        StoreOp::Expire { key: notif_index_text(notif.user_id), secs: NOTIF_INDEX_TTL_SECS },
    ]
}

/// The commands that remove a notification and its entry in the index.
pub open spec fn remove_notification_ops(user_id: i32, id: Seq<char>) -> Seq<StoreOp> {
    seq![
        StoreOp::Delete { key: notif_key_text(user_id, id) },
        StoreOp::RemoveMember { set: notif_index_text(user_id), member: id },
    ]
}

/// What an update raises: it goes to the sockets of this replica and, stamped with
/// this replica's id, to the others.
pub open spec fn update_signals(instance_id: String, update: TaskUpdate) -> Seq<Signal> {
    seq![
        Signal::LocalUpdate(update),
        Signal::Publish(BridgePacket { instance_id, event: BridgeEvent::Task(update) }),
    ]
}

/// What a notification raises.
pub open spec fn notification_signals(instance_id: String, notif: InAppNotification) -> Seq<
    Signal,
> {
    seq![
        Signal::LocalNotification(notif),
        Signal::Publish(BridgePacket { instance_id, event: BridgeEvent::Notification(notif) }),
    ]
}

impl Plan {
    /// Whether the plan stores a task and does nothing else to the store.
    pub open spec fn saves(self, task: TaskInfo) -> bool {
        store::ops(self.writes@) == save_task_ops(task)
    }

    /// The update that the plan sends to the sockets of this replica.
    pub open spec fn update(self) -> TaskUpdate {
        self.signals@[0]->LocalUpdate_0
    }

    /// Whether the plan raises one update, here and elsewhere, and nothing else.
    pub open spec fn announces(self, instance_id: String) -> bool {
        self.signals@ == update_signals(instance_id, self.update())
    }

    /// What is raised once the store has run the plan's commands: everything, or nothing where
    /// a command failed.
    pub open spec fn raised(self, stored: bool) -> Seq<Signal> {
        if stored {
            self.signals@
        } else {
            Seq::empty()
        }
    }

    /// The signals to raise once the store has run the plan's commands, given whether all of
    /// them succeeded.
    pub fn signals_after(self, stored: bool) -> (r: Vec<Signal>)
        ensures
            r@ == self.raised(stored),
    {
        if stored {
            self.signals
        } else {
            Vec::new()
        }
    }
}

/// What an update tells of a task: all but its details.
pub open spec fn tells(update: TaskUpdate, task: TaskInfo, item_id: Option<i32>) -> bool {
    &&& update.task_id == task.id
    &&& update.user_id == task.user_id
    &&& update.item_id == item_id
    &&& update.progress == task.progress
    &&& update.status == task.status
    &&& update.started_at@ == moment::rfc3339_text(
        task.created_at.second(),
        task.created_at.nano(),
    )
    &&& text::held(update.completed_at) == match task.completed_at {
        Some(t) => Some(moment::rfc3339_text(t.second(), t.nano())),
        None => None,
    }
    &&& update.art_url == task.art_url
    &&& update.detail == task.detail
    &&& update.group == task.group
    &&& update.group_label == task.group_label
    &&& update.total == task.total
}

/// Details that say nothing.
pub open spec fn no_details(details: serde_json::Value) -> bool {
    json::is_object(details) && json::members(details) == json::no_members()
}

/// The text of an optional message, or another in its place.
pub open spec fn text_or(message: Option<String>, other: Seq<char>) -> Seq<char> {
    match message {
        Some(m) => m@,
        None => other,
    }
}

/// The details of a task in progress: its message, and the episode where one is named.
pub open spec fn progress_details(
    details: serde_json::Value,
    message: Option<String>,
    item_id: Option<i32>,
    episode_title: Option<String>,
) -> bool {
    let m = json::members(details);
    &&& json::is_object(details)
    &&& forall|key: Seq<char>| #[trigger]
        m.contains_key(key) <==> (key == "status_text"@ || (key == "episode_id"@ && item_id is Some)
            || (key == "episode_title"@ && episode_title is Some))
    &&& json::as_text(m["status_text"@]) == Some(text_or(message, "Processing..."@))
    &&& item_id matches Some(id) ==> json::as_integer(m["episode_id"@]) == Some(id as i64)
    &&& episode_title matches Some(title) ==> json::as_text(m["episode_title"@]) == Some(title@)
}

/// The details of a completed task: its message and its result, null where it has none.
pub open spec fn completion_details(
    details: serde_json::Value,
    message: Option<String>,
    result: Option<serde_json::Value>,
) -> bool {
    let m = json::members(details);
    &&& json::is_object(details)
    &&& forall|key: Seq<char>| #[trigger]
        m.contains_key(key) <==> (key == "status_text"@ || key == "result"@)
    &&& json::as_text(m["status_text"@]) == Some(text_or(message, "Completed"@))
    &&& result matches Some(v) ==> m["result"@] == v
    &&& result is None ==> json::is_null(m["result"@])
}

/// The details of a failed task: its reason, as the message and as the error.
pub open spec fn failure_details(details: serde_json::Value, reason: Seq<char>) -> bool {
    let m = json::members(details);
    &&& json::is_object(details)
    &&& forall|key: Seq<char>| #[trigger]
        m.contains_key(key) <==> (key == "status_text"@ || key == "error"@)
    &&& json::as_text(m["status_text"@]) == Some(reason)
    &&& json::as_text(m["error"@]) == Some(reason)
}

// ---- the life of a task ----

/// A task that has just been created.
pub open spec fn new_task(
    id: String,
    task_type: String,
    user_id: i32,
    episode_title: Option<String>,
    podcast_name: Option<String>,
    created_at: Timestamp,
    updated_at: Timestamp,
) -> TaskInfo {
    TaskInfo {
        id,
        task_type,
        user_id,
        status: TaskStatus::Pending,
        progress: Double { bits: ZERO },
        message: None,
        created_at,
        updated_at,
        result: None,
        episode_title,
        podcast_name,
        completed_at: None,
        art_url: None,
        detail: None,
        group: None,
        group_label: None,
        total: None,
    }
}

/// The first of two optional things that is there.
pub open spec fn first_of<T>(a: Option<T>, b: Option<T>) -> Option<T> {
    if a is Some {
        a
    } else {
        b
    }
}

/// A task with a new display; what is not given stays as it was.
pub open spec fn displayed(
    task: TaskInfo,
    art_url: Option<String>,
    detail: Option<String>,
    group: Option<String>,
    group_label: Option<String>,
    total: Option<i32>,
    now: Timestamp,
) -> TaskInfo {
    TaskInfo {
        art_url: first_of(art_url, task.art_url),
        detail: first_of(detail, task.detail),
        group: first_of(group, task.group),
        group_label: first_of(group_label, task.group_label),
        total: first_of(total, task.total),
        updated_at: now,
        ..task
    }
}

/// A task that has come a bit further: progress between zero and a hundred, and
/// running once there is any.
pub open spec fn progressed(
    task: TaskInfo,
    progress: Double,
    message: Option<String>,
    now: Timestamp,
) -> TaskInfo {
    TaskInfo {
        progress: progress.held_between(Double { bits: ZERO }, Double { bits: HUNDRED }),
        message,
        updated_at: now,
        status: if (Double { bits: ZERO }).below(progress) && task.status == TaskStatus::Pending {
            TaskStatus::Running
        } else {
            task.status
        },
        ..task
    }
}

/// A task that has been completed.
pub open spec fn completed(
    task: TaskInfo,
    result: Option<serde_json::Value>,
    message: Option<String>,
    completed_at: Timestamp,
    updated_at: Timestamp,
) -> TaskInfo {
    TaskInfo {
        status: TaskStatus::Completed,
        progress: Double { bits: HUNDRED },
        message,
        result,
        completed_at: Some(completed_at),
        updated_at,
        ..task
    }
}

/// A task that has failed; the reason becomes its message and the line below its title.
pub open spec fn failed(
    task: TaskInfo,
    reason: String,
    completed_at: Timestamp,
    updated_at: Timestamp,
) -> TaskInfo {
    TaskInfo {
        status: TaskStatus::Failed,
        message: Some(reason),
        detail: Some(reason),
        completed_at: Some(completed_at),
        updated_at,
        ..task
    }
}

// ---- the manager ----

/// The manager of tasks and notifications of one replica.
#[derive(Debug, PartialEq)]
pub struct TaskManager {
    /// The id of this replica, stamped on what it publishes.
    pub instance_id: String,
}

fn text_value(message: &Option<String>, other: &str) -> (r: serde_json::Value)
    ensures
        json::as_text(r) == Some(text_or(*message, other@)),
{
    match message {
        Some(m) => json::text(m.as_str()),
        None => json::text(other),
    }
}

/// The keys of details are different texts.
proof fn lemma_detail_keys()
    ensures
        "status_text"@ != "episode_id"@,
        "status_text"@ != "episode_title"@,
        "status_text"@ != "result"@,
        "status_text"@ != "error"@,
        "episode_id"@ != "episode_title"@,
{
    reveal_strlit("status_text");
    reveal_strlit("episode_id");
    reveal_strlit("episode_title");
    reveal_strlit("result");
    reveal_strlit("error");
    assert("status_text"@.len() == 11);
    assert("episode_id"@.len() == 10);
    assert("episode_title"@.len() == 13);
    assert("result"@.len() == 6);
    assert("error"@.len() == 5);
}

fn empty_details() -> (r: serde_json::Value)
    ensures
        no_details(r),
{
    json::empty_object()
}

fn details_of_progress(
    message: &Option<String>,
    item_id: Option<i32>,
    episode_title: Option<String>,
) -> (r: serde_json::Value)
    ensures
        progress_details(r, *message, item_id, episode_title),
{
    proof {
        lemma_detail_keys();
    }
    let mut object: serde_json::Value = json::empty_object();
    json::put(&mut object, "status_text", text_value(message, "Processing..."));
    if let Some(id) = item_id {
        json::put(&mut object, "episode_id", json::integer(id));
    }
    if let Some(title) = &episode_title {
        json::put(&mut object, "episode_title", json::text(title.as_str()));
    }
    object
}

fn details_of_completion(
    message: &Option<String>,
    result: Option<serde_json::Value>,
) -> (r: serde_json::Value)
    ensures
        completion_details(r, *message, result),
{
    proof {
        lemma_detail_keys();
    }
    let mut object: serde_json::Value = json::empty_object();
    json::put(&mut object, "status_text", text_value(message, "Completed"));
    json::put(&mut object, "result", json::or_null(result));
    object
}

fn details_of_failure(reason: &str) -> (r: serde_json::Value)
    ensures
        failure_details(r, reason@),
{
    proof {
        lemma_detail_keys();
    }
    let mut object: serde_json::Value = json::empty_object();
    json::put(&mut object, "status_text", json::text(reason));
    json::put(&mut object, "error", json::text(reason));
    object
}

impl TaskManager {
    /// A manager for the replica with the given id.
    pub fn new(instance_id: String) -> (r: Self)
        ensures
            r.instance_id == instance_id,
    {
        TaskManager { instance_id }
    }

    /// The key of a task.
    pub fn task_key(task_id: &str) -> (r: String)
        ensures
            r@ == task_key_text(task_id@),
    {
        text::joined("task:", task_id)
    }

    /// The key of the set of a user's task ids.
    pub fn task_index_key(user_id: i32) -> (r: String)
        ensures
            r@ == task_index_text(user_id),
    {
        text::joined("task:index:", text::decimal(user_id as i64).as_str())
    }

    /// The key of a notification.
    pub fn notif_key(user_id: i32, id: &str) -> (r: String)
        ensures
            r@ == notif_key_text(user_id, id@),
    {
        let mut r: String = text::joined("notif:", text::decimal(user_id as i64).as_str());
        r.append(":");
        r.append(id);
        r
    }

    /// The key of the set of a user's notification ids.
    pub fn notif_index_key(user_id: i32) -> (r: String)
        ensures
            r@ == notif_index_text(user_id),
    {
        text::joined("notif:index:", text::decimal(user_id as i64).as_str())
    }

    /// Stamps an event with the id of this replica.
    pub fn publish_bridge(&self, event: BridgeEvent) -> (r: Signal)
        ensures
            r == Signal::Publish(BridgePacket { instance_id: self.instance_id, event }),
    {
        Signal::Publish(BridgePacket { instance_id: self.instance_id.clone(), event })
    }

    /// Raises an update, here and on the other replicas.
    pub fn emit_update(&self, update: TaskUpdate) -> (r: Vec<Signal>)
        ensures
            r@ == update_signals(self.instance_id, update),
    {
        let mut r: Vec<Signal> = Vec::new();
        r.push(Signal::LocalUpdate(update.clone()));
        r.push(self.publish_bridge(BridgeEvent::Task(update)));
        r
    }

    /// Raises an update that came from another replica: here, and nowhere else.
    pub fn reinject_update(&self, update: TaskUpdate) -> (r: Vec<Signal>)
        ensures
            r@ == seq![Signal::LocalUpdate(update)],
    {
        let mut r: Vec<Signal> = Vec::new();
        r.push(Signal::LocalUpdate(update));
        r
    }

    /// Raises a notification that came from another replica: here, and nowhere else.
    pub fn reinject_notification(&self, notification: InAppNotification) -> (r: Vec<Signal>)
        ensures
            r@ == seq![Signal::LocalNotification(notification)],
    {
        let mut r: Vec<Signal> = Vec::new();
        r.push(Signal::LocalNotification(notification));
        r
    }

    /// The commands that store a task.
    pub fn save_task(&self, task: &TaskInfo) -> (r: Vec<StoreCommand>)
        ensures
            store::ops(r@) == save_task_ops(*task),
    {
        let index: String = Self::task_index_key(task.user_id);
        let mut r: Vec<StoreCommand> = Vec::new();
        r.push(
            StoreCommand::PutTask {
                key: Self::task_key(task.id.as_str()),
                task: task.clone(),
                ttl_secs: TASK_TTL_SECS,
            },
        );
        r.push(StoreCommand::AddMember { set: index.clone(), member: task.id.clone() });
        r.push(StoreCommand::Expire { key: index, secs: TASK_INDEX_TTL_SECS });
        assert(store::ops(r@) =~= save_task_ops(*task));
        r
    }

    /// The update that tells of a task.
    pub fn build_update(
        &self,
        task: &TaskInfo,
        item_id: Option<i32>,
        details: serde_json::Value,
    ) -> (r: TaskUpdate)
        ensures
            tells(r, *task, item_id),
            r.task_type == task.task_type,
            r.details == details,
    {
        TaskUpdate {
            task_id: task.id.clone(),
            user_id: task.user_id,
            task_type: task.task_type.clone(),
            item_id,
            progress: task.progress,
            status: task.status,
            details,
            started_at: task.created_at.to_rfc3339(),
            completed_at: match &task.completed_at {
                Some(t) => Some(t.to_rfc3339()),
                None => None,
            },
            art_url: task.art_url.clone(),
            detail: task.detail.clone(),
            group: task.group.clone(),
            group_label: task.group_label.clone(),
            total: task.total,
        }
    }

    fn announced(&self, task: &TaskInfo, update: TaskUpdate) -> (r: Plan)
        ensures
            r.saves(*task),
            r.announces(self.instance_id),
            r.update() == update,
    {
        Plan { writes: self.save_task(task), signals: self.emit_update(update) }
    }
}

/// What creating a task leads to: the task is stored, and an update without details
/// tells of it.
pub open spec fn stored_and_told(
    plan: Plan,
    instance_id: String,
    task: TaskInfo,
    item_id: Option<i32>,
) -> bool {
    &&& plan.saves(task)
    &&& plan.announces(instance_id)
    &&& tells(plan.update(), task, item_id)
    &&& plan.update().task_type == task.task_type
    &&& no_details(plan.update().details)
}

impl TaskManager {
    /// Creates a task.
    pub fn create_task(&self, task_type: String, user_id: i32) -> (r: (String, Plan))
        ensures
            crate::ident::is_identifier(r.0@),
            exists|t: Timestamp, u: Timestamp|
                stored_and_told(
                    r.1,
                    self.instance_id,
                    #[trigger] new_task(r.0, task_type, user_id, None, None, t, u),
                    None,
                ),
    {
        self.create_task_with_item_id(task_type, user_id, None)
    }

    /// Creates a task that works on an item.
    pub fn create_task_with_item_id(
        &self,
        task_type: String,
        user_id: i32,
        item_id: Option<i32>,
    ) -> (r: (String, Plan))
        ensures
            crate::ident::is_identifier(r.0@),
            exists|t: Timestamp, u: Timestamp|
                stored_and_told(
                    r.1,
                    self.instance_id,
                    #[trigger] new_task(r.0, task_type, user_id, None, None, t, u),
                    item_id,
                ),
    {
        self.create_download_task(task_type, user_id, item_id, None, None)
    }

    /// Creates a task that downloads an item.
    pub fn create_download_task(
        &self,
        task_type: String,
        user_id: i32,
        item_id: Option<i32>,
        episode_title: Option<String>,
        podcast_name: Option<String>,
    ) -> (r: (String, Plan))
        ensures
            crate::ident::is_identifier(r.0@),
            exists|t: Timestamp, u: Timestamp|
                stored_and_told(
                    r.1,
                    self.instance_id,
                    #[trigger] new_task(
                        r.0,
                        task_type,
                        user_id,
                        episode_title,
                        podcast_name,
                        t,
                        u,
                    ),
                    item_id,
                ),
    {
        let id: String = crate::ident::fresh();
        let created_at: Timestamp = Timestamp::now();
        let updated_at: Timestamp = Timestamp::now();
        let plan: Plan = self.create_task_at(
            id.clone(),
            task_type,
            user_id,
            item_id,
            episode_title,
            podcast_name,
            created_at,
            updated_at,
        );
        let r: (String, Plan) = (id, plan);
        assert(stored_and_told(
            r.1,
            self.instance_id,
            new_task(
                r.0,
                task_type,
                user_id,
                episode_title,
                podcast_name,
                created_at,
                updated_at,
            ),
            item_id,
        ));
        r
    }

    /// Creates a task under a given id at given instants.
    pub fn create_task_at(
        &self,
        id: String,
        task_type: String,
        user_id: i32,
        item_id: Option<i32>,
        episode_title: Option<String>,
        podcast_name: Option<String>,
        created_at: Timestamp,
        updated_at: Timestamp,
    ) -> (r: Plan)
        ensures
            stored_and_told(
                r,
                self.instance_id,
                new_task(
                    id,
                    task_type,
                    user_id,
                    episode_title,
                    podcast_name,
                    created_at,
                    updated_at,
                ),
                item_id,
            ),
    {
        let task: TaskInfo = TaskInfo {
            id,
            task_type,
            user_id,
            status: TaskStatus::Pending,
            progress: Double { bits: ZERO },
            message: None,
            created_at,
            updated_at,
            result: None,
            episode_title,
            podcast_name,
            completed_at: None,
            art_url: None,
            detail: None,
            group: None,
            group_label: None,
            total: None,
        };
        let update: TaskUpdate = self.build_update(&task, item_id, empty_details());
        self.announced(&task, update)
    }

    /// Changes what the card of a task shows.
    pub fn set_task_display(
        &self,
        task: TaskInfo,
        art_url: Option<String>,
        detail: Option<String>,
        group: Option<String>,
        group_label: Option<String>,
        total: Option<i32>,
    ) -> (r: Plan)
        ensures
            exists|now: Timestamp|
                stored_and_told(
                    r,
                    self.instance_id,
                    #[trigger] displayed(task, art_url, detail, group, group_label, total, now),
                    None,
                ),
    {
        self.set_task_display_at(task, art_url, detail, group, group_label, total, Timestamp::now())
    }

    /// Changes what the card of a task shows, at a given instant.
    pub fn set_task_display_at(
        &self,
        task: TaskInfo,
        art_url: Option<String>,
        detail: Option<String>,
        group: Option<String>,
        group_label: Option<String>,
        total: Option<i32>,
        now: Timestamp,
    ) -> (r: Plan)
        ensures
            stored_and_told(
                r,
                self.instance_id,
                displayed(task, art_url, detail, group, group_label, total, now),
                None,
            ),
    {
        let ghost before = task;
        let mut task = task;
        if art_url.is_some() {
            task.art_url = art_url;
        }
        if detail.is_some() {
            task.detail = detail;
        }
        if group.is_some() {
            task.group = group;
        }
        if group_label.is_some() {
            task.group_label = group_label;
        }
        if total.is_some() {
            task.total = total;
        }
        task.updated_at = now;
        assert(task == displayed(before, art_url, detail, group, group_label, total, now));
        let update: TaskUpdate = self.build_update(&task, None, empty_details());
        self.announced(&task, update)
    }

    /// Names the episode and the podcast of a task. No socket is told.
    pub fn set_task_metadata(
        &self,
        task: TaskInfo,
        episode_title: Option<String>,
        podcast_name: Option<String>,
    ) -> (r: Plan)
        ensures
            exists|now: Timestamp|
                r.saves(#[trigger] named(task, episode_title, podcast_name, now)),
            r.signals@ == Seq::<Signal>::empty(),
    {
        self.set_task_metadata_at(task, episode_title, podcast_name, Timestamp::now())
    }

    /// Names the episode and the podcast of a task, at a given instant.
    pub fn set_task_metadata_at(
        &self,
        task: TaskInfo,
        episode_title: Option<String>,
        podcast_name: Option<String>,
        now: Timestamp,
    ) -> (r: Plan)
        ensures
            r.saves(named(task, episode_title, podcast_name, now)),
            r.signals@ == Seq::<Signal>::empty(),
    {
        let mut task = task;
        task.episode_title = episode_title;
        task.podcast_name = podcast_name;
        task.updated_at = now;
        Plan { writes: self.save_task(&task), signals: Vec::new() }
    }

    /// Notes the progress of a task.
    pub fn update_task_progress(
        &self,
        task: TaskInfo,
        progress: Double,
        message: Option<String>,
    ) -> (r: Plan)
        ensures
            exists|now: Timestamp|
                #[trigger] reported(
                    r,
                    self.instance_id,
                    task,
                    progress,
                    message,
                    None,
                    None,
                    None,
                    now,
                ),
    {
        self.update_task_progress_with_item_id(task, progress, message, None, None)
    }

    /// Notes the progress of a task on an item.
    pub fn update_task_progress_with_item_id(
        &self,
        task: TaskInfo,
        progress: Double,
        message: Option<String>,
        item_id: Option<i32>,
        task_type: Option<String>,
    ) -> (r: Plan)
        ensures
            exists|now: Timestamp|
                #[trigger] reported(
                    r,
                    self.instance_id,
                    task,
                    progress,
                    message,
                    item_id,
                    task_type,
                    None,
                    now,
                ),
    {
        self.update_task_progress_with_details(task, progress, message, item_id, task_type, None)
    }

    /// Notes the progress of a task on an episode.
    pub fn update_task_progress_with_details(
        &self,
        task: TaskInfo,
        progress: Double,
        message: Option<String>,
        item_id: Option<i32>,
        task_type: Option<String>,
        episode_title: Option<String>,
    ) -> (r: Plan)
        ensures
            exists|now: Timestamp|
                #[trigger] reported(
                    r,
                    self.instance_id,
                    task,
                    progress,
                    message,
                    item_id,
                    task_type,
                    episode_title,
                    now,
                ),
    {
        self.update_task_progress_at(
            task,
            progress,
            message,
            item_id,
            task_type,
            episode_title,
            Timestamp::now(),
        )
    }

    /// Notes the progress of a task on an episode, at a given instant.
    pub fn update_task_progress_at(
        &self,
        task: TaskInfo,
        progress: Double,
        message: Option<String>,
        item_id: Option<i32>,
        task_type: Option<String>,
        episode_title: Option<String>,
        now: Timestamp,
    ) -> (r: Plan)
        ensures
            reported(
                r,
                self.instance_id,
                task,
                progress,
                message,
                item_id,
                task_type,
                episode_title,
                now,
            ),
    {
        let ghost before = task;
        let mut task = task;
        let details: serde_json::Value = details_of_progress(&message, item_id, episode_title);
        let zero: Double = Double { bits: ZERO };
        task.progress = progress.clamp(zero, Double { bits: HUNDRED });
        task.message = message;
        task.updated_at = now;
        if zero.is_below(progress) && matches!(task.status, TaskStatus::Pending) {
            task.status = TaskStatus::Running;
        }
        assert(task == progressed(before, progress, message, now));
        let mut update: TaskUpdate = self.build_update(&task, item_id, details);
        if let Some(tt) = task_type {
            update.task_type = tt;
        }
        self.announced(&task, update)
    }

    /// Completes a task.
    pub fn complete_task(
        &self,
        task: TaskInfo,
        result: Option<serde_json::Value>,
        message: Option<String>,
    ) -> (r: Plan)
        ensures
            exists|t: Timestamp, u: Timestamp|
                #[trigger] finished(r, self.instance_id, task, result, message, t, u),
    {
        self.complete_task_at(task, result, message, Timestamp::now(), Timestamp::now())
    }

    /// Completes a task, at given instants.
    pub fn complete_task_at(
        &self,
        task: TaskInfo,
        result: Option<serde_json::Value>,
        message: Option<String>,
        completed_at: Timestamp,
        updated_at: Timestamp,
    ) -> (r: Plan)
        ensures
            finished(r, self.instance_id, task, result, message, completed_at, updated_at),
    {
        let ghost before = task;
        let mut task = task;
        let details: serde_json::Value = details_of_completion(&message, copy_value(&result));
        task.status = TaskStatus::Completed;
        task.progress = Double { bits: HUNDRED };
        task.message = message;
        task.result = result;
        task.completed_at = Some(completed_at);
        task.updated_at = updated_at;
        assert(task == completed(before, result, message, completed_at, updated_at));
        let update: TaskUpdate = self.build_update(&task, None, details);
        self.announced(&task, update)
    }

    /// Fails a task.
    pub fn fail_task(&self, task: TaskInfo, error_message: String) -> (r: Plan)
        ensures
            exists|t: Timestamp, u: Timestamp|
                #[trigger] gave_up(r, self.instance_id, task, error_message, t, u),
    {
        self.fail_task_at(task, error_message, Timestamp::now(), Timestamp::now())
    }

    /// Fails a task, at given instants.
    pub fn fail_task_at(
        &self,
        task: TaskInfo,
        error_message: String,
        completed_at: Timestamp,
        updated_at: Timestamp,
    ) -> (r: Plan)
        ensures
            gave_up(r, self.instance_id, task, error_message, completed_at, updated_at),
    {
        let ghost before = task;
        let mut task = task;
        task.status = TaskStatus::Failed;
        task.message = Some(error_message.clone());
        task.detail = Some(error_message.clone());
        task.completed_at = Some(completed_at);
        task.updated_at = updated_at;
        assert(task == failed(before, error_message, completed_at, updated_at));
        let details: serde_json::Value = details_of_failure(error_message.as_str());
        let update: TaskUpdate = self.build_update(&task, None, details);
        self.announced(&task, update)
    }

    /// Nothing is swept: keys expire by themselves, and indexes are pruned when read.
    pub fn cleanup_old_tasks(&self) -> (r: Plan)
        ensures
            r.writes@ == Seq::<StoreCommand>::empty(),
            r.signals@ == Seq::<Signal>::empty(),
    {
        Plan { writes: Vec::new(), signals: Vec::new() }
    }
}

/// A task with the names of its episode and podcast.
pub open spec fn named(
    task: TaskInfo,
    episode_title: Option<String>,
    podcast_name: Option<String>,
    now: Timestamp,
) -> TaskInfo {
    TaskInfo { episode_title, podcast_name, updated_at: now, ..task }
}

/// What progress leads to: the task is stored, and an update with details tells of it,
/// under another type where one is given.
pub open spec fn reported(
    plan: Plan,
    instance_id: String,
    task: TaskInfo,
    progress: Double,
    message: Option<String>,
    item_id: Option<i32>,
    task_type: Option<String>,
    episode_title: Option<String>,
    now: Timestamp,
) -> bool {
    let after = progressed(task, progress, message, now);
    &&& plan.saves(after)
    &&& plan.announces(instance_id)
    &&& tells(plan.update(), after, item_id)
    &&& plan.update().task_type == match task_type {
        Some(t) => t,
        None => task.task_type,
    }
    &&& progress_details(plan.update().details, message, item_id, episode_title)
}

/// What completion leads to.
pub open spec fn finished(
    plan: Plan,
    instance_id: String,
    task: TaskInfo,
    result: Option<serde_json::Value>,
    message: Option<String>,
    completed_at: Timestamp,
    updated_at: Timestamp,
) -> bool {
    let after = completed(task, result, message, completed_at, updated_at);
    &&& plan.saves(after)
    &&& plan.announces(instance_id)
    &&& tells(plan.update(), after, None)
    &&& plan.update().task_type == task.task_type
    &&& completion_details(plan.update().details, message, result)
}

/// What failure leads to.
pub open spec fn gave_up(
    plan: Plan,
    instance_id: String,
    task: TaskInfo,
    reason: String,
    completed_at: Timestamp,
    updated_at: Timestamp,
) -> bool {
    let after = failed(task, reason, completed_at, updated_at);
    &&& plan.saves(after)
    &&& plan.announces(instance_id)
    &&& tells(plan.update(), after, None)
    &&& plan.update().task_type == task.task_type
    &&& failure_details(plan.update().details, reason@)
}

// ---- lists ----

impl Ranked for TaskInfo {
    /// The newest task comes first.
    open spec fn ahead(self, other: Self) -> bool {
        other.created_at.earlier(self.created_at)
    }

    open spec fn placed(self) -> bool {
        true
    }

    proof fn lemma_ranked(a: Self, b: Self, c: Self) {
    }

    fn is_ahead(&self, other: &Self) -> (r: bool) {
        other.created_at.is_earlier(&self.created_at)
    }
}

impl Ranked for InAppNotification {
    /// The newest notification comes first.
    open spec fn ahead(self, other: Self) -> bool {
        other.created_at.earlier(self.created_at)
    }

    open spec fn placed(self) -> bool {
        true
    }

    proof fn lemma_ranked(a: Self, b: Self, c: Self) {
    }

    fn is_ahead(&self, other: &Self) -> (r: bool) {
        other.created_at.is_earlier(&self.created_at)
    }
}

/// The tasks that the store still has, in the order of its replies.
pub open spec fn found_tasks(replies: Seq<(String, Fetched<TaskInfo>)>) -> Seq<TaskInfo>
    decreases replies.len(),
{
    if replies.len() == 0 {
        Seq::empty()
    } else {
        found_tasks(replies.drop_last()) + kept_task(replies.last().1)
    }
}

/// What a list keeps of one reply.
pub open spec fn kept_task(fetched: Fetched<TaskInfo>) -> Seq<TaskInfo> {
    match fetched {
        Fetched::Found(task) => seq![task],
        _ => Seq::empty(),
    }
}

/// The index entries that a list of tasks drops: those of tasks that are gone or
/// cannot be read. A store that does not answer costs no entry.
pub open spec fn stale_task_ops(user_id: i32, replies: Seq<(String, Fetched<TaskInfo>)>) -> Seq<
    StoreOp,
>
    decreases replies.len(),
{
    if replies.len() == 0 {
        Seq::empty()
    } else {
        stale_task_ops(user_id, replies.drop_last()) + drop_task_ops(
            user_id,
            replies.last().0@,
            replies.last().1,
        )
    }
}

/// What one reply makes of the index of a user's tasks.
pub open spec fn drop_task_ops(user_id: i32, id: Seq<char>, fetched: Fetched<TaskInfo>) -> Seq<
    StoreOp,
> {
    match fetched {
        Fetched::Unreadable | Fetched::Missing => seq![
            StoreOp::RemoveMember { set: task_index_text(user_id), member: id },
        ],
        _ => Seq::empty(),
    }
}

/// Whether a notification still lives at an instant.
pub open spec fn lives(notif: InAppNotification, now: Timestamp) -> bool {
    now.earlier(notif.expires_at)
}

/// What a list of notifications keeps of one reply.
pub open spec fn kept_notification(fetched: Fetched<InAppNotification>, now: Timestamp) -> Seq<
    InAppNotification,
> {
    match fetched {
        Fetched::Found(n) => if lives(n, now) {
            seq![n]
        } else {
            Seq::empty()
        },
        _ => Seq::empty(),
    }
}

/// The notifications that live, in the order of the store's replies.
pub open spec fn live_notifications(
    replies: Seq<(String, Fetched<InAppNotification>)>,
    now: Timestamp,
) -> Seq<InAppNotification>
    decreases replies.len(),
{
    if replies.len() == 0 {
        Seq::empty()
    } else {
        live_notifications(replies.drop_last(), now) + kept_notification(replies.last().1, now)
    }
}

/// What one reply makes the store forget: a notification that has expired or cannot be
/// read goes with its entry, a missing one leaves only the entry behind.
pub open spec fn drop_notification_ops(
    user_id: i32,
    id: Seq<char>,
    fetched: Fetched<InAppNotification>,
    now: Timestamp,
) -> Seq<StoreOp> {
    match fetched {
        Fetched::Found(n) => if lives(n, now) {
            Seq::empty()
        } else {
            remove_notification_ops(user_id, id)
        },
        Fetched::Unreadable => remove_notification_ops(user_id, id),
        Fetched::Missing => seq![
            StoreOp::RemoveMember { set: notif_index_text(user_id), member: id },
        ],
        Fetched::Failed => Seq::empty(),
    }
}

/// What listing notifications makes the store forget.
pub open spec fn stale_notification_ops(
    user_id: i32,
    replies: Seq<(String, Fetched<InAppNotification>)>,
    now: Timestamp,
) -> Seq<StoreOp>
    decreases replies.len(),
{
    if replies.len() == 0 {
        Seq::empty()
    } else {
        stale_notification_ops(user_id, replies.drop_last(), now) + drop_notification_ops(
            user_id,
            replies.last().0@,
            replies.last().1,
            now,
        )
    }
}

/// Whether clearing removes a notification: any at all or, when only those already read are to
/// go, one that was read, and what is left of one that is gone or cannot be read. One that the
/// store did not answer for may be unread, and stays.
pub open spec fn clears(read_only: bool, fetched: Fetched<InAppNotification>) -> bool {
    read_only ==> match fetched {
        Fetched::Found(n) => n.read,
        Fetched::Unreadable | Fetched::Missing => true,
        Fetched::Failed => false,
    }
}

/// What clearing removes.
pub open spec fn clear_ops(
    user_id: i32,
    read_only: bool,
    replies: Seq<(String, Fetched<InAppNotification>)>,
) -> Seq<StoreOp>
    decreases replies.len(),
{
    if replies.len() == 0 {
        Seq::empty()
    } else {
        clear_ops(user_id, read_only, replies.drop_last()) + if clears(
            read_only,
            replies.last().1,
        ) {
            remove_notification_ops(user_id, replies.last().0@)
        } else {
            Seq::empty()
        }
    }
}

/// How long a notification of some severity lives, in seconds.
pub open spec fn ttl_secs_of(severity: MsgSeverity) -> i64 {
    match severity {
        MsgSeverity::Info | MsgSeverity::Success => NOTIF_TTL_TRANSIENT_SECS,
        MsgSeverity::Warning | MsgSeverity::Error => NOTIF_TTL_STICKY_SECS,
    }
}

/// Whether a notification is a new one with the given contents, made at an instant.
pub open spec fn is_new_notification(
    notif: InAppNotification,
    user_id: i32,
    category: String,
    severity: MsgSeverity,
    title: String,
    body: Option<String>,
    episode_id: Option<i32>,
    podcast_id: Option<i32>,
    art_url: Option<String>,
    link: Option<String>,
    now: Timestamp,
) -> bool {
    &&& notif.user_id == user_id
    &&& notif.category == category
    &&& notif.severity == severity
    &&& notif.title == title
    &&& notif.body == body
    &&& notif.episode_id == episode_id
    &&& notif.podcast_id == podcast_id
    &&& notif.art_url == art_url
    &&& notif.link == link
    &&& notif.created_at == now
    &&& !notif.read
    &&& notif.expires_at.second() == now.second() + ttl_secs_of(severity)
    &&& notif.expires_at.nano() == moment::below_second(now.nano())
}

/// What a new notification leads to: it is stored for as long as it lives, and raised.
pub open spec fn pushed(plan: Plan, instance_id: String, notif: InAppNotification) -> bool {
    &&& store::ops(plan.writes@) == save_notification_ops(
        notif,
        ttl_secs_of(notif.severity) as u64,
    )
    &&& plan.signals@ == notification_signals(instance_id, notif)
}

proof fn lemma_ops_append(a: Seq<StoreCommand>, b: Seq<StoreCommand>)
    ensures
        store::ops(a + b) == store::ops(a) + store::ops(b),
        store::ops(Seq::empty()) == Seq::<StoreOp>::empty(),
{
    assert(store::ops(a + b) =~= store::ops(a) + store::ops(b));
    assert(store::ops(Seq::empty()) =~= Seq::<StoreOp>::empty());
}

/// Why a task could not be read.
#[derive(Clone, Copy, Debug, PartialEq, Eq, Structural)]
pub enum LoadError {
    Missing,
    Unreadable,
    Failed,
}

impl TaskManager {
    /// A task, out of the store's reply for its key.
    pub fn get_task(&self, fetched: Fetched<TaskInfo>) -> (r: Result<TaskInfo, LoadError>)
        ensures
            r == match fetched {
                Fetched::Found(task) => Ok::<TaskInfo, LoadError>(task),
                Fetched::Unreadable => Err(LoadError::Unreadable),
                Fetched::Missing => Err(LoadError::Missing),
                Fetched::Failed => Err(LoadError::Failed),
            },
    {
        match fetched {
            Fetched::Found(task) => Ok(task),
            Fetched::Unreadable => Err(LoadError::Unreadable),
            Fetched::Missing => Err(LoadError::Missing),
            Fetched::Failed => Err(LoadError::Failed),
        }
    }

    /// Enters one reply in a list of tasks, and says what it makes of the index.
    pub fn note_task(
        &self,
        user_id: i32,
        id: String,
        fetched: Fetched<TaskInfo>,
        found: &mut Vec<TaskInfo>,
    ) -> (r: Vec<StoreCommand>)
        ensures
            final(found)@ == old(found)@ + kept_task(fetched),
            store::ops(r@) == drop_task_ops(user_id, id@, fetched),
    {
        let mut r: Vec<StoreCommand> = Vec::new();
        match fetched {
            Fetched::Found(task) => {
                found.push(task);
            },
            Fetched::Unreadable | Fetched::Missing => {
                r.push(
                    StoreCommand::RemoveMember {
                        set: Self::task_index_key(user_id),
                        member: id,
                    },
                );
            },
            Fetched::Failed => {},
        }
        assert(found@ =~= old(found)@ + kept_task(fetched));
        assert(store::ops(r@) =~= drop_task_ops(user_id, id@, fetched));
        r
    }

    /// A user's tasks, newest first, out of the store's replies for the ids in their
    /// index; and the commands that drop stale entries of the index.
    pub fn get_user_tasks(
        &self,
        user_id: i32,
        replies: Vec<(String, Fetched<TaskInfo>)>,
    ) -> (r: (Vec<TaskInfo>, Vec<StoreCommand>))
        ensures
            r.0@ == crate::order::ordered(found_tasks(replies@)),
            store::ops(r.1@) == stale_task_ops(user_id, replies@),
    {
        let ghost all = replies@;
        let mut found: Vec<TaskInfo> = Vec::new();
        let mut stale: Vec<StoreCommand> = Vec::new();
        proof {
            lemma_ops_append(stale@, stale@);
            assert(stale@ =~= Seq::empty());
        }
        for reply in it: replies
            invariant
                it.seq() == all,
                found@ == found_tasks(all.take(it.index() as int)),
                store::ops(stale@) == stale_task_ops(user_id, all.take(it.index() as int)),
        {
            proof {
                let next = all.take(it.index() + 1);
                assert(next.drop_last() =~= all.take(it.index() as int));
                assert(next.last() == reply);
            }
            let (id, fetched) = reply;
            let mut dropped: Vec<StoreCommand> = self.note_task(user_id, id, fetched, &mut found);
            proof {
                lemma_ops_append(stale@, dropped@);
            }
            stale.append(&mut dropped);
        }
        assert(all.take(all.len() as int) =~= all);
        (crate::order::sort(found), stale)
    }

    /// How long a notification of some severity lives, in seconds.
    pub fn notif_ttl_secs(severity: MsgSeverity) -> (r: i64)
        ensures
            r == ttl_secs_of(severity),
    {
        match severity {
            MsgSeverity::Info | MsgSeverity::Success => NOTIF_TTL_TRANSIENT_SECS,
            MsgSeverity::Warning | MsgSeverity::Error => NOTIF_TTL_STICKY_SECS,
        }
    }

    /// The commands that store a notification.
    pub fn save_notification(&self, notif: &InAppNotification, ttl_secs: u64) -> (r: Vec<
        StoreCommand,
    >)
        ensures
            store::ops(r@) == save_notification_ops(*notif, ttl_secs),
    {
        let index: String = Self::notif_index_key(notif.user_id);
        let mut r: Vec<StoreCommand> = Vec::new();
        r.push(
            StoreCommand::PutNotification {
                key: Self::notif_key(notif.user_id, notif.id.as_str()),
                notification: notif.clone(),
                ttl_secs,
            },
        );
        r.push(StoreCommand::AddMember { set: index.clone(), member: notif.id.clone() });
        r.push(StoreCommand::Expire { key: index, secs: NOTIF_INDEX_TTL_SECS });
        assert(store::ops(r@) =~= save_notification_ops(*notif, ttl_secs));
        r
    }

    /// Creates a notification. There is none where the calendar ends before it expires.
    pub fn push_notification(
        &self,
        user_id: i32,
        category: String,
        severity: MsgSeverity,
        title: String,
        body: Option<String>,
        episode_id: Option<i32>,
        podcast_id: Option<i32>,
        art_url: Option<String>,
        link: Option<String>,
    ) -> (r: Option<(InAppNotification, Plan)>)
        ensures
            r matches Some((notif, plan)) ==> {
                &&& crate::ident::is_identifier(notif.id@)
                &&& is_new_notification(
                    notif,
                    user_id,
                    category,
                    severity,
                    title,
                    body,
                    episode_id,
                    podcast_id,
                    art_url,
                    link,
                    notif.created_at,
                )
                &&& pushed(plan, self.instance_id, notif)
            },
            exists|now: Timestamp|
                #![trigger now.second()]
                {
                    &&& moment::FIRST_SECOND <= now.second() <= moment::LAST_SECOND
                    &&& r is Some <==> now.second() + ttl_secs_of(severity) <= moment::LAST_SECOND
                    &&& r matches Some((notif, _)) ==> notif.created_at == now
                },
    {
        self.push_notification_if_nameable(
            crate::ident::fresh(),
            user_id,
            category,
            severity,
            title,
            body,
            episode_id,
            podcast_id,
            art_url,
            link,
            Timestamp::now(),
        )
    }

    /// Creates a notification under a given id at a given instant, where the calendar can name
    /// the instant at which it expires.
    pub fn push_notification_if_nameable(
        &self,
        id: String,
        user_id: i32,
        category: String,
        severity: MsgSeverity,
        title: String,
        body: Option<String>,
        episode_id: Option<i32>,
        podcast_id: Option<i32>,
        art_url: Option<String>,
        link: Option<String>,
        now: Timestamp,
    ) -> (r: Option<(InAppNotification, Plan)>)
        ensures
            r is Some <==> now.second() + ttl_secs_of(severity) <= moment::LAST_SECOND,
            r matches Some((notif, plan)) ==> {
                &&& notif.id == id
                &&& is_new_notification(
                    notif,
                    user_id,
                    category,
                    severity,
                    title,
                    body,
                    episode_id,
                    podcast_id,
                    art_url,
                    link,
                    now,
                )
                &&& pushed(plan, self.instance_id, notif)
            },
    {
        if now.seconds() > moment::LAST_SECOND - Self::notif_ttl_secs(severity) {
            return None;
        }
        Some(
            self.push_notification_at(
                id,
                user_id,
                category,
                severity,
                title,
                body,
                episode_id,
                podcast_id,
                art_url,
                link,
                now,
            ),
        )
    }

    /// Creates a notification under a given id at a given instant.
    pub fn push_notification_at(
        &self,
        id: String,
        user_id: i32,
        category: String,
        severity: MsgSeverity,
        title: String,
        body: Option<String>,
        episode_id: Option<i32>,
        podcast_id: Option<i32>,
        art_url: Option<String>,
        link: Option<String>,
        now: Timestamp,
    ) -> (r: (InAppNotification, Plan))
        requires
            now.second() + ttl_secs_of(severity) <= moment::LAST_SECOND,
        ensures
            r.0.id == id,
            is_new_notification(
                r.0,
                user_id,
                category,
                severity,
                title,
                body,
                episode_id,
                podcast_id,
                art_url,
                link,
                now,
            ),
            pushed(r.1, self.instance_id, r.0),
    {
        let ttl: i64 = Self::notif_ttl_secs(severity);
        let notif: InAppNotification = InAppNotification {
            id,
            user_id,
            category,
            severity,
            title,
            body,
            episode_id,
            podcast_id,
            art_url,
            link,
            created_at: now,
            read: false,
            expires_at: now.plus(ttl).unwrap(),
        };
        let writes: Vec<StoreCommand> = self.save_notification(&notif, ttl as u64);
        let mut signals: Vec<Signal> = Vec::new();
        signals.push(Signal::LocalNotification(notif.clone()));
        signals.push(self.publish_bridge(BridgeEvent::Notification(notif.clone())));
        assert(signals@ =~= notification_signals(self.instance_id, notif));
        (notif, Plan { writes, signals })
    }

    fn remove_notification(user_id: i32, id: &str) -> (r: Vec<StoreCommand>)
        ensures
            store::ops(r@) == remove_notification_ops(user_id, id@),
    {
        let mut r: Vec<StoreCommand> = Vec::new();
        r.push(StoreCommand::Delete { key: Self::notif_key(user_id, id) });
        r.push(
            StoreCommand::RemoveMember {
                set: Self::notif_index_key(user_id),
                member: id.to_string(),
            },
        );
        assert(store::ops(r@) =~= remove_notification_ops(user_id, id@));
        r
    }

    /// Enters one reply in a list of notifications, and says what the store has to
    /// forget on its account.
    pub fn note_notification(
        &self,
        user_id: i32,
        id: String,
        fetched: Fetched<InAppNotification>,
        now: Timestamp,
        found: &mut Vec<InAppNotification>,
    ) -> (r: Vec<StoreCommand>)
        ensures
            final(found)@ == old(found)@ + kept_notification(fetched, now),
            store::ops(r@) == drop_notification_ops(user_id, id@, fetched, now),
    {
        let mut r: Vec<StoreCommand> = Vec::new();
        proof {
            lemma_ops_append(r@, r@);
            assert(r@ =~= Seq::empty());
        }
        match fetched {
            Fetched::Found(n) => {
                if now.is_earlier(&n.expires_at) {
                    found.push(n);
                } else {
                    r = Self::remove_notification(user_id, id.as_str());
                }
            },
            Fetched::Unreadable => {
                r = Self::remove_notification(user_id, id.as_str());
            },
            Fetched::Missing => {
                r.push(
                    StoreCommand::RemoveMember {
                        set: Self::notif_index_key(user_id),
                        member: id,
                    },
                );
                assert(store::ops(r@) =~= drop_notification_ops(user_id, id@, fetched, now));
            },
            Fetched::Failed => {},
        }
        assert(found@ =~= old(found)@ + kept_notification(fetched, now));
        r
    }

    /// A user's live notifications, newest first, out of the store's replies for the ids
    /// in their index; and what the store has to forget.
    pub fn list_notifications(
        &self,
        user_id: i32,
        replies: Vec<(String, Fetched<InAppNotification>)>,
        now: Timestamp,
    ) -> (r: (Vec<InAppNotification>, Vec<StoreCommand>))
        ensures
            r.0@ == crate::order::ordered(live_notifications(replies@, now)),
            store::ops(r.1@) == stale_notification_ops(user_id, replies@, now),
    {
        let ghost all = replies@;
        let mut found: Vec<InAppNotification> = Vec::new();
        let mut stale: Vec<StoreCommand> = Vec::new();
        proof {
            lemma_ops_append(stale@, stale@);
            assert(stale@ =~= Seq::empty());
        }
        for reply in it: replies
            invariant
                it.seq() == all,
                found@ == live_notifications(all.take(it.index() as int), now),
                store::ops(stale@) == stale_notification_ops(
                    user_id,
                    all.take(it.index() as int),
                    now,
                ),
        {
            proof {
                let next = all.take(it.index() + 1);
                assert(next.drop_last() =~= all.take(it.index() as int));
                assert(next.last() == reply);
            }
            let (id, fetched) = reply;
            let mut dropped: Vec<StoreCommand> = self.note_notification(
                user_id,
                id,
                fetched,
                now,
                &mut found,
            );
            proof {
                lemma_ops_append(stale@, dropped@);
            }
            stale.append(&mut dropped);
        }
        assert(all.take(all.len() as int) =~= all);
        (crate::order::sort(found), stale)
    }

    /// Marks a notification as read, out of the store's reply for its key. What cannot
    /// be read is left alone.
    pub fn mark_notification_read(&self, fetched: Fetched<InAppNotification>) -> (r: Vec<
        StoreCommand,
    >)
        ensures
            store::ops(r@) == match fetched {
                Fetched::Found(n) => save_notification_ops(
                    (InAppNotification { read: true, ..n }),
                    ttl_secs_of(n.severity) as u64,
                ),
                _ => Seq::empty(),
            },
    {
        match fetched {
            Fetched::Found(n) => {
                let mut n = n;
                n.read = true;
                let ttl: i64 = Self::notif_ttl_secs(n.severity);
                let at_least: i64 = if ttl < 60 {
                    60
                } else {
                    ttl
                };
                self.save_notification(&n, at_least as u64)
            },
            _ => {
                let r: Vec<StoreCommand> = Vec::new();
                assert(store::ops(r@) =~= Seq::empty());
                r
            },
        }
    }

    /// Dismisses a notification.
    pub fn dismiss_notification(&self, user_id: i32, id: &str) -> (r: Vec<StoreCommand>)
        ensures
            store::ops(r@) == remove_notification_ops(user_id, id@),
    {
        Self::remove_notification(user_id, id)
    }

    /// Clears one notification, out of the store's reply for its key; the reply does not
    /// matter where all are cleared.
    pub fn clear_notification(
        &self,
        user_id: i32,
        read_only: bool,
        id: &str,
        fetched: &Fetched<InAppNotification>,
    ) -> (r: Vec<StoreCommand>)
        ensures
            store::ops(r@) == if clears(read_only, *fetched) {
                remove_notification_ops(user_id, id@)
            } else {
                Seq::empty()
            },
    {
        let remove: bool = if read_only {
            match fetched {
                Fetched::Found(n) => n.read,
                Fetched::Unreadable | Fetched::Missing => true,
                Fetched::Failed => false,
            }
        } else {
            true
        };
        if remove {
            Self::remove_notification(user_id, id)
        } else {
            let r: Vec<StoreCommand> = Vec::new();
            assert(store::ops(r@) =~= Seq::empty());
            r
        }
    }

    /// Clears the notifications in a user's index: all of them, or those already read.
    pub fn clear_notifications(
        &self,
        user_id: i32,
        read_only: bool,
        replies: Vec<(String, Fetched<InAppNotification>)>,
    ) -> (r: Vec<StoreCommand>)
        ensures
            store::ops(r@) == clear_ops(user_id, read_only, replies@),
    {
        let mut r: Vec<StoreCommand> = Vec::new();
        proof {
            lemma_ops_append(r@, r@);
            assert(r@ =~= Seq::empty());
        }
        let mut i: usize = 0;
        while i < replies.len()
            invariant
                i <= replies@.len(),
                store::ops(r@) == clear_ops(user_id, read_only, replies@.take(i as int)),
            decreases replies@.len() - i,
        {
            let mut dropped: Vec<StoreCommand> = self.clear_notification(
                user_id,
                read_only,
                replies[i].0.as_str(),
                &replies[i].1,
            );
            proof {
                let next = replies@.take(i + 1);
                assert(next.drop_last() =~= replies@.take(i as int));
                assert(next.last() == replies@[i as int]);
                lemma_ops_append(r@, dropped@);
            }
            r.append(&mut dropped);
            i += 1;
        }
        assert(replies@.take(i as int) =~= replies@);
        r
    }
}

} // verus!
