//! Feedback on the client's side: transient toasts, the copy of the server's durable
//! messages, and the requests by which those are managed.

use crate::lists;
use crate::progress;
use crate::progress::TaskProgress;
use crate::text;
use vstd::prelude::*;

verus! {

/// A durable message as the client knows it.
#[derive(Clone, Debug, PartialEq)]
pub struct NotificationMessage {
    pub id: String,
    pub severity: String,
    pub title: String,
    pub body: Option<String>,
    pub created_at: String,
    pub art_url: Option<String>,
}

/// What the client shows of tasks, messages and toasts.
#[derive(Clone, Debug, PartialEq)]
pub struct NotificationState {
    pub active_tasks: Option<Vec<TaskProgress>>,
    pub messages: Vec<NotificationMessage>,
    pub error_message: Option<String>,
    pub info_message: Option<String>,
}

/// Flashes a transient note.
pub fn toast_info(state: &mut NotificationState, message: String)
    ensures
        *final(state) == (NotificationState { info_message: Some(message), ..*old(state) }),
{
    state.info_message = Some(message);
}

/// Flashes a transient note of success.
pub fn toast_success(state: &mut NotificationState, message: String)
    ensures
        *final(state) == (NotificationState { info_message: Some(message), ..*old(state) }),
{
    toast_info(state, message);
}

/// Flashes a transient error.
pub fn toast_error(state: &mut NotificationState, message: String)
    ensures
        *final(state) == (NotificationState { error_message: Some(message), ..*old(state) }),
{
    state.error_message = Some(message);
}

/// The tasks that a state holds.
pub open spec fn tasks_of(state: NotificationState) -> Seq<TaskProgress> {
    match state.active_tasks {
        Some(tasks) => tasks@,
        None => Seq::empty(),
    }
}

/// Whether a task has this id.
pub open spec fn is_task(task: TaskProgress, id: Seq<char>) -> bool {
    task.task_id@ == id
}

/// Whether a message has this id.
pub open spec fn is_message(message: NotificationMessage, id: Seq<char>) -> bool {
    message.id@ == id
}

/// The tasks but for one.
pub open spec fn other_tasks(tasks: Seq<TaskProgress>, id: Seq<char>) -> Seq<TaskProgress> {
    tasks.filter(|t: TaskProgress| !is_task(t, id))
}

/// The tasks that have not ended.
pub open spec fn unfinished(tasks: Seq<TaskProgress>) -> Seq<TaskProgress> {
    tasks.filter(|t: TaskProgress| !progress::done(t.status@))
}

/// The messages but for one.
pub open spec fn other_messages(
    messages: Seq<NotificationMessage>,
    id: Seq<char>,
) -> Seq<NotificationMessage> {
    messages.filter(|m: NotificationMessage| !is_message(m, id))
}

fn without_task(tasks: Vec<TaskProgress>, id: &str) -> (r: Vec<TaskProgress>)
    ensures
        r@ == other_tasks(tasks@, id@),
{
    let test = |t: &TaskProgress| -> (b: bool)
        ensures
            b == !is_task(*t, id@),
    { !text::same(t.task_id.as_str(), id) };
    lists::kept(tasks, test, Ghost(|t: TaskProgress| !is_task(t, id@)))
}

fn without_done(tasks: Vec<TaskProgress>) -> (r: Vec<TaskProgress>)
    ensures
        r@ == unfinished(tasks@),
{
    let test = |t: &TaskProgress| -> (b: bool)
        ensures
            b == !progress::done(t.status@),
    { !progress::is_done(t.status.as_str()) };
    lists::kept(tasks, test, Ghost(|t: TaskProgress| !progress::done(t.status@)))
}

fn without_message(messages: Vec<NotificationMessage>, id: &str) -> (r: Vec<NotificationMessage>)
    ensures
        r@ == other_messages(messages@, id@),
{
    let test = |m: &NotificationMessage| -> (b: bool)
        ensures
            b == !is_message(*m, id@),
    { !text::same(m.id.as_str(), id) };
    lists::kept(messages, test, Ghost(|m: NotificationMessage| !is_message(m, id@)))
}

impl NotificationState {
    /// Removes a task.
    pub fn dismiss_task(&mut self, id: &str)
        ensures
            tasks_of(*final(self)) == other_tasks(tasks_of(*old(self)), id@),
            final(self).active_tasks is Some == old(self).active_tasks is Some,
            final(self).messages == old(self).messages,
            final(self).error_message == old(self).error_message,
            final(self).info_message == old(self).info_message,
    {
        let ghost before = *self;
        match self.active_tasks.take() {
            Some(tasks) => {
                self.active_tasks = Some(without_task(tasks, id));
            },
            None => {
                assert(other_tasks(tasks_of(before), id@) =~= Seq::empty());
            },
        }
    }

    /// Removes the tasks that have ended.
    pub fn clear_done(&mut self)
        ensures
            tasks_of(*final(self)) == unfinished(tasks_of(*old(self))),
            final(self).active_tasks is Some == old(self).active_tasks is Some,
            final(self).messages == old(self).messages,
            final(self).error_message == old(self).error_message,
            final(self).info_message == old(self).info_message,
    {
        let ghost before = *self;
        match self.active_tasks.take() {
            Some(tasks) => {
                self.active_tasks = Some(without_done(tasks));
            },
            None => {
                assert(unfinished(tasks_of(before)) =~= Seq::empty());
            },
        }
    }

    /// Removes a message from the client's copy.
    pub fn dismiss_message(&mut self, id: &str)
        ensures
            final(self).messages@ == other_messages(old(self).messages@, id@),
            final(self).active_tasks == old(self).active_tasks,
            final(self).error_message == old(self).error_message,
            final(self).info_message == old(self).info_message,
    {
        let mut messages: Vec<NotificationMessage> = Vec::new();
        std::mem::swap(&mut self.messages, &mut messages);
        self.messages = without_message(messages, id);
    }
}

// ---- requests ----

/// A POST request with the key of the caller in the header `Api-Key`.
#[derive(Clone, Debug, PartialEq)]
pub struct Post {
    pub url: String,
    pub api_key: String,
    /// What the request asks for, as errors put it.
    pub purpose: &'static str,
}

/// What became of a request.
#[derive(Clone, Debug, PartialEq)]
pub enum Reply {
    /// It could not be sent, for this reason.
    Unsent(String),
    /// The server answered with this status, of which `ok` says whether it means success.
    Answered { ok: bool, status: u16 },
}

impl Post {
    /// What a reply means to whoever made the request.
    pub fn settle(&self, reply: Reply) -> (r: Result<(), String>)
        ensures
            r is Ok == (reply is Answered && reply->ok),
            reply matches Reply::Unsent(reason) ==> r->Err_0@ == self.purpose@ + ": "@ + reason@,
            reply matches Reply::Answered { ok, status } ==> !ok ==> r->Err_0@ == self.purpose@
                + " failed: "@ + text::decimal_text(status as int),
    {
        match reply {
            Reply::Unsent(reason) => {
                let mut e: String = text::joined(self.purpose, ": ");
                e.append(reason.as_str());
                Err(e)
            },
            Reply::Answered { ok, status } => {
                if ok {
                    Ok(())
                } else {
                    let mut e: String = text::joined(self.purpose, " failed: ");
                    e.append(text::decimal(status as i64).as_str());
                    Err(e)
                }
            },
        }
    }
}

/// Where the notifications of a server are managed.
pub open spec fn notifications_url(server_name: Seq<char>) -> Seq<char> {
    text::without_trailing(server_name, '/') + "/api/data/notifications/"@
}

/// A server's address without slashes at its end.
fn clean_base(server_name: &str) -> (r: String)
    ensures
        r@ == text::without_trailing(server_name@, '/'),
{
    text::cut_trailing(server_name, '/')
}

fn at_notifications(server_name: &str) -> (r: String)
    ensures
        r@ == notifications_url(server_name@),
{
    let mut url: String = clean_base(server_name);
    url.append("/api/data/notifications/");
    url
}

/// Asks the server to delete a durable notification.
pub fn dismiss_notification(server_name: &str, api_key: &str, user_id: i32, id: &str) -> (r: Post)
    ensures
        r.url@ == notifications_url(server_name@) + id@ + "/dismiss?user_id="@
            + text::decimal_text(user_id as int),
        r.api_key@ == api_key@,
        r.purpose@ == "dismiss notification"@,
{
    let mut url: String = at_notifications(server_name);
    url.append(id);
    url.append("/dismiss?user_id=");
    url.append(text::decimal(user_id as i64).as_str());
    Post { url, api_key: api_key.to_string(), purpose: "dismiss notification" }
}

/// Asks the server to mark a durable notification read.
pub fn mark_notification_read(server_name: &str, api_key: &str, user_id: i32, id: &str) -> (r: Post)
    ensures
        r.url@ == notifications_url(server_name@) + id@ + "/read?user_id="@ + text::decimal_text(
            user_id as int,
        ),
        r.api_key@ == api_key@,
        r.purpose@ == "mark notification read"@,
{
    let mut url: String = at_notifications(server_name);
    url.append(id);
    url.append("/read?user_id=");
    url.append(text::decimal(user_id as i64).as_str());
    Post { url, api_key: api_key.to_string(), purpose: "mark notification read" }
}

/// Asks the server to clear all durable notifications of a user, or those read.
pub fn clear_notifications(
    server_name: &str,
    api_key: &str,
    user_id: i32,
    read_only: bool,
) -> (r: Post)
    ensures
        r.url@ == notifications_url(server_name@) + "clear?user_id="@ + text::decimal_text(
            user_id as int,
        ) + "&read_only="@ + if read_only {
            "true"@
        } else {
            "false"@
        },
        r.api_key@ == api_key@,
        r.purpose@ == "clear notifications"@,
{
    let mut url: String = at_notifications(server_name);
    url.append("clear?user_id=");
    url.append(text::decimal(user_id as i64).as_str());
    url.append("&read_only=");
    url.append(if read_only {
        "true"
    } else {
        "false"
    });
    Post { url, api_key: api_key.to_string(), purpose: "clear notifications" }
}

// ---- laws ----

/// A slash at the end of a server's name changes no request.
pub proof fn law_trailing_slash_is_ignored(server_name: Seq<char>)
    ensures
        notifications_url(server_name.push('/')) == notifications_url(server_name),
{
    assert(server_name.push('/').drop_last() =~= server_name);
}

/// Dismissing a task removes that task and no other.
pub proof fn law_dismissing_removes_one_task(
    tasks: Seq<TaskProgress>,
    id: Seq<char>,
    task: TaskProgress,
)
    ensures
        other_tasks(tasks, id).contains(task) == (tasks.contains(task) && !is_task(task, id)),
{
    let keep = |t: TaskProgress| !is_task(t, id);
    lists::lemma_filtered(tasks, keep, task);
}

/// Clearing removes the tasks that have ended; what is queued or running stays.
pub proof fn law_clearing_keeps_what_runs(tasks: Seq<TaskProgress>, task: TaskProgress)
    ensures
        unfinished(tasks).contains(task) == (tasks.contains(task) && !progress::done(
            task.status@,
        )),
        tasks.contains(task) && progress::active(task.status@) ==> unfinished(tasks).contains(
            task,
        ),
{
    lists::lemma_filtered(tasks, |t: TaskProgress| !progress::done(t.status@), task);
    progress::law_active_is_not_done(task.status@);
}

/// Dismissing a message removes that message and no other.
pub proof fn law_dismissing_removes_one_message(
    messages: Seq<NotificationMessage>,
    id: Seq<char>,
    message: NotificationMessage,
)
    ensures
        other_messages(messages, id).contains(message) == (messages.contains(message)
            && !is_message(message, id)),
{
    let keep = |m: NotificationMessage| !is_message(m, id);
    lists::lemma_filtered(messages, keep, message);
}

} // verus!
