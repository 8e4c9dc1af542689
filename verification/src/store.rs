//! The key-value store that tasks and notifications live in: the commands that it is
//! given, and what they mean for its contents.

use crate::task_manager::{InAppNotification, TaskInfo};
use vstd::prelude::*;

verus! {

/// A command to the store.
#[derive(Debug, PartialEq)]
pub enum StoreCommand {
    /// Write a task under a key that expires (`SETEX`).
    PutTask { key: String, task: TaskInfo, ttl_secs: u64 },
    /// Write a notification under a key that expires (`SETEX`).
    PutNotification { key: String, notification: InAppNotification, ttl_secs: u64 },
    /// Add a member to a set (`SADD`).
    AddMember { set: String, member: String },
    /// Remove a member from a set (`SREM`).
    RemoveMember { set: String, member: String },
    /// Let a key expire (`EXPIRE`).
    Expire { key: String, secs: i64 },
    /// Remove a key (`DEL`).
    Delete { key: String },
}

/// A command to the store, with its texts as sequences of characters.
pub ghost enum StoreOp {
    PutTask { key: Seq<char>, task: TaskInfo, ttl_secs: u64 },
    PutNotification { key: Seq<char>, notification: InAppNotification, ttl_secs: u64 },
    AddMember { set: Seq<char>, member: Seq<char> },
    RemoveMember { set: Seq<char>, member: Seq<char> },
    Expire { key: Seq<char>, secs: i64 },
    Delete { key: Seq<char> },
}

impl View for StoreCommand {
    type V = StoreOp;

    open spec fn view(&self) -> StoreOp {
        match *self {
            StoreCommand::PutTask { key, task, ttl_secs } => StoreOp::PutTask {
                key: key@,
                task,
                ttl_secs,
            },
            StoreCommand::PutNotification { key, notification, ttl_secs } =>
                StoreOp::PutNotification { key: key@, notification, ttl_secs },
            StoreCommand::AddMember { set, member } => StoreOp::AddMember {
                set: set@,
                member: member@,
            },
            StoreCommand::RemoveMember { set, member } => StoreOp::RemoveMember {
                set: set@,
                member: member@,
            },
            StoreCommand::Expire { key, secs } => StoreOp::Expire { key: key@, secs },
            StoreCommand::Delete { key } => StoreOp::Delete { key: key@ },
        }
    }
}

/// What a list of commands says.
pub open spec fn ops(commands: Seq<StoreCommand>) -> Seq<StoreOp> {
    commands.map_values(|c: StoreCommand| c@)
}

/// What the store answers when it is asked for a key.
#[derive(Debug, PartialEq)]
pub enum Fetched<T> {
    /// The key holds this value.
    Found(T),
    /// The key holds something else.
    Unreadable,
    /// There is no such key.
    Missing,
    /// The store did not answer.
    Failed,
}

/// What a key of the store holds.
pub ghost enum Entry {
    Task(TaskInfo),
    Notification(InAppNotification),
    Members(Set<Seq<char>>),
}

/// The contents of the store.
pub type Contents = Map<Seq<char>, Entry>;

/// The members of a set; none where there is no such set.
pub open spec fn members_of(contents: Contents, set: Seq<char>) -> Set<Seq<char>> {
    if contents.contains_key(set) {
        match contents[set] {
            Entry::Members(m) => m,
            _ => Set::empty(),
        }
    } else {
        Set::empty()
    }
}

/// Whether a key is free for a set: it holds one, or nothing.
pub open spec fn holds_set(contents: Contents, set: Seq<char>) -> bool {
    contents.contains_key(set) ==> contents[set] is Members
}

/// What a command makes of the contents. Expiry comes with time, not with the
/// command; a set without members is none; a set command on a key that holds
/// something else is refused.
pub open spec fn run(contents: Contents, op: StoreOp) -> Contents {
    match op {
        StoreOp::PutTask { key, task, .. } => contents.insert(key, Entry::Task(task)),
        StoreOp::PutNotification { key, notification, .. } => contents.insert(
            key,
            Entry::Notification(notification),
        ),
        StoreOp::AddMember { set, member } => if holds_set(contents, set) {
            contents.insert(set, Entry::Members(members_of(contents, set).insert(member)))
        } else {
            contents
        },
        StoreOp::RemoveMember { set, member } => if !holds_set(contents, set)
            || !contents.contains_key(set) {
            contents
        } else if members_of(contents, set).remove(member) == Set::<Seq<char>>::empty() {
            contents.remove(set)
        } else {
            contents.insert(set, Entry::Members(members_of(contents, set).remove(member)))
        },
        StoreOp::Expire { .. } => contents,
        StoreOp::Delete { key } => contents.remove(key),
    }
}

/// What commands make of the contents, one after the other.
pub open spec fn run_all(contents: Contents, ops: Seq<StoreOp>) -> Contents
    decreases ops.len(),
{
    if ops.len() == 0 {
        contents
    } else {
        run(run_all(contents, ops.drop_last()), ops.last())
    }
}

/// What the store answers when it is asked for a task.
pub open spec fn task_at(contents: Contents, key: Seq<char>) -> Fetched<TaskInfo> {
    if contents.contains_key(key) {
        match contents[key] {
            Entry::Task(t) => Fetched::Found(t),
            Entry::Notification(_) => Fetched::Unreadable,
            Entry::Members(_) => Fetched::Failed,
        }
    } else {
        Fetched::Missing
    }
}

/// What the store answers when it is asked for a notification.
pub open spec fn notification_at(contents: Contents, key: Seq<char>) -> Fetched<
    InAppNotification,
> {
    if contents.contains_key(key) {
        match contents[key] {
            Entry::Notification(n) => Fetched::Found(n),
            Entry::Task(_) => Fetched::Unreadable,
            Entry::Members(_) => Fetched::Failed,
        }
    } else {
        Fetched::Missing
    }
}

} // verus!
