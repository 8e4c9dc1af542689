//! What requests to the manager do, told of what goes into them and what comes out: which task
//! or notification the store is given, and what sockets and replicas are told.

use crate::double::Double;
use crate::json;
use crate::moment;
use crate::moment::Timestamp;
use crate::order;
use crate::store::{Fetched, StoreCommand, StoreOp};
use crate::task_laws;
use crate::task_manager;
use crate::task_manager::{
    BridgeEvent, BridgePacket, InAppNotification, MsgSeverity, Plan, Signal, TaskInfo, TaskManager,
    TaskStatus, TaskUpdate,
};
use crate::text;
use vstd::prelude::*;

verus! {

// ---- what the store and the sockets are given ----

/// Whether commands write one task under its key, for a week, and enter it in the index of its
/// user, which lasts a day longer; and do nothing else.
pub open spec fn writes_task(commands: Seq<StoreCommand>, task: TaskInfo) -> bool {
    let index = "task:index:"@ + text::decimal_text(task.user_id as int);
    &&& commands.len() == 3
    &&& commands[0] matches StoreCommand::PutTask { key, task: written, ttl_secs } && key@
        == "task:"@ + task.id@ && written == task && ttl_secs == 7 * 86_400
    &&& commands[1] matches StoreCommand::AddMember { set, member } && set@ == index && member@
        == task.id@
    &&& commands[2] matches StoreCommand::Expire { key, secs } && key@ == index && secs == 8
        * 86_400
}

/// Whether commands write one notification under its key, for a day if it informs and for
/// thirty days if it warns, and enter it in the index of its user; and do nothing else.
pub open spec fn writes_notification(
    commands: Seq<StoreCommand>,
    notif: InAppNotification,
) -> bool {
    let user = text::decimal_text(notif.user_id as int);
    let index = "notif:index:"@ + user;
    &&& commands.len() == 3
    &&& commands[0] matches StoreCommand::PutNotification { key, notification, ttl_secs } && key@
        == "notif:"@ + user + ":"@ + notif.id@ && notification == notif && ttl_secs == (if matches!(
        notif.severity,
        MsgSeverity::Warning | MsgSeverity::Error
    ) {
        30 * 86_400int
    } else {
        86_400int
    })
    &&& commands[1] matches StoreCommand::AddMember { set, member } && set@ == index && member@
        == notif.id@
    &&& commands[2] matches StoreCommand::Expire { key, secs } && key@ == index && secs == 31
        * 86_400
}

/// Whether commands remove the notification with an id from a user: its key and its entry in
/// the index; and do nothing else.
pub open spec fn removes_notification(
    commands: Seq<StoreCommand>,
    user_id: i32,
    id: Seq<char>,
) -> bool {
    let user = text::decimal_text(user_id as int);
    &&& commands.len() == 2
    &&& commands[0] matches StoreCommand::Delete { key } && key@ == "notif:"@ + user + ":"@ + id
    &&& commands[1] matches StoreCommand::RemoveMember { set, member } && set@ == "notif:index:"@
        + user && member@ == id
}

/// Whether signals send one update to the sockets here and, stamped with this replica, to the
/// other replicas; and nothing else.
pub open spec fn tells_everyone(
    signals: Seq<Signal>,
    replica: Seq<char>,
    update: TaskUpdate,
) -> bool {
    &&& signals.len() == 2
    &&& signals[0] == Signal::LocalUpdate(update)
    &&& signals[1] matches Signal::Publish(packet) && packet.instance_id@ == replica
        && packet.event == BridgeEvent::Task(update)
}

/// Whether an update tells of a task as it is: of the same task and user, as far as it has come
/// and with what its card shows.
pub open spec fn describes(update: TaskUpdate, task: TaskInfo) -> bool {
    &&& update.task_id@ == task.id@
    &&& update.user_id == task.user_id
    &&& update.progress == task.progress
    &&& update.status == task.status
    &&& update.art_url == task.art_url
    &&& update.detail == task.detail
    &&& update.group == task.group
    &&& update.group_label == task.group_label
    &&& update.total == task.total
    &&& update.started_at@ == moment::rfc3339_text(
        task.created_at.second(),
        task.created_at.nano(),
    )
    &&& update.completed_at is Some == task.completed_at is Some
    &&& task.completed_at matches Some(t) ==> update.completed_at->0@ == moment::rfc3339_text(
        t.second(),
        t.nano(),
    )
}

/// Whether a plan stores a task and tells everyone of it, as it is stored.
pub open spec fn stores_and_tells(plan: Plan, replica: Seq<char>, task: TaskInfo) -> bool {
    &&& writes_task(plan.writes@, task)
    &&& plan.signals@.len() == 2
    &&& plan.signals@[0] is LocalUpdate
    &&& describes(plan.signals@[0]->LocalUpdate_0, task)
    &&& tells_everyone(plan.signals@, replica, plan.signals@[0]->LocalUpdate_0)
}

/// The task that a plan stores.
pub open spec fn stored(plan: Plan) -> TaskInfo {
    plan.writes@[0]->PutTask_task
}

/// The update that a plan sends.
pub open spec fn sent(plan: Plan) -> TaskUpdate {
    plan.signals@[0]->LocalUpdate_0
}

proof fn lemma_writes_task(commands: Seq<StoreCommand>, task: TaskInfo)
    requires
        crate::store::ops(commands) == task_manager::save_task_ops(task),
    ensures
        writes_task(commands, task),
        commands[0]->PutTask_task == task,
{
    let ops = task_manager::save_task_ops(task);
    assert(commands.len() == ops.len());
    assert(crate::store::ops(commands)[0] == commands[0]@);
    assert(crate::store::ops(commands)[1] == commands[1]@);
    assert(crate::store::ops(commands)[2] == commands[2]@);
}

proof fn lemma_stores_and_tells(
    plan: Plan,
    instance_id: String,
    task: TaskInfo,
    item_id: Option<i32>,
)
    requires
        plan.saves(task),
        plan.announces(instance_id),
        task_manager::tells(plan.update(), task, item_id),
    ensures
        stores_and_tells(plan, instance_id@, task),
        stored(plan) == task,
        sent(plan) == plan.update(),
        sent(plan).item_id == item_id,
{
    lemma_writes_task(plan.writes@, task);
    assert(plan.signals@ == task_manager::update_signals(instance_id, plan.update()));
}

// ---- the life of a task ----

/// A task that is created is stored as it was asked for: pending, at zero, not dated as ended,
/// with nothing to show yet; and everyone is told of it, with the item it works on.
pub proof fn law_creation_stores_what_was_asked(
    manager: TaskManager,
    id: String,
    task_type: String,
    user_id: i32,
    item_id: Option<i32>,
    names: (Option<String>, Option<String>),
    created_at: Timestamp,
    updated_at: Timestamp,
    plan: Plan,
)
    requires
        call_ensures(
            TaskManager::create_task_at,
            (
                &manager,
                id,
                task_type,
                user_id,
                item_id,
                names.0,
                names.1,
                created_at,
                updated_at,
            ),
            plan,
        ),
    ensures
        stores_and_tells(plan, manager.instance_id@, stored(plan)),
        stored(plan).id == id,
        stored(plan).task_type == task_type,
        stored(plan).user_id == user_id,
        stored(plan).status is Pending,
        stored(plan).progress.bits == 0,
        stored(plan).message is None,
        stored(plan).created_at == created_at,
        stored(plan).updated_at == updated_at,
        stored(plan).result is None,
        stored(plan).episode_title == names.0,
        stored(plan).podcast_name == names.1,
        stored(plan).completed_at is None,
        stored(plan).art_url is None,
        stored(plan).detail is None,
        stored(plan).group is None,
        stored(plan).group_label is None,
        stored(plan).total is None,
        sent(plan).task_type == task_type,
        sent(plan).item_id == item_id,
        json::is_object(sent(plan).details),
        forall|key: Seq<char>| !(#[trigger] json::members(sent(plan).details).contains_key(key)),
{
    let task = task_manager::new_task(
        id,
        task_type,
        user_id,
        names.0,
        names.1,
        created_at,
        updated_at,
    );
    lemma_stores_and_tells(plan, manager.instance_id, task, item_id);
}

/// Whether a plan creates a task under an id: pending and at zero, of the type and user asked
/// for and with these names, and told of with the item it works on.
pub open spec fn creates(
    plan: Plan,
    replica: Seq<char>,
    id: Seq<char>,
    task_type: String,
    user_id: i32,
    item_id: Option<i32>,
    names: (Option<String>, Option<String>),
) -> bool {
    &&& stores_and_tells(plan, replica, stored(plan))
    &&& stored(plan).id@ == id
    &&& stored(plan).task_type == task_type
    &&& stored(plan).user_id == user_id
    &&& stored(plan).status is Pending
    &&& stored(plan).progress.bits == 0
    &&& stored(plan).completed_at is None
    &&& stored(plan).episode_title == names.0
    &&& stored(plan).podcast_name == names.1
    &&& stored(plan).message is None
    &&& stored(plan).result is None
    &&& stored(plan).art_url is None
    &&& stored(plan).detail is None
    &&& stored(plan).group is None
    &&& stored(plan).group_label is None
    &&& stored(plan).total is None
    &&& json::is_object(sent(plan).details)
    &&& forall|key: Seq<char>| !(#[trigger] json::members(sent(plan).details).contains_key(key))
    &&& sent(plan).task_type == task_type
    &&& sent(plan).item_id == item_id
}

/// Every way of creating a task stores it under the id that is handed back, and tells of it:
/// the plain ones name no episode, and only those that are given an item tell of one.
pub proof fn law_created_task_has_the_id_handed_back(
    manager: TaskManager,
    task_type: String,
    user_id: i32,
    item_id: Option<i32>,
    names: (Option<String>, Option<String>),
    plain: (String, Plan),
    on_item: (String, Plan),
    download: (String, Plan),
)
    requires
        call_ensures(TaskManager::create_task, (&manager, task_type, user_id), plain),
        call_ensures(
            TaskManager::create_task_with_item_id,
            (&manager, task_type, user_id, item_id),
            on_item,
        ),
        call_ensures(
            TaskManager::create_download_task,
            (&manager, task_type, user_id, item_id, names.0, names.1),
            download,
        ),
    ensures
        creates(
            plain.1,
            manager.instance_id@,
            plain.0@,
            task_type,
            user_id,
            None,
            (None, None),
        ),
        creates(
            on_item.1,
            manager.instance_id@,
            on_item.0@,
            task_type,
            user_id,
            item_id,
            (None, None),
        ),
        creates(
            download.1,
            manager.instance_id@,
            download.0@,
            task_type,
            user_id,
            item_id,
            names,
        ),
        plain.0@.len() == 36,
        on_item.0@.len() == 36,
        download.0@.len() == 36,
{
    let (t, u) = choose|t: Timestamp, u: Timestamp|
        task_manager::stored_and_told(
            plain.1,
            manager.instance_id,
            #[trigger] task_manager::new_task(plain.0, task_type, user_id, None, None, t, u),
            None,
        );
    let task = task_manager::new_task(plain.0, task_type, user_id, None, None, t, u);
    lemma_stores_and_tells(plain.1, manager.instance_id, task, None);
    let (t, u) = choose|t: Timestamp, u: Timestamp|
        task_manager::stored_and_told(
            on_item.1,
            manager.instance_id,
            #[trigger] task_manager::new_task(on_item.0, task_type, user_id, None, None, t, u),
            item_id,
        );
    let task = task_manager::new_task(on_item.0, task_type, user_id, None, None, t, u);
    lemma_stores_and_tells(on_item.1, manager.instance_id, task, item_id);
    let (t, u) = choose|t: Timestamp, u: Timestamp|
        task_manager::stored_and_told(
            download.1,
            manager.instance_id,
            #[trigger] task_manager::new_task(
                download.0,
                task_type,
                user_id,
                names.0,
                names.1,
                t,
                u,
            ),
            item_id,
        );
    let task = task_manager::new_task(download.0, task_type, user_id, names.0, names.1, t, u);
    lemma_stores_and_tells(download.1, manager.instance_id, task, item_id);
}

/// A display shows what it is given and keeps what it is not: each of its parts is the one
/// given, or else the one the task had. Nothing else of the task changes but the instant of its
/// last change, and everyone is told.
pub proof fn law_display_keeps_what_is_not_given(
    manager: TaskManager,
    task: TaskInfo,
    art_url: Option<String>,
    detail: Option<String>,
    group: Option<String>,
    group_label: Option<String>,
    total: Option<i32>,
    now: Timestamp,
    plan: Plan,
)
    requires
        call_ensures(
            TaskManager::set_task_display_at,
            (&manager, task, art_url, detail, group, group_label, total, now),
            plan,
        ),
    ensures
        stores_and_tells(plan, manager.instance_id@, stored(plan)),
        art_url is Some ==> stored(plan).art_url == art_url,
        art_url is None ==> stored(plan).art_url == task.art_url,
        detail is Some ==> stored(plan).detail == detail,
        detail is None ==> stored(plan).detail == task.detail,
        group is Some ==> stored(plan).group == group,
        group is None ==> stored(plan).group == task.group,
        group_label is Some ==> stored(plan).group_label == group_label,
        group_label is None ==> stored(plan).group_label == task.group_label,
        total is Some ==> stored(plan).total == total,
        total is None ==> stored(plan).total == task.total,
        stored(plan).updated_at == now,
        // the task is otherwise the same
        task == (TaskInfo {
            art_url: task.art_url,
            detail: task.detail,
            group: task.group,
            group_label: task.group_label,
            total: task.total,
            updated_at: task.updated_at,
            ..stored(plan)
        }),
        sent(plan).task_type == task.task_type,
        sent(plan).item_id is None,
        json::is_object(sent(plan).details),
        forall|key: Seq<char>| !(#[trigger] json::members(sent(plan).details).contains_key(key)),
{
    let after = task_manager::displayed(task, art_url, detail, group, group_label, total, now);
    lemma_stores_and_tells(plan, manager.instance_id, after, None);
}

/// A display that is set at the present does the same.
pub proof fn law_display_now_keeps_what_is_not_given(
    manager: TaskManager,
    task: TaskInfo,
    art_url: Option<String>,
    detail: Option<String>,
    group: Option<String>,
    group_label: Option<String>,
    total: Option<i32>,
    plan: Plan,
)
    requires
        call_ensures(
            TaskManager::set_task_display,
            (&manager, task, art_url, detail, group, group_label, total),
            plan,
        ),
    ensures
        stores_and_tells(plan, manager.instance_id@, stored(plan)),
        stored(plan).art_url == (if art_url is Some { art_url } else { task.art_url }),
        stored(plan).detail == (if detail is Some { detail } else { task.detail }),
        stored(plan).group == (if group is Some { group } else { task.group }),
        stored(plan).group_label == (if group_label is Some {
            group_label
        } else {
            task.group_label
        }),
        stored(plan).total == (if total is Some { total } else { task.total }),
        task == (TaskInfo {
            art_url: task.art_url,
            detail: task.detail,
            group: task.group,
            group_label: task.group_label,
            total: task.total,
            updated_at: task.updated_at,
            ..stored(plan)
        }),
        sent(plan).task_type == task.task_type,
        sent(plan).item_id is None,
        json::is_object(sent(plan).details),
        forall|key: Seq<char>| !(#[trigger] json::members(sent(plan).details).contains_key(key)),
{
    let now = choose|now: Timestamp|
        task_manager::stored_and_told(
            plan,
            manager.instance_id,
            #[trigger] task_manager::displayed(
                task,
                art_url,
                detail,
                group,
                group_label,
                total,
                now,
            ),
            None,
        );
    let after = task_manager::displayed(task, art_url, detail, group, group_label, total, now);
    lemma_stores_and_tells(plan, manager.instance_id, after, None);
}

/// Naming the episode and the podcast of a task changes these names alone, to what is given,
/// and raises nothing.
pub proof fn law_naming_is_silent(
    manager: TaskManager,
    task: TaskInfo,
    episode_title: Option<String>,
    podcast_name: Option<String>,
    now: Timestamp,
    plan: Plan,
    at_once: Plan,
)
    requires
        call_ensures(
            TaskManager::set_task_metadata_at,
            (&manager, task, episode_title, podcast_name, now),
            plan,
        ),
        call_ensures(
            TaskManager::set_task_metadata,
            (&manager, task, episode_title, podcast_name),
            at_once,
        ),
    ensures
        writes_task(plan.writes@, stored(plan)),
        plan.signals@.len() == 0,
        stored(plan).episode_title == episode_title,
        stored(plan).podcast_name == podcast_name,
        stored(plan).updated_at == now,
        task == (TaskInfo {
            episode_title: task.episode_title,
            podcast_name: task.podcast_name,
            updated_at: task.updated_at,
            ..stored(plan)
        }),
        writes_task(at_once.writes@, stored(at_once)),
        at_once.signals@.len() == 0,
        stored(plan) == (TaskInfo { updated_at: now, ..stored(at_once) }),
{
    lemma_writes_task(
        plan.writes@,
        task_manager::named(task, episode_title, podcast_name, now),
    );
    let then = choose|then: Timestamp|
        at_once.saves(#[trigger] task_manager::named(task, episode_title, podcast_name, then));
    lemma_writes_task(
        at_once.writes@,
        task_manager::named(task, episode_title, podcast_name, then),
    );
}

/// Whether progress that was reported is what is stored and sent: a number from zero to a
/// hundred as it is, whatever had been reported before and whatever the task's status; one
/// below zero as zero, and one above a hundred as a hundred. What is no number stays none.
pub open spec fn keeps_progress(reported: Double, kept: Double) -> bool {
    let zero = Double { bits: 0 };
    let hundred = Double { bits: 0x4059_0000_0000_0000 };
    &&& !reported.nan() && !reported.below(zero) && !hundred.below(reported) ==> kept == reported
    &&& reported.below(zero) ==> kept == zero
    &&& hundred.below(reported) ==> kept == hundred
    &&& reported.nan() ==> kept == reported
}

/// Whether a status follows another by a report of progress: a pending task starts once
/// there is any, and no other status changes.
pub open spec fn follows_by_progress(
    before: TaskStatus,
    reported: Double,
    after: TaskStatus,
) -> bool {
    &&& before is Pending && (Double { bits: 0 }).below(reported) ==> after is Running
    &&& before is Pending && !(Double { bits: 0 }).below(reported) ==> after is Pending
    &&& !(before is Pending) ==> after == before
}

/// Progress that is reported is stored and sent as it was reported, for a task of any status,
/// held between zero and a hundred; a pending task starts once there is any. The message is
/// the one reported, and nothing else of the task changes.
pub proof fn law_progress_is_kept_as_reported(
    manager: TaskManager,
    task: TaskInfo,
    progress: Double,
    message: Option<String>,
    item_id: Option<i32>,
    task_type: Option<String>,
    episode_title: Option<String>,
    now: Timestamp,
    plan: Plan,
)
    requires
        call_ensures(
            TaskManager::update_task_progress_at,
            (&manager, task, progress, message, item_id, task_type, episode_title, now),
            plan,
        ),
    ensures
        stores_and_tells(plan, manager.instance_id@, stored(plan)),
        keeps_progress(progress, stored(plan).progress),
        keeps_progress(progress, sent(plan).progress),
        follows_by_progress(task.status, progress, stored(plan).status),
        follows_by_progress(task.status, progress, sent(plan).status),
        stored(plan).message == message,
        stored(plan).updated_at == now,
        task == (TaskInfo {
            progress: task.progress,
            status: task.status,
            message: task.message,
            updated_at: task.updated_at,
            ..stored(plan)
        }),
{
    let after = task_manager::progressed(task, progress, message, now);
    lemma_stores_and_tells(plan, manager.instance_id, after, item_id);
}

/// An update on progress names the item, the type and the episode that the report names, the
/// task's own type where it names none, and says what the message says.
pub proof fn law_progress_update_says_what_was_reported(
    manager: TaskManager,
    task: TaskInfo,
    progress: Double,
    message: Option<String>,
    item_id: Option<i32>,
    task_type: Option<String>,
    episode_title: Option<String>,
    now: Timestamp,
    plan: Plan,
)
    requires
        call_ensures(
            TaskManager::update_task_progress_at,
            (&manager, task, progress, message, item_id, task_type, episode_title, now),
            plan,
        ),
    ensures
        sent(plan).item_id == item_id,
        task_type matches Some(t) ==> sent(plan).task_type == t,
        task_type is None ==> sent(plan).task_type == task.task_type,
        ({
            let m = json::members(sent(plan).details);
            &&& json::is_object(sent(plan).details)
            &&& m.contains_key("status_text"@)
            &&& message matches Some(t) ==> json::as_text(m["status_text"@]) == Some(t@)
            &&& message is None ==> json::as_text(m["status_text"@]) == Some("Processing..."@)
            &&& m.contains_key("episode_id"@) == item_id is Some
            &&& item_id matches Some(id) ==> json::as_integer(m["episode_id"@]) == Some(id as i64)
            &&& m.contains_key("episode_title"@) == episode_title is Some
            &&& episode_title matches Some(t) ==> json::as_text(m["episode_title"@]) == Some(t@)
            &&& forall|key: Seq<char>| #[trigger]
                m.contains_key(key) ==> key == "status_text"@ || key == "episode_id"@ || key
                    == "episode_title"@
        }),
{
    let after = task_manager::progressed(task, progress, message, now);
    lemma_stores_and_tells(plan, manager.instance_id, after, item_id);
    reveal_strlit("status_text");
    reveal_strlit("episode_id");
    reveal_strlit("episode_title");
    assert("status_text"@.len() == 11);
    assert("episode_id"@.len() == 10);
    assert("episode_title"@.len() == 13);
}

/// Whether a plan stores and sends a report of progress as it was made, and changes nothing else
/// of the task but the instant of its last change.
pub open spec fn keeps_report(
    plan: Plan,
    replica: Seq<char>,
    task: TaskInfo,
    progress: Double,
    message: Option<String>,
) -> bool {
    &&& stores_and_tells(plan, replica, stored(plan))
    &&& keeps_progress(progress, stored(plan).progress)
    &&& keeps_progress(progress, sent(plan).progress)
    &&& follows_by_progress(task.status, progress, stored(plan).status)
    &&& follows_by_progress(task.status, progress, sent(plan).status)
    &&& stored(plan).message == message
    &&& task == (TaskInfo {
        progress: task.progress,
        status: task.status,
        message: task.message,
        updated_at: task.updated_at,
        ..stored(plan)
    })
    &&& json::as_text(json::members(sent(plan).details)["status_text"@]) == Some(
        if message is Some {
            message->0@
        } else {
            "Processing..."@
        },
    )
}

/// Every way of reporting progress keeps it as it was reported.
pub proof fn law_every_report_keeps_progress(
    manager: TaskManager,
    task: TaskInfo,
    progress: Double,
    message: Option<String>,
    item_id: Option<i32>,
    task_type: Option<String>,
    episode_title: Option<String>,
    plain: Plan,
    on_item: Plan,
    detailed: Plan,
)
    requires
        call_ensures(
            TaskManager::update_task_progress,
            (&manager, task, progress, message),
            plain,
        ),
        call_ensures(
            TaskManager::update_task_progress_with_item_id,
            (&manager, task, progress, message, item_id, task_type),
            on_item,
        ),
        call_ensures(
            TaskManager::update_task_progress_with_details,
            (&manager, task, progress, message, item_id, task_type, episode_title),
            detailed,
        ),
    ensures
        keeps_report(plain, manager.instance_id@, task, progress, message),
        keeps_report(on_item, manager.instance_id@, task, progress, message),
        keeps_report(detailed, manager.instance_id@, task, progress, message),
        sent(plain).item_id is None,
        sent(plain).task_type == task.task_type,
        sent(on_item).item_id == item_id,
        sent(on_item).task_type == (if task_type is Some {
            task_type->0
        } else {
            task.task_type
        }),
        sent(detailed).item_id == item_id,
        sent(detailed).task_type == sent(on_item).task_type,
        json::members(sent(plain).details).contains_key("episode_id"@) == false,
        json::members(sent(on_item).details).contains_key("episode_id"@) == item_id is Some,
        json::members(sent(on_item).details).contains_key("episode_title"@) == false,
        json::members(sent(detailed).details).contains_key("episode_id"@) == item_id is Some,
        json::members(sent(detailed).details).contains_key("episode_title"@)
            == episode_title is Some,
        episode_title is Some ==> json::as_text(
            json::members(sent(detailed).details)["episode_title"@],
        ) == Some(episode_title->0@),
        item_id is Some ==> json::as_integer(json::members(sent(on_item).details)["episode_id"@])
            == Some(item_id->0 as i64),
        item_id is Some ==> json::as_integer(json::members(sent(detailed).details)["episode_id"@])
            == Some(item_id->0 as i64),
        forall|key: Seq<char>| #[trigger]
            json::members(sent(plain).details).contains_key(key) <==> key == "status_text"@,
        forall|key: Seq<char>| #[trigger]
            json::members(sent(on_item).details).contains_key(key) ==> key == "status_text"@ || key
                == "episode_id"@,
        forall|key: Seq<char>| #[trigger]
            json::members(sent(detailed).details).contains_key(key) ==> key == "status_text"@ || key
                == "episode_id"@ || key == "episode_title"@,
{
    reveal_strlit("status_text");
    reveal_strlit("episode_id");
    reveal_strlit("episode_title");
    assert("status_text"@.len() == 11);
    assert("episode_id"@.len() == 10);
    assert("episode_title"@.len() == 13);
    let now = choose|now: Timestamp|
        #[trigger] task_manager::reported(
            plain,
            manager.instance_id,
            task,
            progress,
            message,
            None,
            None,
            None,
            now,
        );
    let after = task_manager::progressed(task, progress, message, now);
    lemma_stores_and_tells(plain, manager.instance_id, after, None);
    let now = choose|now: Timestamp|
        #[trigger] task_manager::reported(
            on_item,
            manager.instance_id,
            task,
            progress,
            message,
            item_id,
            task_type,
            None,
            now,
        );
    let after = task_manager::progressed(task, progress, message, now);
    lemma_stores_and_tells(on_item, manager.instance_id, after, item_id);
    let now = choose|now: Timestamp|
        #[trigger] task_manager::reported(
            detailed,
            manager.instance_id,
            task,
            progress,
            message,
            item_id,
            task_type,
            episode_title,
            now,
        );
    let after = task_manager::progressed(task, progress, message, now);
    lemma_stores_and_tells(detailed, manager.instance_id, after, item_id);
}

/// A task that is completed stands at a hundred, is dated, and carries the result and the
/// message it was completed with; everyone is told of both. The reason why an earlier attempt
/// failed and all else about the task stays.
pub proof fn law_completed_task_is_whole(
    manager: TaskManager,
    task: TaskInfo,
    result: Option<serde_json::Value>,
    message: Option<String>,
    completed_at: Timestamp,
    updated_at: Timestamp,
    plan: Plan,
)
    requires
        call_ensures(
            TaskManager::complete_task_at,
            (&manager, task, result, message, completed_at, updated_at),
            plan,
        ),
    ensures
        stores_and_tells(plan, manager.instance_id@, stored(plan)),
        stored(plan).status is Completed,
        stored(plan).progress.bits == 0x4059_0000_0000_0000,
        stored(plan).message == message,
        stored(plan).result == result,
        stored(plan).completed_at == Some(completed_at),
        stored(plan).updated_at == updated_at,
        task == (TaskInfo {
            status: task.status,
            progress: task.progress,
            message: task.message,
            result: task.result,
            completed_at: task.completed_at,
            updated_at: task.updated_at,
            ..stored(plan)
        }),
        sent(plan).task_type == task.task_type,
        sent(plan).item_id is None,
        ({
            let m = json::members(sent(plan).details);
            &&& json::is_object(sent(plan).details)
            &&& m.contains_key("status_text"@) && m.contains_key("result"@)
            &&& message matches Some(t) ==> json::as_text(m["status_text"@]) == Some(t@)
            &&& message is None ==> json::as_text(m["status_text"@]) == Some("Completed"@)
            &&& result matches Some(v) ==> m["result"@] == v
            &&& result is None ==> json::is_null(m["result"@])
            &&& forall|key: Seq<char>| #[trigger]
                m.contains_key(key) ==> key == "status_text"@ || key == "result"@
        }),
{
    let after = task_manager::completed(task, result, message, completed_at, updated_at);
    lemma_stores_and_tells(plan, manager.instance_id, after, None);
}

/// A task that fails is dated and says why: as its message, in the line below its title and in
/// the update. It stays as far as it had come, and all else about it stays too.
pub proof fn law_failed_task_says_why(
    manager: TaskManager,
    task: TaskInfo,
    reason: String,
    completed_at: Timestamp,
    updated_at: Timestamp,
    plan: Plan,
)
    requires
        call_ensures(
            TaskManager::fail_task_at,
            (&manager, task, reason, completed_at, updated_at),
            plan,
        ),
    ensures
        stores_and_tells(plan, manager.instance_id@, stored(plan)),
        stored(plan).status is Failed,
        stored(plan).progress == task.progress,
        stored(plan).message == Some(reason),
        stored(plan).detail == Some(reason),
        stored(plan).completed_at == Some(completed_at),
        stored(plan).updated_at == updated_at,
        task == (TaskInfo {
            status: task.status,
            message: task.message,
            detail: task.detail,
            completed_at: task.completed_at,
            updated_at: task.updated_at,
            ..stored(plan)
        }),
        sent(plan).task_type == task.task_type,
        sent(plan).item_id is None,
        ({
            let m = json::members(sent(plan).details);
            &&& json::is_object(sent(plan).details)
            &&& m.contains_key("status_text"@) && m.contains_key("error"@)
            &&& json::as_text(m["status_text"@]) == Some(reason@)
            &&& json::as_text(m["error"@]) == Some(reason@)
            &&& forall|key: Seq<char>| #[trigger]
                m.contains_key(key) ==> key == "status_text"@ || key == "error"@
        }),
{
    let after = task_manager::failed(task, reason, completed_at, updated_at);
    lemma_stores_and_tells(plan, manager.instance_id, after, None);
}

/// Ending a task at the present does what ending it at given instants does.
pub proof fn law_tasks_end_now_as_they_end(
    manager: TaskManager,
    task: TaskInfo,
    result: Option<serde_json::Value>,
    message: Option<String>,
    reason: String,
    done: Plan,
    gone: Plan,
)
    requires
        call_ensures(TaskManager::complete_task, (&manager, task, result, message), done),
        call_ensures(TaskManager::fail_task, (&manager, task, reason), gone),
    ensures
        stores_and_tells(done, manager.instance_id@, stored(done)),
        stored(done).status is Completed,
        stored(done).progress.bits == 0x4059_0000_0000_0000,
        stored(done).message == message,
        stored(done).result == result,
        stored(done).completed_at is Some,
        task == (TaskInfo {
            status: task.status,
            progress: task.progress,
            message: task.message,
            result: task.result,
            completed_at: task.completed_at,
            updated_at: task.updated_at,
            ..stored(done)
        }),
        json::as_text(json::members(sent(done).details)["status_text"@]) == Some(
            if message is Some {
                message->0@
            } else {
                "Completed"@
            },
        ),
        result is Some ==> json::members(sent(done).details)["result"@] == result->0,
        result is None ==> json::is_null(json::members(sent(done).details)["result"@]),
        forall|key: Seq<char>| #[trigger]
            json::members(sent(done).details).contains_key(key) <==> key == "status_text"@ || key
                == "result"@,
        sent(done).task_type == task.task_type && sent(done).item_id is None,
        forall|key: Seq<char>| #[trigger]
            json::members(sent(gone).details).contains_key(key) <==> key == "status_text"@ || key
                == "error"@,
        sent(gone).task_type == task.task_type && sent(gone).item_id is None,
        stores_and_tells(gone, manager.instance_id@, stored(gone)),
        stored(gone).status is Failed,
        stored(gone).message == Some(reason),
        stored(gone).detail == Some(reason),
        stored(gone).completed_at is Some,
        task == (TaskInfo {
            status: task.status,
            message: task.message,
            detail: task.detail,
            completed_at: task.completed_at,
            updated_at: task.updated_at,
            ..stored(gone)
        }),
        json::as_text(json::members(sent(gone).details)["status_text"@]) == Some(reason@),
        json::as_text(json::members(sent(gone).details)["error"@]) == Some(reason@),
{
    let (t, u) = choose|t: Timestamp, u: Timestamp|
        #[trigger] task_manager::finished(done, manager.instance_id, task, result, message, t, u);
    lemma_stores_and_tells(
        done,
        manager.instance_id,
        task_manager::completed(task, result, message, t, u),
        None,
    );
    let (t, u) = choose|t: Timestamp, u: Timestamp|
        #[trigger] task_manager::gave_up(gone, manager.instance_id, task, reason, t, u);
    lemma_stores_and_tells(
        gone,
        manager.instance_id,
        task_manager::failed(task, reason, t, u),
        None,
    );
}

/// Reading a task back after a request: what the store found is handed on as it is, and what
/// it did not find is no task.
pub proof fn law_found_task_is_handed_on(
    manager: TaskManager,
    fetched: Fetched<TaskInfo>,
    r: Result<TaskInfo, task_manager::LoadError>,
)
    requires
        call_ensures(TaskManager::get_task, (&manager, fetched), r),
    ensures
        r is Ok == fetched is Found,
        fetched matches Fetched::Found(task) ==> r->Ok_0 == task,
        fetched is Missing ==> r->Err_0 is Missing,
        fetched is Unreadable ==> r->Err_0 is Unreadable,
        fetched is Failed ==> r->Err_0 is Failed,
{
}

// ---- lists ----

/// Whether an instant comes after another, by its seconds and then by its nanoseconds.
pub open spec fn after(a: Timestamp, b: Timestamp) -> bool {
    a.second() > b.second() || (a.second() == b.second() && a.nano() > b.nano())
}

/// Whether two instants are the same.
pub open spec fn same_instant(a: Timestamp, b: Timestamp) -> bool {
    a.second() == b.second() && a.nano() == b.nano()
}

/// Whether the store found a notification that expires after an instant.
pub open spec fn is_live(fetched: Fetched<InAppNotification>, now: Timestamp) -> bool {
    fetched is Found && after(fetched->Found_0.expires_at, now)
}

proof fn lemma_live(replies: Seq<(String, Fetched<InAppNotification>)>, now: Timestamp)
    ensures
        task_manager::live_notifications(replies, now) == replies.filter(
            |p: (String, Fetched<InAppNotification>)| is_live(p.1, now),
        ).map_values(|p: (String, Fetched<InAppNotification>)| p.1->Found_0),
    decreases replies.len(),
{
    let keep = |p: (String, Fetched<InAppNotification>)| is_live(p.1, now);
    let take = |p: (String, Fetched<InAppNotification>)| p.1->Found_0;
    if replies.len() == 0 {
        assert(replies.filter(keep) =~= Seq::empty());
        assert(replies.filter(keep).map_values(take) =~= Seq::empty());
    } else {
        let rest = replies.drop_last();
        let last = replies.last();
        lemma_live(rest, now);
        assert(rest.push(last) =~= replies);
        rest.lemma_filter_push(last, keep);
        assert(task_manager::live_notifications(replies, now) =~= replies.filter(keep).map_values(
            take,
        ));
    }
}

proof fn lemma_found(replies: Seq<(String, Fetched<TaskInfo>)>)
    ensures
        task_manager::found_tasks(replies) == replies.filter(
            |p: (String, Fetched<TaskInfo>)| p.1 is Found,
        ).map_values(|p: (String, Fetched<TaskInfo>)| p.1->Found_0),
    decreases replies.len(),
{
    let keep = |p: (String, Fetched<TaskInfo>)| p.1 is Found;
    let take = |p: (String, Fetched<TaskInfo>)| p.1->Found_0;
    if replies.len() == 0 {
        assert(replies.filter(keep) =~= Seq::empty());
        assert(replies.filter(keep).map_values(take) =~= Seq::empty());
    } else {
        let rest = replies.drop_last();
        let last = replies.last();
        lemma_found(rest);
        assert(rest.push(last) =~= replies);
        rest.lemma_filter_push(last, keep);
        assert(task_manager::found_tasks(replies) =~= replies.filter(keep).map_values(take));
    }
}

proof fn lemma_same_notifications(list: Seq<InAppNotification>, then: Timestamp)
    ensures
        order::ordered(list).filter(|n: InAppNotification| same_instant(n.created_at, then))
            == list.filter(|n: InAppNotification| same_instant(n.created_at, then)),
{
    let same = |n: InAppNotification| same_instant(n.created_at, then);
    if exists|model: InAppNotification| same_instant(#[trigger] model.created_at, then) {
        let model = choose|model: InAppNotification| same_instant(#[trigger] model.created_at,
            then);
        assert(order::all_placed(list));
        order::law_ordering_is_stable(list, model);
        assert(same =~= (|n: InAppNotification| order::tied(model, n)));
    } else {
        assert forall|n: InAppNotification| !(#[trigger] same(n)) by {
            assert(!same_instant(n.created_at, then));
        }
        lemma_none(list, same);
        lemma_none(order::ordered(list), same);
    }
}

proof fn lemma_same_tasks(list: Seq<TaskInfo>, then: Timestamp)
    ensures
        order::ordered(list).filter(|t: TaskInfo| same_instant(t.created_at, then)) == list.filter(
            |t: TaskInfo| same_instant(t.created_at, then),
        ),
{
    let same = |t: TaskInfo| same_instant(t.created_at, then);
    if exists|model: TaskInfo| same_instant(#[trigger] model.created_at, then) {
        let model = choose|model: TaskInfo| same_instant(#[trigger] model.created_at, then);
        assert(order::all_placed(list));
        order::law_ordering_is_stable(list, model);
        assert(same =~= (|t: TaskInfo| order::tied(model, t)));
    } else {
        assert forall|t: TaskInfo| !(#[trigger] same(t)) by {
            assert(!same_instant(t.created_at, then));
        }
        lemma_none(list, same);
        lemma_none(order::ordered(list), same);
    }
}

proof fn lemma_none<T>(list: Seq<T>, keep: spec_fn(T) -> bool)
    requires
        forall|t: T| !(#[trigger] keep(t)),
    ensures
        list.filter(keep) == Seq::<T>::empty(),
    decreases list.len(),
{
    if list.len() == 0 {
        assert(list.filter(keep) =~= Seq::<T>::empty());
    } else {
        lemma_none(list.drop_last(), keep);
        assert(list.drop_last().push(list.last()) =~= list);
        list.drop_last().lemma_filter_push(list.last(), keep);
    }
}

/// A list of notifications stands newest first: none was created after one that stands before
/// it. It holds what the store found and what expires after the instant of the list, each as often
/// as it was found, and nothing else; what was created at the same instant stands as it was found.
pub proof fn law_notifications_are_listed_newest_first(
    manager: TaskManager,
    user_id: i32,
    replies: Vec<(String, Fetched<InAppNotification>)>,
    now: Timestamp,
    r: (Vec<InAppNotification>, Vec<StoreCommand>),
    then: Timestamp,
)
    requires
        call_ensures(TaskManager::list_notifications, (&manager, user_id, replies, now), r),
    ensures
        forall|i: int, j: int|
            0 <= i < j < r.0@.len() ==> !after(
                (#[trigger] r.0@[j]).created_at,
                (#[trigger] r.0@[i]).created_at,
            ),
        forall|notif: InAppNotification| #[trigger]
            r.0@.contains(notif) <==> after(notif.expires_at, now) && (exists|i: int|
                0 <= i < replies@.len() && (#[trigger] replies@[i]).1 == Fetched::Found(notif)),
        r.0@.to_multiset() == replies@.filter(
            |p: (String, Fetched<InAppNotification>)| is_live(p.1, now),
        ).map_values(|p: (String, Fetched<InAppNotification>)| p.1->Found_0).to_multiset(),
        r.0@.filter(|n: InAppNotification| same_instant(n.created_at, then)) == replies@.filter(
            |p: (String, Fetched<InAppNotification>)| is_live(p.1, now),
        ).map_values(|p: (String, Fetched<InAppNotification>)| p.1->Found_0).filter(
            |n: InAppNotification| same_instant(n.created_at, then),
        ),
{
    lemma_live(replies@, now);
    order::law_ordering_keeps_items(task_manager::live_notifications(replies@, now));
    lemma_same_notifications(task_manager::live_notifications(replies@, now), then);
    let live = task_manager::live_notifications(replies@, now);
    assert(order::all_placed(live));
    order::law_ordering_orders(live);
    assert forall|i: int, j: int| 0 <= i < j < r.0@.len() implies !after(
        (#[trigger] r.0@[j]).created_at,
        (#[trigger] r.0@[i]).created_at,
    ) by {
        assert(order::in_order(r.0@));
    }
    assert forall|notif: InAppNotification| #[trigger]
        r.0@.contains(notif) <==> after(notif.expires_at, now) && (exists|i: int|
            0 <= i < replies@.len() && (#[trigger] replies@[i]).1 == Fetched::Found(notif)) by {
        task_laws::law_list_is_exact(replies@, now, notif);
    }
}

/// A list of tasks stands newest first, and holds what the store found, each as often as it was
/// found, and nothing else; what was created at the same instant stands as it was found.
pub proof fn law_tasks_are_listed_newest_first(
    manager: TaskManager,
    user_id: i32,
    replies: Vec<(String, Fetched<TaskInfo>)>,
    r: (Vec<TaskInfo>, Vec<StoreCommand>),
    then: Timestamp,
)
    requires
        call_ensures(TaskManager::get_user_tasks, (&manager, user_id, replies), r),
    ensures
        forall|i: int, j: int|
            0 <= i < j < r.0@.len() ==> !after(
                (#[trigger] r.0@[j]).created_at,
                (#[trigger] r.0@[i]).created_at,
            ),
        forall|task: TaskInfo| #[trigger]
            r.0@.contains(task) <==> (exists|i: int|
                0 <= i < replies@.len() && (#[trigger] replies@[i]).1 == Fetched::Found(task)),
        r.0@.to_multiset() == replies@.filter(
            |p: (String, Fetched<TaskInfo>)| p.1 is Found,
        ).map_values(|p: (String, Fetched<TaskInfo>)| p.1->Found_0).to_multiset(),
        r.0@.filter(|t: TaskInfo| same_instant(t.created_at, then)) == replies@.filter(
            |p: (String, Fetched<TaskInfo>)| p.1 is Found,
        ).map_values(|p: (String, Fetched<TaskInfo>)| p.1->Found_0).filter(
            |t: TaskInfo| same_instant(t.created_at, then),
        ),
{
    lemma_found(replies@);
    order::law_ordering_keeps_items(task_manager::found_tasks(replies@));
    lemma_same_tasks(task_manager::found_tasks(replies@), then);
    let found = task_manager::found_tasks(replies@);
    assert(order::all_placed(found));
    order::law_ordering_orders(found);
    assert forall|i: int, j: int| 0 <= i < j < r.0@.len() implies !after(
        (#[trigger] r.0@[j]).created_at,
        (#[trigger] r.0@[i]).created_at,
    ) by {
        assert(order::in_order(r.0@));
    }
    assert forall|task: TaskInfo| #[trigger]
        r.0@.contains(task) <==> (exists|i: int|
            0 <= i < replies@.len() && (#[trigger] replies@[i]).1 == Fetched::Found(task)) by {
        task_laws::law_task_list_is_exact(replies@, task);
    }
}

// ---- what lists and clearing make the store forget ----

/// Whether a list at an instant finds a notification gone: it has expired, cannot be read, or is
/// missing. A store that does not answer is no sign of that.
pub open spec fn gone(fetched: Fetched<InAppNotification>, now: Timestamp) -> bool {
    match fetched {
        Fetched::Found(n) => !after(n.expires_at, now),
        Fetched::Unreadable | Fetched::Missing => true,
        Fetched::Failed => false,
    }
}

/// Whether clearing takes a notification: any, or, where only those already read are to go, what
/// was read or has nothing left to read. One that the store did not answer for may be unread.
pub open spec fn taken(read_only: bool, fetched: Fetched<InAppNotification>) -> bool {
    match fetched {
        Fetched::Found(n) => !read_only || n.read,
        Fetched::Unreadable | Fetched::Missing => true,
        Fetched::Failed => !read_only,
    }
}

/// The removal of a user's notification from the store.
pub open spec fn deletion(user_id: i32, id: Seq<char>) -> StoreOp {
    StoreOp::Delete { key: "notif:"@ + text::decimal_text(user_id as int) + ":"@ + id }
}

/// The removal of a notification from the index of a user.
pub open spec fn unlisting(user_id: i32, id: Seq<char>) -> StoreOp {
    StoreOp::RemoveMember { set: "notif:index:"@ + text::decimal_text(user_id as int), member: id }
}

/// The removal of a task from the index of a user.
pub open spec fn task_unlisting(user_id: i32, id: Seq<char>) -> StoreOp {
    StoreOp::RemoveMember { set: "task:index:"@ + text::decimal_text(user_id as int), member: id }
}

/// Whether an operation removes a user's notification, from the store or from the index.
pub open spec fn removes(op: StoreOp, user_id: i32, id: Seq<char>) -> bool {
    op == deletion(user_id, id) || op == unlisting(user_id, id)
}

proof fn lemma_stale_sound(
    user_id: i32,
    replies: Seq<(String, Fetched<InAppNotification>)>,
    now: Timestamp,
    i: int,
)
    requires
        0 <= i < task_manager::stale_notification_ops(user_id, replies, now).len(),
    ensures
        removes_gone(
            task_manager::stale_notification_ops(user_id, replies, now)[i],
            user_id,
            replies,
            now,
        ),
    decreases replies.len(),
{
    if replies.len() > 0 {
        let rest = replies.drop_last();
        let before = task_manager::stale_notification_ops(user_id, rest, now);
        if i < before.len() {
            lemma_stale_sound(user_id, rest, now, i);
            let k = choose|k: int|
                0 <= k < rest.len() && gone((#[trigger] rest[k]).1, now)
                    && removes(before[i], user_id, rest[k].0@);
            assert(replies[k] == rest[k]);
        } else {
            assert(replies[replies.len() - 1] == replies.last());
        }
    }
}

proof fn lemma_stale_complete(
    user_id: i32,
    replies: Seq<(String, Fetched<InAppNotification>)>,
    now: Timestamp,
    k: int,
)
    requires
        0 <= k < replies.len(),
    ensures
        forall|i: int|
            0 <= i < task_manager::drop_notification_ops(user_id, replies[k].0@, replies[k].1,
                now).len() ==> task_manager::stale_notification_ops(user_id, replies, now).contains(
                #[trigger] task_manager::drop_notification_ops(user_id, replies[k].0@,
                    replies[k].1, now)[i],
            ),
    decreases replies.len(),
{
    let rest = replies.drop_last();
    let before = task_manager::stale_notification_ops(user_id, rest, now);
    let tail = task_manager::drop_notification_ops(user_id, replies.last().0@, replies.last().1,
        now);
    let all = task_manager::stale_notification_ops(user_id, replies, now);
    assert(all == before + tail);
    let one = task_manager::drop_notification_ops(user_id, replies[k].0@, replies[k].1, now);
    if k < rest.len() {
        lemma_stale_complete(user_id, rest, now, k);
        assert forall|i: int| 0 <= i < one.len() implies all.contains(#[trigger] one[i]) by {
            assert(one == task_manager::drop_notification_ops(user_id, rest[k].0@, rest[k].1, now));
            assert(before.contains(task_manager::drop_notification_ops(user_id, rest[k].0@,
                rest[k].1, now)[i]));
            let j = choose|j: int| 0 <= j < before.len() && before[j] == one[i];
            assert(all[j] == one[i]);
        }
    } else {
        assert forall|i: int| 0 <= i < one.len() implies all.contains(#[trigger] one[i]) by {
            assert(all[before.len() + i] == one[i]);
        }
    }
}

proof fn lemma_cleared_sound(
    user_id: i32,
    read_only: bool,
    replies: Seq<(String, Fetched<InAppNotification>)>,
    i: int,
)
    requires
        0 <= i < task_manager::clear_ops(user_id, read_only, replies).len(),
    ensures
        removes_taken(
            task_manager::clear_ops(user_id, read_only, replies)[i],
            user_id,
            replies,
            read_only,
        ),
    decreases replies.len(),
{
    if replies.len() > 0 {
        let rest = replies.drop_last();
        let before = task_manager::clear_ops(user_id, read_only, rest);
        if i < before.len() {
            lemma_cleared_sound(user_id, read_only, rest, i);
            let k = choose|k: int|
                0 <= k < rest.len() && taken(read_only, (#[trigger] rest[k]).1)
                    && removes(before[i], user_id, rest[k].0@);
            assert(replies[k] == rest[k]);
        } else {
            assert(replies[replies.len() - 1] == replies.last());
        }
    }
}

proof fn lemma_cleared_complete(
    user_id: i32,
    read_only: bool,
    replies: Seq<(String, Fetched<InAppNotification>)>,
    k: int,
)
    requires
        0 <= k < replies.len(),
    ensures
        forall|i: int|
            0 <= i < cleared_ops(user_id, read_only, replies[k]).len()
                ==> task_manager::clear_ops(user_id, read_only, replies).contains(
                #[trigger] cleared_ops(user_id, read_only, replies[k])[i],
            ),
    decreases replies.len(),
{
    let rest = replies.drop_last();
    let before = task_manager::clear_ops(user_id, read_only, rest);
    let tail = cleared_ops(user_id, read_only, replies.last());
    let all = task_manager::clear_ops(user_id, read_only, replies);
    assert(all == before + tail);
    let one = cleared_ops(user_id, read_only, replies[k]);
    if k < rest.len() {
        lemma_cleared_complete(user_id, read_only, rest, k);
        assert forall|i: int| 0 <= i < one.len() implies all.contains(#[trigger] one[i]) by {
            assert(one == cleared_ops(user_id, read_only, rest[k]));
            assert(before.contains(cleared_ops(user_id, read_only, rest[k])[i]));
            let j = choose|j: int| 0 <= j < before.len() && before[j] == one[i];
            assert(all[j] == one[i]);
        }
    } else {
        assert forall|i: int| 0 <= i < one.len() implies all.contains(#[trigger] one[i]) by {
            assert(all[before.len() + i] == one[i]);
        }
    }
}

proof fn lemma_dropped_sound(user_id: i32, replies: Seq<(String, Fetched<TaskInfo>)>, i: int)
    requires
        0 <= i < task_manager::stale_task_ops(user_id, replies).len(),
    ensures
        unlists_gone(
            task_manager::stale_task_ops(user_id, replies)[i],
            user_id,
            replies,
        ),
    decreases replies.len(),
{
    if replies.len() > 0 {
        let rest = replies.drop_last();
        let before = task_manager::stale_task_ops(user_id, rest);
        if i < before.len() {
            lemma_dropped_sound(user_id, rest, i);
            let k = choose|k: int|
                0 <= k < rest.len() && task_gone((#[trigger] rest[k]).1)
                    && before[i] == task_unlisting(user_id, rest[k].0@);
            assert(replies[k] == rest[k]);
        } else {
            assert(replies[replies.len() - 1] == replies.last());
        }
    }
}

proof fn lemma_dropped_complete(user_id: i32, replies: Seq<(String, Fetched<TaskInfo>)>, k: int)
    requires
        0 <= k < replies.len(),
    ensures
        forall|i: int|
            0 <= i < task_manager::drop_task_ops(user_id, replies[k].0@, replies[k].1).len()
                ==> task_manager::stale_task_ops(user_id, replies).contains(
                #[trigger] task_manager::drop_task_ops(user_id, replies[k].0@, replies[k].1)[i],
            ),
    decreases replies.len(),
{
    let rest = replies.drop_last();
    let before = task_manager::stale_task_ops(user_id, rest);
    let tail = task_manager::drop_task_ops(user_id, replies.last().0@, replies.last().1);
    let all = task_manager::stale_task_ops(user_id, replies);
    assert(all == before + tail);
    let one = task_manager::drop_task_ops(user_id, replies[k].0@, replies[k].1);
    if k < rest.len() {
        lemma_dropped_complete(user_id, rest, k);
        assert forall|i: int| 0 <= i < one.len() implies all.contains(#[trigger] one[i]) by {
            assert(one == task_manager::drop_task_ops(user_id, rest[k].0@, rest[k].1));
            assert(before.contains(task_manager::drop_task_ops(user_id, rest[k].0@, rest[k].1)[i]));
            let j = choose|j: int| 0 <= j < before.len() && before[j] == one[i];
            assert(all[j] == one[i]);
        }
    } else {
        assert forall|i: int| 0 <= i < one.len() implies all.contains(#[trigger] one[i]) by {
            assert(all[before.len() + i] == one[i]);
        }
    }
}

/// What clearing makes of one reply.
spec fn cleared_ops(
    user_id: i32,
    read_only: bool,
    reply: (String, Fetched<InAppNotification>),
) -> Seq<StoreOp> {
    if task_manager::clears(read_only, reply.1) {
        task_manager::remove_notification_ops(user_id, reply.0@)
    } else {
        Seq::empty()
    }
}

/// Whether a list finds a task gone.
pub open spec fn task_gone(fetched: Fetched<TaskInfo>) -> bool {
    fetched is Unreadable || fetched is Missing
}

/// Whether an operation removes a notification that a list finds gone.
pub open spec fn removes_gone(
    op: StoreOp,
    user_id: i32,
    replies: Seq<(String, Fetched<InAppNotification>)>,
    now: Timestamp,
) -> bool {
    exists|k: int|
        0 <= k < replies.len() && gone((#[trigger] replies[k]).1, now) && removes(
            op,
            user_id,
            replies[k].0@,
        )
}

/// Whether an operation removes a notification that clearing takes.
pub open spec fn removes_taken(
    op: StoreOp,
    user_id: i32,
    replies: Seq<(String, Fetched<InAppNotification>)>,
    read_only: bool,
) -> bool {
    exists|k: int|
        0 <= k < replies.len() && taken(read_only, (#[trigger] replies[k]).1) && removes(
            op,
            user_id,
            replies[k].0@,
        )
}

/// Whether an operation drops the entry of a task that a list finds gone.
pub open spec fn unlists_gone(
    op: StoreOp,
    user_id: i32,
    replies: Seq<(String, Fetched<TaskInfo>)>,
) -> bool {
    exists|k: int|
        0 <= k < replies.len() && task_gone((#[trigger] replies[k]).1) && op == task_unlisting(
            user_id,
            replies[k].0@,
        )
}

/// Listing notifications makes the store forget those that are gone and no others: each loses its
/// entry in the index, and what is left of it under its key.
pub proof fn law_listing_forgets_what_is_gone(
    manager: TaskManager,
    user_id: i32,
    replies: Vec<(String, Fetched<InAppNotification>)>,
    now: Timestamp,
    r: (Vec<InAppNotification>, Vec<StoreCommand>),
)
    requires
        call_ensures(TaskManager::list_notifications, (&manager, user_id, replies, now), r),
    ensures
        forall|i: int|
            0 <= i < r.1@.len() ==> removes_gone((#[trigger] r.1@[i])@, user_id, replies@, now),
        forall|k: int|
            0 <= k < replies@.len() && gone((#[trigger] replies@[k]).1, now) ==> {
                &&& crate::store::ops(r.1@).contains(unlisting(user_id, replies@[k].0@))
                &&& !(replies@[k].1 is Missing) ==> crate::store::ops(r.1@).contains(
                    deletion(user_id, replies@[k].0@),
                )
            },
{
    let ops = task_manager::stale_notification_ops(user_id, replies@, now);
    assert forall|i: int| 0 <= i < r.1@.len() implies removes_gone(
        (#[trigger] r.1@[i])@,
        user_id,
        replies@,
        now,
    ) by {
        assert(ops[i] == r.1@[i]@);
        lemma_stale_sound(user_id, replies@, now, i);
    }
    assert forall|k: int| 0 <= k < replies@.len() && gone((#[trigger] replies@[k]).1, now) implies {
        &&& ops.contains(unlisting(user_id, replies@[k].0@))
        &&& !(replies@[k].1 is Missing) ==> ops.contains(deletion(user_id, replies@[k].0@))
    } by {
        lemma_stale_complete(user_id, replies@, now, k);
        let one = task_manager::drop_notification_ops(
            user_id,
            replies@[k].0@,
            replies@[k].1,
            now,
        );
        assert(ops.contains(one[0]));
        if one.len() > 1 {
            assert(ops.contains(one[1]));
        }
    }
}

/// Listing tasks drops the entries of those that are gone from the index, and no others.
pub proof fn law_listing_drops_tasks_that_are_gone(
    manager: TaskManager,
    user_id: i32,
    replies: Vec<(String, Fetched<TaskInfo>)>,
    r: (Vec<TaskInfo>, Vec<StoreCommand>),
)
    requires
        call_ensures(TaskManager::get_user_tasks, (&manager, user_id, replies), r),
    ensures
        forall|i: int|
            0 <= i < r.1@.len() ==> unlists_gone((#[trigger] r.1@[i])@, user_id, replies@),
        forall|k: int|
            0 <= k < replies@.len() && task_gone((#[trigger] replies@[k]).1)
                ==> crate::store::ops(r.1@).contains(task_unlisting(user_id, replies@[k].0@)),
{
    let ops = task_manager::stale_task_ops(user_id, replies@);
    assert forall|i: int| 0 <= i < r.1@.len() implies unlists_gone(
        (#[trigger] r.1@[i])@,
        user_id,
        replies@,
    ) by {
        assert(ops[i] == r.1@[i]@);
        lemma_dropped_sound(user_id, replies@, i);
    }
    assert forall|k: int|
        0 <= k < replies@.len() && task_gone((#[trigger] replies@[k]).1) implies ops.contains(
        task_unlisting(user_id, replies@[k].0@),
    ) by {
        lemma_dropped_complete(user_id, replies@, k);
        assert(ops.contains(
            task_manager::drop_task_ops(user_id, replies@[k].0@, replies@[k].1)[0],
        ));
    }
}

/// Clearing removes what it takes, under its key and in the index, and nothing else: every
/// notification, or those already read.
pub proof fn law_clearing_takes_what_it_should(
    manager: TaskManager,
    user_id: i32,
    read_only: bool,
    replies: Vec<(String, Fetched<InAppNotification>)>,
    r: Vec<StoreCommand>,
)
    requires
        call_ensures(
            TaskManager::clear_notifications,
            (&manager, user_id, read_only, replies),
            r,
        ),
    ensures
        forall|i: int|
            0 <= i < r@.len() ==> removes_taken(
                (#[trigger] r@[i])@,
                user_id,
                replies@,
                read_only,
            ),
        forall|k: int|
            0 <= k < replies@.len() && taken(read_only, (#[trigger] replies@[k]).1) ==> {
                &&& crate::store::ops(r@).contains(unlisting(user_id, replies@[k].0@))
                &&& crate::store::ops(r@).contains(deletion(user_id, replies@[k].0@))
            },
{
    let ops = task_manager::clear_ops(user_id, read_only, replies@);
    assert forall|i: int| 0 <= i < r@.len() implies removes_taken(
        (#[trigger] r@[i])@,
        user_id,
        replies@,
        read_only,
    ) by {
        assert(ops[i] == r@[i]@);
        lemma_cleared_sound(user_id, read_only, replies@, i);
    }
    assert forall|k: int|
        0 <= k < replies@.len() && taken(read_only, (#[trigger] replies@[k]).1) implies {
        &&& ops.contains(unlisting(user_id, replies@[k].0@))
        &&& ops.contains(deletion(user_id, replies@[k].0@))
    } by {
        lemma_cleared_complete(user_id, read_only, replies@, k);
        let one = cleared_ops(user_id, read_only, replies@[k]);
        assert(ops.contains(one[0]));
        assert(ops.contains(one[1]));
    }
}

// ---- the life of a notification ----

/// Whether a plan raises a notification here and, stamped with this replica, elsewhere, having
/// stored it.
pub open spec fn stores_and_raises(
    plan: Plan,
    replica: Seq<char>,
    notif: InAppNotification,
) -> bool {
    &&& writes_notification(plan.writes@, notif)
    &&& plan.signals@.len() == 2
    &&& plan.signals@[0] == Signal::LocalNotification(notif)
    &&& plan.signals@[1] matches Signal::Publish(packet) && packet.instance_id@ == replica
        && packet.event == BridgeEvent::Notification(notif)
}

proof fn lemma_writes_notification(commands: Seq<StoreCommand>, notif: InAppNotification)
    requires
        crate::store::ops(commands) == task_manager::save_notification_ops(
            notif,
            task_manager::ttl_secs_of(notif.severity) as u64,
        ),
    ensures
        writes_notification(commands, notif),
{
    assert(crate::store::ops(commands).len() == commands.len());
    assert(crate::store::ops(commands)[0] == commands[0]@);
    assert(crate::store::ops(commands)[1] == commands[1]@);
    assert(crate::store::ops(commands)[2] == commands[2]@);
}

/// A notification that is pushed says what it was given to say, to the user it was given for; it
/// is unread, and expires a day after it was created if it informs, and thirty days after if it
/// warns. It is stored and raised, here and elsewhere.
pub proof fn law_pushed_notification_says_what_was_given(
    manager: TaskManager,
    id: String,
    user_id: i32,
    category: String,
    severity: MsgSeverity,
    title: String,
    body: Option<String>,
    about: (Option<i32>, Option<i32>),
    art_url: Option<String>,
    link: Option<String>,
    now: Timestamp,
    r: Option<(InAppNotification, Plan)>,
)
    requires
        call_ensures(
            TaskManager::push_notification_if_nameable,
            (
                &manager,
                id,
                user_id,
                category,
                severity,
                title,
                body,
                about.0,
                about.1,
                art_url,
                link,
                now,
            ),
            r,
        ),
    ensures
        r is Some <==> now.second() + (if severity is Warning || severity is Error {
            30 * 86_400int
        } else {
            86_400int
        }) <= moment::LAST_SECOND,
        r matches Some((notif, plan)) ==> {
            &&& notif.id == id
            &&& notif.user_id == user_id
            &&& notif.category == category
            &&& notif.severity == severity
            &&& notif.title == title
            &&& notif.body == body
            &&& notif.episode_id == about.0
            &&& notif.podcast_id == about.1
            &&& notif.art_url == art_url
            &&& notif.link == link
            &&& !notif.read
            &&& notif.created_at == now
            &&& severity is Info || severity is Success ==> notif.expires_at.second()
                == now.second() + 86_400
            &&& severity is Warning || severity is Error ==> notif.expires_at.second()
                == now.second() + 30 * 86_400
            &&& now.nano() < 1_000_000_000 ==> notif.expires_at.nano() == now.nano()
            &&& stores_and_raises(plan, manager.instance_id@, notif)
        },
{
    if r is Some {
        let (notif, plan) = r->0;
        lemma_writes_notification(plan.writes@, notif);
    }
}

/// A notification that is pushed at the present, and one that is pushed at an instant at which it
/// can be, say what they were given to say as well.
pub proof fn law_every_push_says_what_was_given(
    manager: TaskManager,
    id: String,
    user_id: i32,
    category: String,
    severity: MsgSeverity,
    title: String,
    body: Option<String>,
    about: (Option<i32>, Option<i32>),
    art_url: Option<String>,
    link: Option<String>,
    now: Timestamp,
    at_instant: (InAppNotification, Plan),
    at_once: Option<(InAppNotification, Plan)>,
)
    requires
        now.second() + task_manager::ttl_secs_of(severity) <= moment::LAST_SECOND,
        call_ensures(
            TaskManager::push_notification_at,
            (
                &manager,
                id,
                user_id,
                category,
                severity,
                title,
                body,
                about.0,
                about.1,
                art_url,
                link,
                now,
            ),
            at_instant,
        ),
        call_ensures(
            TaskManager::push_notification,
            (
                &manager,
                user_id,
                category,
                severity,
                title,
                body,
                about.0,
                about.1,
                art_url,
                link,
            ),
            at_once,
        ),
    ensures
        at_instant.0.id == id,
        at_instant.0.created_at == now,
        at_once matches Some((notif, _)) ==> at_instant.0 == (InAppNotification {
            id,
            created_at: now,
            expires_at: at_instant.0.expires_at,
            ..notif
        }),
        at_once matches Some((notif, plan)) ==> notif.id@.len() == 36 && stores_and_raises(
            plan,
            manager.instance_id@,
            notif,
        ) && notif.expires_at.second() - notif.created_at.second()
            == at_instant.0.expires_at.second() - now.second(),
        at_instant.0.user_id == user_id,
        at_instant.0.category == category,
        at_instant.0.severity == severity,
        at_instant.0.title == title,
        at_instant.0.body == body,
        at_instant.0.episode_id == about.0,
        at_instant.0.podcast_id == about.1,
        at_instant.0.art_url == art_url,
        at_instant.0.link == link,
        !at_instant.0.read,
        at_instant.0.expires_at.second() - now.second() == (if severity is Warning
            || severity is Error {
            30 * 86_400int
        } else {
            86_400int
        }),
        stores_and_raises(at_instant.1, manager.instance_id@, at_instant.0),
{
    lemma_writes_notification(at_instant.1.writes@, at_instant.0);
    if at_once is Some {
        let (notif, plan) = at_once->0;
        lemma_writes_notification(plan.writes@, notif);
    }
}

/// Marking a notification as read stores it again as it was, but read; what the store did not find
/// is left alone. Dismissing one removes it, under its key and in the index of its user.
pub proof fn law_marking_and_dismissing_touch_one_notification(
    manager: TaskManager,
    fetched: Fetched<InAppNotification>,
    marked: Vec<StoreCommand>,
    user_id: i32,
    id: &str,
    dismissed: Vec<StoreCommand>,
)
    requires
        call_ensures(TaskManager::mark_notification_read, (&manager, fetched), marked),
        call_ensures(TaskManager::dismiss_notification, (&manager, user_id, id), dismissed),
    ensures
        fetched matches Fetched::Found(n) ==> writes_notification(
            marked@,
            InAppNotification { read: true, ..n },
        ),
        !(fetched is Found) ==> marked@.len() == 0,
        removes_notification(dismissed@, user_id, id@),
{
    if let Fetched::Found(n) = fetched {
        lemma_writes_notification(marked@, InAppNotification { read: true, ..n });
    } else {
        assert(crate::store::ops(marked@).len() == marked@.len());
    }
    let ops = crate::store::ops(dismissed@);
    assert(ops.len() == dismissed@.len());
    assert(ops[0] == dismissed@[0]@);
    assert(ops[1] == dismissed@[1]@);
}

// ---- parts of requests ----

/// What is stored, told and forgotten by functions of their own is what requests do with it: a task
/// is written under its key and entered in the index of its user, an update describes its task, and
/// there is nothing to sweep.
pub proof fn law_parts_of_requests_do_what_requests_do(
    manager: TaskManager,
    task: TaskInfo,
    commands: Vec<StoreCommand>,
    item_id: Option<i32>,
    details: serde_json::Value,
    update: TaskUpdate,
    swept: Plan,
    notif: InAppNotification,
    severity: MsgSeverity,
    ttl_secs: i64,
    writes: Vec<StoreCommand>,
)
    requires
        call_ensures(TaskManager::save_task, (&manager, &task), commands),
        call_ensures(TaskManager::build_update, (&manager, &task, item_id, details), update),
        call_ensures(TaskManager::cleanup_old_tasks, (&manager,), swept),
        call_ensures(TaskManager::notif_ttl_secs, (severity,), ttl_secs),
        call_ensures(TaskManager::save_notification, (&manager, &notif, ttl_secs as u64), writes),
    ensures
        writes_task(commands@, task),
        describes(update, task),
        update.task_type == task.task_type,
        update.item_id == item_id,
        update.details == details,
        swept.writes@.len() == 0 && swept.signals@.len() == 0,
        severity is Info || severity is Success ==> ttl_secs == 86_400,
        severity is Warning || severity is Error ==> ttl_secs == 30 * 86_400,
        severity == notif.severity ==> writes_notification(writes@, notif),
{
    lemma_writes_task(commands@, task);
    if severity == notif.severity {
        lemma_writes_notification(writes@, notif);
    }
}

/// One reply adds to a list the task or the notification that is found, unless it has expired, and
/// nothing else; what is gone is removed from the index, and from the store where it is still there.
pub proof fn law_one_reply_is_listed_or_forgotten(
    manager: TaskManager,
    user_id: i32,
    id: String,
    task: Fetched<TaskInfo>,
    tasks: &mut Vec<TaskInfo>,
    dropped: Vec<StoreCommand>,
    notif: Fetched<InAppNotification>,
    now: Timestamp,
    notifs: &mut Vec<InAppNotification>,
    forgotten: Vec<StoreCommand>,
)
    requires
        call_ensures(TaskManager::note_task, (&manager, user_id, id, task, tasks), dropped),
        call_ensures(
            TaskManager::note_notification,
            (&manager, user_id, id, notif, now, notifs),
            forgotten,
        ),
    ensures
        task matches Fetched::Found(t) ==> final(tasks)@ == old(tasks)@.push(t),
        !(task is Found) ==> final(tasks)@ == old(tasks)@,
        dropped@.len() == (if task_gone(task) {
            1int
        } else {
            0int
        }),
        task_gone(task) ==> dropped@[0]@ == task_unlisting(user_id, id@),
        notif matches Fetched::Found(n) ==> (if after(n.expires_at, now) {
            final(notifs)@ == old(notifs)@.push(n)
        } else {
            final(notifs)@ == old(notifs)@
        }),
        !(notif is Found) ==> final(notifs)@ == old(notifs)@,
        forgotten@.len() > 0 <==> gone(notif, now),
        gone(notif, now) && !(notif is Missing) ==> removes_notification(
            forgotten@,
            user_id,
            id@,
        ),
        notif is Missing ==> forgotten@.len() == 1 && forgotten@[0]@ == unlisting(user_id, id@),
{
    let ops = crate::store::ops(dropped@);
    assert(ops.len() == dropped@.len());
    if task_gone(task) {
        assert(ops[0] == dropped@[0]@);
    }
    let taken_out = crate::store::ops(forgotten@);
    assert(taken_out.len() == forgotten@.len());
    if forgotten@.len() > 0 {
        assert(taken_out[0] == forgotten@[0]@);
    }
    if forgotten@.len() > 1 {
        assert(taken_out[1] == forgotten@[1]@);
    }
    if notif matches Fetched::Found(n) && !after(n.expires_at, now) {
        assert(task_manager::kept_notification(notif, now) =~= Seq::empty());
    }
}

/// Clearing one notification removes it exactly if it is to be taken.
pub proof fn law_one_notification_is_cleared_if_it_should(
    manager: TaskManager,
    user_id: i32,
    read_only: bool,
    id: &str,
    fetched: Fetched<InAppNotification>,
    commands: Vec<StoreCommand>,
)
    requires
        call_ensures(
            TaskManager::clear_notification,
            (&manager, user_id, read_only, id, &fetched),
            commands,
        ),
    ensures
        taken(read_only, fetched) ==> removes_notification(commands@, user_id, id@),
        !taken(read_only, fetched) ==> commands@.len() == 0,
{
    let ops = crate::store::ops(commands@);
    assert(ops.len() == commands@.len());
    if taken(read_only, fetched) {
        assert(ops[0] == commands@[0]@);
        assert(ops[1] == commands@[1]@);
    }
}

/// Keys name what they are keys of: a task by its id, a notification by its user and its id, and an
/// index by its user.
pub proof fn law_keys_name_what_they_hold(
    user_id: i32,
    id: &str,
    task: String,
    tasks: String,
    notif: String,
    notifs: String,
)
    requires
        call_ensures(TaskManager::task_key, (id,), task),
        call_ensures(TaskManager::task_index_key, (user_id,), tasks),
        call_ensures(TaskManager::notif_key, (user_id, id), notif),
        call_ensures(TaskManager::notif_index_key, (user_id,), notifs),
    ensures
        task@ == "task:"@ + id@,
        tasks@ == "task:index:"@ + text::decimal_text(user_id as int),
        notif@ == "notif:"@ + text::decimal_text(user_id as int) + ":"@ + id@,
        notifs@ == "notif:index:"@ + text::decimal_text(user_id as int),
{
}

/// A message to sockets carries what it is made of, under the event that tells of it.
pub proof fn law_messages_carry_what_they_are_made_of(
    event: &str,
    tasks: Vec<TaskInfo>,
    notifications: Vec<InAppNotification>,
    lists: task_manager::WebSocketMessage,
    update: TaskUpdate,
    changed: task_manager::WebSocketMessage,
    notif: InAppNotification,
    noted: task_manager::WebSocketMessage,
)
    requires
        call_ensures(task_manager::WebSocketMessage::tasks, (event, tasks, notifications), lists),
        call_ensures(task_manager::WebSocketMessage::update, (update,), changed),
        call_ensures(task_manager::WebSocketMessage::notification, (notif,), noted),
    ensures
        lists.event@ == event@ && lists.tasks == Some(tasks) && lists.notifications == Some(
            notifications,
        ) && lists.task is None && lists.notification is None,
        changed.event@ == "update"@ && changed.task == Some(update) && changed.tasks is None
            && changed.notification is None && changed.notifications is None,
        noted.event@ == "notification"@ && noted.notification == Some(notif) && noted.task is None
            && noted.tasks is None && noted.notifications is None,
{
}

} // verus!
