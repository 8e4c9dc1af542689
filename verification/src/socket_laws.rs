//! What sockets, the bridge between replicas and the checks of requests do, told of what goes in
//! and what comes out.

use crate::access;
use crate::access::{AppError, Authorization, Checked};
use crate::notifications;
use crate::notifications::{ApiCall, ClearNotificationsQuery, NotificationsQuery, Operation};
use crate::progress;
use crate::task_manager::{
    BridgeEvent, BridgePacket, InAppNotification, MsgSeverity, Plan, Signal, TaskInfo, TaskManager,
    TaskStatus, TaskUpdate, WebSocketMessage,
};
use crate::text;
use crate::websocket;
use crate::websocket::{
    Forwarding, Incoming, Received, SocketAction, SocketEvent, SocketGate, TaskCall,
    WebSocketManager,
};
use vstd::prelude::*;

verus! {

// ---- opening a socket ----

/// A socket opens exactly for a valid key of its own user or of the user with the number one. Any
/// other key is refused as forbidden, in words that tell an invalid key from another user's.
pub proof fn law_socket_opens_for_its_user_only(
    user_id: i32,
    valid: Option<bool>,
    owner: Option<i32>,
    gate: SocketGate,
    refusal: Option<(u16, &'static str)>,
)
    requires
        call_ensures(websocket::task_progress_websocket, (user_id, valid, owner), gate),
        call_ensures(SocketGate::refusal, (&gate,), refusal),
    ensures
        gate is Upgrade <==> valid == Some(true) && (owner == Some(user_id) || owner == Some(1i32)),
        refusal is None <==> gate is Upgrade,
        refusal matches Some((status, body)) ==> status == 403 && body@ == (if valid == Some(true)
            && owner is Some {
            "Unauthorized - API key does not belong to requested user"@
        } else {
            "Invalid API key"@
        }),
{
}

/// The two steps of opening a socket agree with the whole: whose key it is, is asked for exactly
/// where the key is valid.
pub proof fn law_key_is_identified_once_valid(
    user_id: i32,
    valid: Option<bool>,
    owner: Option<i32>,
    first: SocketGate,
    second: SocketGate,
    whole: SocketGate,
)
    requires
        call_ensures(websocket::socket_verified, (valid,), first),
        call_ensures(websocket::socket_identified, (user_id, owner), second),
        call_ensures(websocket::task_progress_websocket, (user_id, valid, owner), whole),
    ensures
        first is Identify <==> valid == Some(true),
        !(first is Identify) ==> first is InvalidKey && whole is InvalidKey,
        first is Identify ==> whole == second,
        second is Upgrade <==> owner == Some(user_id) || owner == Some(1i32),
        second is InvalidKey <==> owner is None,
{
}

// ---- a socket at work ----

/// A user's socket is passed every update for that user, as it is, and none for another; it stops
/// where updates were lost.
pub proof fn law_updates_reach_their_user_only(
    user_id: i32,
    update: TaskUpdate,
    received: Received,
    r: Forwarding,
)
    requires
        call_ensures(websocket::forward, (user_id, received), r),
    ensures
        r is Stop <==> received is Lagged || received is Closed,
        r == Forwarding::Pass(update) <==> received == Received::Update(update) && update.user_id
            == user_id,
{
}

/// What a socket sends of an update or a notification is that and nothing else, under the name of
/// its event. Notifications for other users are not sent, and only a closed channel of its own
/// stops a socket.
pub proof fn law_socket_sends_what_concerns_its_user(
    user_id: i32,
    event: SocketEvent,
    r: SocketAction,
)
    requires
        call_ensures(websocket::handle_socket_event, (user_id, event), r),
    ensures
        r is Stop <==> event is UpdatesClosed,
        event matches SocketEvent::Update(u) ==> (r matches SocketAction::Send(m) && m.event@
            == "update"@ && m.task == Some(u) && m.tasks is None && m.notification is None
            && m.notifications is None),
        event matches SocketEvent::Notification(n) ==> (r is Send <==> n.user_id == user_id),
        event matches SocketEvent::Notification(n) ==> (r matches SocketAction::Send(m) ==> m.event@
            == "notification"@ && m.notification == Some(n) && m.task is None && m.tasks is None
            && m.notifications is None),
        r is Send ==> event is Update || event is Notification,
{
}

/// A socket listens until the other end closes it or fails. Its first message holds both lists as
/// they were read, and an empty one for each that could not be; what could not be written is an
/// empty object.
pub proof fn law_socket_begins_with_both_lists(
    incoming: Incoming,
    listens: bool,
    tasks: Option<Vec<TaskInfo>>,
    notifications: Option<Vec<InAppNotification>>,
    first: WebSocketMessage,
    json: Option<String>,
    text: String,
)
    requires
        call_ensures(websocket::keeps_listening, (&incoming,), listens),
        call_ensures(websocket::initial_message, (tasks, notifications), first),
        call_ensures(websocket::initial_text, (json,), text),
    ensures
        listens <==> incoming is Text || incoming is Other,
        first.event@ == "initial"@,
        first.task is None && first.notification is None,
        first.tasks is Some && first.notifications is Some,
        tasks matches Some(list) ==> first.tasks->0@ == list@,
        tasks is None ==> first.tasks->0@.len() == 0,
        notifications matches Some(list) ==> first.notifications->0@ == list@,
        notifications is None ==> first.notifications->0@.len() == 0,
        json matches Some(t) ==> text@ == t@,
        json is None ==> text@ == "{}"@,
{
}

/// A channel that a user opens is told of what follows, behind those opened before, until it is
/// closed; other users' channels are not touched by either.
pub proof fn law_channels_are_told_while_open(
    opened: &mut WebSocketManager,
    closed: &mut WebSocketManager,
    user_id: i32,
    other: i32,
    channel: u64,
    before: Vec<u64>,
    between: Vec<u64>,
    after: Vec<u64>,
    others_before: Vec<u64>,
    others_between: Vec<u64>,
    others_after: Vec<u64>,
)
    requires
        other != user_id,
        call_ensures(WebSocketManager::broadcast_to_user, (&*old(opened), user_id), before),
        call_ensures(WebSocketManager::broadcast_to_user, (&*old(opened), other), others_before),
        call_ensures(WebSocketManager::add_connection, (opened, user_id, channel), ()),
        call_ensures(WebSocketManager::broadcast_to_user, (&*final(opened), user_id), between),
        call_ensures(WebSocketManager::broadcast_to_user, (&*final(opened), other), others_between),
        *old(closed) == *final(opened),
        call_ensures(WebSocketManager::remove_connection, (closed, user_id, channel), ()),
        call_ensures(WebSocketManager::broadcast_to_user, (&*final(closed), user_id), after),
        call_ensures(WebSocketManager::broadcast_to_user, (&*final(closed), other), others_after),
    ensures
        between@ == before@.push(channel),
        !after@.contains(channel),
        !before@.contains(channel) ==> after@ == before@,
        forall|c: u64| c != channel ==> (#[trigger] after@.contains(c) <==> before@.contains(c)),
        others_between@ == others_before@,
        others_after@ == others_before@,
{
    let keep = |c: u64| c != channel;
    assert(after@ == between@.filter(keep));
    crate::lists::lemma_filtered(between@, keep, channel);
    if !before@.contains(channel) {
        websocket::law_closed_connection_leaves_no_trace(before@, channel);
    }
    assert forall|c: u64| c != channel implies (#[trigger] after@.contains(c) <==> before@.contains(
        c,
    )) by {
        crate::lists::lemma_filtered(between@, keep, c);
        if before@.contains(c) {
            let i = choose|i: int| 0 <= i < before@.len() && before@[i] == c;
            assert(between@[i] == c);
        }
        if between@.contains(c) {
            let i = choose|i: int| 0 <= i < between@.len() && between@[i] == c;
            assert(before@[i] == c);
        }
    }
    let x = final(opened).channels().remove(user_id);
    let y = final(closed).channels().remove(user_id);
    assert(x == y);
    assert(x.contains_key(other) == final(opened).channels().contains_key(other));
    assert(y.contains_key(other) == final(closed).channels().contains_key(other));
    if x.contains_key(other) {
        assert(x[other] == final(opened).channels()[other]);
        assert(y[other] == final(closed).channels()[other]);
    }
}

// ---- the bridge ----

/// A packet that another replica published is raised here, once and as it is; one of this replica
/// is not, and what cannot be read is passed over.
pub proof fn law_packets_of_others_are_raised_here(
    manager: TaskManager,
    packet: Option<BridgePacket>,
    signals: Vec<Signal>,
)
    requires
        call_ensures(websocket::handle_bridge_packet, (&manager, packet), signals),
    ensures
        packet is None ==> signals@.len() == 0,
        packet matches Some(p) ==> (p.instance_id@ == manager.instance_id@ ==> signals@.len() == 0),
        packet matches Some(p) ==> (p.instance_id@ != manager.instance_id@ ==> signals@.len() == 1
            && match p.event {
            BridgeEvent::Task(u) => signals@[0] == Signal::LocalUpdate(u),
            BridgeEvent::Notification(n) => signals@[0] == Signal::LocalNotification(n),
        }),
{
}

/// An update that a replica raises is heard at every replica: here at once, and, from the packet
/// that it publishes, at every other one, but not here again.
pub proof fn law_raised_update_is_heard_everywhere_once(
    here: TaskManager,
    update: TaskUpdate,
    raised: Vec<Signal>,
    there: TaskManager,
    heard: Vec<Signal>,
)
    requires
        call_ensures(TaskManager::emit_update, (&here, update), raised),
        raised@.len() == 2 && raised@[1] is Publish ==> call_ensures(
            websocket::handle_bridge_packet,
            (&there, Some(raised@[1]->Publish_0)),
            heard,
        ),
    ensures
        raised@.len() == 2,
        raised@[0] == Signal::LocalUpdate(update),
        raised@[1] is Publish,
        there.instance_id@ != here.instance_id@ ==> heard@.len() == 1 && heard@[0]
            == Signal::LocalUpdate(update),
        there.instance_id@ == here.instance_id@ ==> heard@.len() == 0,
{
}

/// What came from elsewhere is raised here and not published again; a packet bears the replica
/// that publishes it. A plan's signals are raised as they are once it was stored, and else none.
pub proof fn law_signals_go_where_they_should(
    manager: TaskManager,
    update: TaskUpdate,
    updates: Vec<Signal>,
    notif: InAppNotification,
    notifs: Vec<Signal>,
    event: BridgeEvent,
    published: Signal,
    plan: Plan,
    stored: bool,
    raised: Vec<Signal>,
)
    requires
        call_ensures(TaskManager::reinject_update, (&manager, update), updates),
        call_ensures(TaskManager::reinject_notification, (&manager, notif), notifs),
        call_ensures(TaskManager::publish_bridge, (&manager, event), published),
        call_ensures(Plan::signals_after, (plan, stored), raised),
    ensures
        updates@.len() == 1 && updates@[0] == Signal::LocalUpdate(update),
        notifs@.len() == 1 && notifs@[0] == Signal::LocalNotification(notif),
        published matches Signal::Publish(p) && p.instance_id@ == manager.instance_id@ && p.event
            == event,
        stored ==> raised@ == plan.signals@,
        !stored ==> raised@.len() == 0,
{
}

// ---- who may do what ----

/// A request on notifications or on tasks is granted exactly after three positive answers in turn;
/// it is refused as unauthorized for an invalid key, as forbidden for another user's, and with the
/// error of a check that failed. A verdict stays, and an answer that was not asked for changes
/// nothing.
pub proof fn law_requests_are_granted_by_three_answers(
    from: Authorization,
    checked: Checked,
    on_notifications: Authorization,
    on_tasks: Authorization,
)
    requires
        call_ensures(notifications::authorize, (from, checked), on_notifications),
        call_ensures(websocket::authorize, (from, checked), on_tasks),
    ensures
        answers(from, checked, on_notifications, "You can only manage your own notifications!"@),
        answers(from, checked, on_tasks, "You can only view your own tasks!"@),
{
}

/// Whether a check moves a request as it should.
pub open spec fn answers(
    from: Authorization,
    checked: Checked,
    to: Authorization,
    words: Seq<char>,
) -> bool {
    // Only a positive answer to the last question grants.
    &&& to is Granted <==> from is Granted || (from is Access && checked == Checked::Access(
        Ok(true),
    ))
    // A key gets further only by being found, and then by being valid.
    &&& from is Key && checked is Key && checked->Key_0 is Ok ==> to == Authorization::Validity {
        api_key: checked->Key_0->Ok_0,
    }
    &&& from is Validity && checked == Checked::Validity(Ok(true)) ==> to == Authorization::Access {
        api_key: from->Validity_api_key,
    }
    // Every other answer to the question that was asked refuses.
    &&& from is Key && checked is Key && checked->Key_0 is Err ==> to == Authorization::Refused {
        error: checked->Key_0->Err_0,
    }
    &&& from is Validity && checked is Validity && checked->Validity_0 is Err ==> to
        == Authorization::Refused { error: checked->Validity_0->Err_0 }
    &&& from is Access && checked is Access && checked->Access_0 is Err ==> to
        == Authorization::Refused { error: checked->Access_0->Err_0 }
    &&& from is Validity && checked == Checked::Validity(Ok(false)) ==> (to matches
        Authorization::Refused { error: AppError::Unauthorized { message } } && message@
        == "Invalid API key"@)
    &&& from is Access && checked == Checked::Access(Ok(false)) ==> (to matches
        Authorization::Refused { error: AppError::Forbidden { message } } && message@ == words)
    // A verdict is final, and what was not asked for does not count.
    &&& from is Granted || from is Refused ==> to == from
    &&& from is Key && !(checked is Key) ==> to == from
    &&& from is Validity && !(checked is Validity) ==> to == from
    &&& from is Access && !(checked is Access) ==> to == from
}

/// Every request on notifications acts on the user to whom it needs access, which is the one that
/// it names, and on the notification that it names; clearing takes all unless only the read ones
/// were asked for.
pub proof fn law_requests_act_on_whom_they_need_access_to(
    query: NotificationsQuery,
    clear: ClearNotificationsQuery,
    id: String,
    listed: ApiCall,
    marked: ApiCall,
    dismissed: ApiCall,
    cleared: ApiCall,
)
    requires
        call_ensures(notifications::list_notifications, (query,), listed),
        call_ensures(notifications::mark_notification_read, (id, query), marked),
        call_ensures(notifications::dismiss_notification, (id, query), dismissed),
        call_ensures(notifications::clear_notifications, (clear,), cleared),
    ensures
        listed.access_to == query.user_id,
        listed.operation matches Operation::List { user_id } && user_id == query.user_id,
        marked.access_to == query.user_id,
        marked.operation matches Operation::MarkRead { user_id, id: i } && user_id == query.user_id
            && i@ == id@,
        dismissed.access_to == query.user_id,
        dismissed.operation matches Operation::Dismiss { user_id, id: i } && user_id
            == query.user_id && i@ == id@,
        cleared.access_to == clear.user_id,
        cleared.operation matches Operation::Clear { user_id, read_only } && user_id
            == clear.user_id && read_only == clear.read_only,
{
}

/// Tasks are shown only to those with access to their user: a list to the user it is of, one task
/// to the user who has it. A request for active tasks is for the user whose number it writes, and
/// for nobody where it writes none.
pub proof fn law_tasks_are_shown_to_their_user(
    user_id: i32,
    list: TaskCall,
    of_list: Option<i32>,
    task: TaskInfo,
    one: TaskCall,
    of_one: Option<i32>,
    written: Option<&str>,
    active: TaskCall,
    of_active: Option<i32>,
    digits: &str,
    read: Option<i32>,
)
    requires
        call_ensures(websocket::get_user_tasks, (user_id,), list),
        call_ensures(TaskCall::access_needed, (&list,), of_list),
        call_ensures(websocket::get_task_status, (task,), one),
        call_ensures(TaskCall::access_needed, (&one,), of_one),
        call_ensures(websocket::get_active_tasks, (written,), active),
        call_ensures(TaskCall::access_needed, (&active,), of_active),
        call_ensures(text::parse_i32, (digits,), read),
    ensures
        written is Some && written->0@ == digits@ ==> (active is Nothing <==> read is None),
        written is Some && written->0@ == digits@ ==> (read matches Some(u) ==> active
            == (TaskCall::Active { user_id: u })),
        list == (TaskCall::List { user_id }),
        of_list == Some(user_id),
        one == (TaskCall::Show { task }),
        of_one == Some(task.user_id),
        active is Active || active is Nothing,
        of_active is Some <==> active is Active,
        active matches TaskCall::Active { user_id: u } ==> of_active == Some(u),
        written is None ==> active is Nothing,
        written is Some && written->0@ == text::decimal_text(user_id as int) ==> active
            == (TaskCall::Active { user_id }),
        active is Active ==> written is Some && written->0@.len() > 0,
{
    text::law_printed_number_reads_back(user_id);
}

/// Of a list of tasks, those that are pending or running are active, in the order of the list.
pub proof fn law_active_tasks_are_pending_or_running(
    tasks: Vec<TaskInfo>,
    active: Vec<TaskInfo>,
)
    requires
        call_ensures(websocket::only_active, (tasks,), active),
    ensures
        active@ == tasks@.filter(|t: TaskInfo| t.status is Pending || t.status is Running),
{
    let way = |t: TaskInfo| websocket::under_way(t);
    assert(way =~= (|t: TaskInfo| t.status is Pending || t.status is Running));
}

// ---- words between server and client ----

/// The words by which the server names statuses and severities are those that the client knows
/// them by: each its own, what is pending or running active to the client, what has completed or
/// failed done, and warnings and errors on the badge.
pub proof fn law_client_knows_the_words_of_the_server(
    status: TaskStatus,
    word: &'static str,
    active: bool,
    running: bool,
    done: bool,
    severity: MsgSeverity,
    name: &'static str,
    counts: bool,
)
    requires
        call_ensures(TaskStatus::name, (&status,), word),
        call_ensures(progress::is_active, (word,), active),
        call_ensures(progress::is_progress, (word,), running),
        call_ensures(progress::is_done, (word,), done),
        call_ensures(MsgSeverity::name, (&severity,), name),
        call_ensures(progress::msg_counts_badge, (name,), counts),
    ensures
        word@ == "PENDING"@ <==> status is Pending,
        word@ == "DOWNLOADING"@ <==> status is Running,
        word@ == "SUCCESS"@ <==> status is Completed,
        word@ == "FAILED"@ <==> status is Failed,
        active <==> status is Pending || status is Running,
        running <==> status is Running,
        done <==> status is Completed || status is Failed,
        name@ == "info"@ <==> severity is Info,
        name@ == "success"@ <==> severity is Success,
        name@ == "warning"@ <==> severity is Warning,
        name@ == "error"@ <==> severity is Error,
        counts <==> severity is Warning || severity is Error,
{
    progress::law_reported_states_are_understood(status);
    progress::law_badge_counts_what_needs_attention(severity);
    reveal_strlit("PENDING");
    reveal_strlit("DOWNLOADING");
    reveal_strlit("SUCCESS");
    reveal_strlit("FAILED");
    assert("PENDING"@[0] == 'P' && "DOWNLOADING"@[0] == 'D' && "SUCCESS"@[0] == 'S' && "FAILED"@[0]
        == 'F');
    reveal_strlit("info");
    reveal_strlit("success");
    reveal_strlit("warning");
    reveal_strlit("error");
    assert("info"@[0] == 'i' && "success"@[0] == 's' && "warning"@[0] == 'w' && "error"@[0] == 'e');
}

/// What the client takes a status for goes by the word alone, for every word there is.
pub proof fn law_statuses_are_classified_by_their_words(
    word: &str,
    running: bool,
    active: bool,
    done: bool,
    kind: &'static str,
    rank: u8,
)
    requires
        call_ensures(progress::is_progress, (word,), running),
        call_ensures(progress::is_active, (word,), active),
        call_ensures(progress::is_done, (word,), done),
        call_ensures(progress::kind_class, (word,), kind),
        call_ensures(progress::rank, (word,), rank),
    ensures
        running <==> word@ == "PROGRESS"@ || word@ == "STARTED"@ || word@ == "DOWNLOADING"@ || word@
            == "PROCESSING"@ || word@ == "FINALIZING"@,
        active <==> running || word@ == "PENDING"@,
        done <==> word@ == "SUCCESS"@ || word@ == "FAILED"@,
        !(active && done),
        // What is shown as active in colour is all that is neither queued nor ended.
        kind@ == "active"@ <==> !done && word@ != "PENDING"@,
        kind@ == "queued"@ <==> word@ == "PENDING"@,
        kind@ == "success"@ <==> word@ == "SUCCESS"@,
        kind@ == "failed"@ <==> word@ == "FAILED"@,
        // What runs stands before what is queued, that before what failed, that before the rest.
        running <==> rank == 0,
        word@ == "PENDING"@ <==> rank == 1,
        word@ == "FAILED"@ <==> rank == 2,
        rank <= 3,
{
    progress::law_active_is_not_done(word@);
    reveal_strlit("queued");
    reveal_strlit("success");
    reveal_strlit("failed");
    reveal_strlit("active");
    assert("queued"@[0] == 'q' && "success"@[0] == 's' && "failed"@[0] == 'f' && "active"@[0]
        == 'a');
    reveal_strlit("PENDING");
    reveal_strlit("PROGRESS");
    reveal_strlit("STARTED");
    reveal_strlit("DOWNLOADING");
    reveal_strlit("PROCESSING");
    reveal_strlit("FINALIZING");
    reveal_strlit("SUCCESS");
    reveal_strlit("FAILED");
    assert("PENDING"@[1] == 'E' && "PROGRESS"@[1] == 'R' && "STARTED"@[1] == 'T'
        && "DOWNLOADING"@[1]
        == 'O' && "PROCESSING"@[1] == 'R' && "FINALIZING"@[1] == 'I' && "SUCCESS"@[1] == 'U'
        && "FAILED"@[1] == 'A');
}

/// One check after the other, a request comes nearer to being granted or is refused; the refusal of
/// a key without access says what it was given to say.
pub proof fn law_each_answer_leads_on_or_ends(
    from: Authorization,
    checked: Checked,
    refusal: &str,
    to: Authorization,
)
    requires
        call_ensures(access::proceed, (from, checked, refusal), to),
    ensures
        to is Granted <==> from is Granted || (from is Access && checked == Checked::Access(
            Ok(true),
        )),
        to is Access <==> (from is Access && !(checked is Access)) || (from is Validity && checked
            == Checked::Validity(Ok(true))),
        from is Access && checked == Checked::Access(Ok(false))
            ==> (to matches Authorization::Refused {
            error,
        } && (error matches AppError::Forbidden { message } && message@ == refusal@)),
        from is Validity && checked == Checked::Validity(Ok(false)) ==> (
        to matches Authorization::Refused { error } && (error matches AppError::Unauthorized {
            message,
        } && message@ == "Invalid API key"@)),
        from is Granted || from is Refused ==> to == from,
{
}

/// What an operation is answered with that changed something says that all is well, and nothing
/// else.
pub proof fn law_changes_are_answered_with_ok(r: serde_json::Value)
    requires
        call_ensures(notifications::done, (), r),
    ensures
        crate::json::is_object(r),
        crate::json::members(r).contains_key("status"@),
        crate::json::as_text(crate::json::members(r)["status"@]) == Some("ok"@),
        forall|key: Seq<char>| #[trigger]
            crate::json::members(r).contains_key(key) ==> key == "status"@,
{
    assert(crate::json::members(r).dom().contains("status"@));
    assert forall|key: Seq<char>| #[trigger] crate::json::members(r).contains_key(key) implies key
        == "status"@ by {
        assert(crate::json::members(r).dom().contains(key));
    }
}

/// At first nobody is told anything, and a manager stamps what it publishes with the id it was
/// given.
pub proof fn law_replica_begins_without_channels(
    channels: WebSocketManager,
    user_id: i32,
    told: Vec<u64>,
    id: String,
    manager: TaskManager,
    event: BridgeEvent,
    published: Signal,
    severity: MsgSeverity,
)
    requires
        call_ensures(WebSocketManager::new, (), channels),
        call_ensures(WebSocketManager::broadcast_to_user, (&channels, user_id), told),
        call_ensures(TaskManager::new, (id,), manager),
        call_ensures(TaskManager::publish_bridge, (&manager, event), published),
        call_ensures(MsgSeverity::default, (), severity),
    ensures
        told@.len() == 0,
        published matches Signal::Publish(packet) && packet.instance_id@ == id@,
        severity is Info,
{
}

} // verus!
