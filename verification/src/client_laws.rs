//! What the client's state goes through, told of what it was before and what it is after: toasts,
//! the drawer, and the requests to the server.

use crate::notification_center;
use crate::notification_center::{AuthDetails, Credentials, Drawer, Tab};
use crate::notify;
use crate::notify::{NotificationMessage, NotificationState, Post, Reply};
use crate::progress::{Details, RefreshProgress, TaskProgress};
use crate::text;
use crate::toasts;
use crate::toasts::{ToastItem, ToastKind, ToastView, Toasts};
use vstd::prelude::*;

verus! {

// ---- toasts ----

/// A note is shown unless a toast tells the same visibly: it stands behind the others, under a
/// number of its own, tells what it was given, and runs out five seconds later. Nothing else
/// changes.
pub proof fn law_note_is_shown_for_five_seconds(
    toasts: &mut Toasts,
    kind: ToastKind,
    content: &str,
    now: i64,
    added: bool,
)
    requires
        old(toasts).wf(),
        call_ensures(Toasts::show, (toasts, kind, content, now), added),
    ensures
        added <==> !(exists|i: int|
            0 <= i < old(toasts).queue@.len() && (#[trigger] old(toasts).queue@[i]).visible
                && old(toasts).queue@[i].kind == kind
                && old(toasts).queue@[i].content@ == content@),
        !added ==> *final(toasts) == *old(toasts),
        added ==> {
            let toast = final(toasts).queue@.last();
            &&& final(toasts).queue@ == old(toasts).queue@.push(toast)
            &&& toast.content@ == content@
            &&& toast.kind == kind
            &&& toast.visible
            &&& toast.expiry_time == now + 5_000
            &&& forall|i: int|
                0 <= i < old(toasts).queue@.len() ==> (#[trigger] old(toasts).queue@[i]).id
                    < toast.id
        },
{
    if exists|i: int|
        0 <= i < old(toasts).queue@.len() && (#[trigger] old(toasts).queue@[i]).visible
            && old(toasts).queue@[i].kind == kind && old(toasts).queue@[i].content@ == content@ {
        let i = choose|i: int|
            0 <= i < old(toasts).queue@.len() && (#[trigger] old(toasts).queue@[i]).visible
                && old(toasts).queue@[i].kind == kind && old(toasts).queue@[i].content@ == content@;
        assert(toasts::tells(old(toasts).queue@[i], kind, content@));
    }
    if added {
        let queue = final(toasts).queue@;
        assert(queue.drop_last().push(queue.last()) =~= queue);
        assert forall|i: int| 0 <= i < old(toasts).queue@.len() implies (
        #[trigger] old(toasts).queue@[i]).id < queue.last().id by {
            assert(old(toasts).queue@[i].id < old(toasts).counter);
        }
    } else {
        let i = choose|i: int|
            0 <= i < old(toasts).queue@.len() && toasts::tells(
                #[trigger] old(toasts).queue@[i],
                kind,
                content@,
            );
        assert(old(toasts).queue@[i].visible);
    }
}

/// Looking after the toasts keeps each one as it is until it runs out, hides it for the half second
/// after that, and then removes it; what was hidden stays hidden, and nothing is added or put in
/// another order.
pub proof fn law_toasts_fade_in_time(toasts: &mut Toasts, now: i64, toast: ToastItem)
    requires
        call_ensures(Toasts::tick, (toasts, now), ()),
        old(toasts).queue@.contains(toast),
    ensures
        now < toast.expiry_time ==> final(toasts).queue@.contains(toast),
        toast.expiry_time <= now < toast.expiry_time + 500 ==> final(toasts).queue@.contains(
            ToastItem { visible: false, ..toast },
        ),
        forall|i: int|
            0 <= i < final(toasts).queue@.len() ==> {
                let t = #[trigger] final(toasts).queue@[i];
                &&& now < t.expiry_time + 500
                &&& t.visible ==> now < t.expiry_time
                &&& old(toasts).queue@.contains(t) || old(toasts).queue@.contains(
                    ToastItem { visible: true, ..t },
                )
            },
        final(toasts).counter == old(toasts).counter,
        forall|i: int, j: int|
            0 <= i < j < final(toasts).queue@.len() ==> (#[trigger] final(toasts).queue@[i]).id
                < (#[trigger] final(toasts).queue@[j]).id,
{
    let queue = old(toasts).queue@;
    let after = toasts::looked_after(queue, now as int);
    let k = choose|k: int| 0 <= k < queue.len() && queue[k] == toast;
    if now < toast.expiry_time + 500 {
        lemma_stays(queue, now as int, k);
    }
    assert forall|i: int| 0 <= i < after.len() implies {
        let t = #[trigger] after[i];
        &&& now < t.expiry_time + 500
        &&& t.visible ==> now < t.expiry_time
        &&& queue.contains(t) || queue.contains(ToastItem { visible: true, ..t })
    } by {
        toasts::law_toasts_run_out(queue, now as int, i);
        toasts::lemma_source(queue, now as int, i);
        let j = choose|j: int|
            0 <= j < queue.len() && toasts::at_instant(#[trigger] queue[j], now as int) == after[i];
        assert(queue.contains(queue[j]));
        if queue[j].visible {
            assert(queue[j] == (ToastItem { visible: true, ..after[i] }));
        } else {
            assert(queue[j] == after[i]);
        }
    }
}

proof fn lemma_stays(queue: Seq<ToastItem>, now: int, k: int)
    requires
        0 <= k < queue.len(),
        now < queue[k].expiry_time + 500,
    ensures
        toasts::looked_after(queue, now).contains(toasts::at_instant(queue[k], now)),
    decreases queue.len(),
{
    let rest = queue.drop_last();
    let before = toasts::looked_after(rest, now);
    let after = toasts::looked_after(queue, now);
    if k < rest.len() {
        lemma_stays(rest, now, k);
        let i = choose|i: int|
            0 <= i < before.len() && before[i] == toasts::at_instant(rest[k], now);
        assert(after[i] == toasts::at_instant(queue[k], now));
    } else {
        assert(after[after.len() - 1] == toasts::at_instant(queue[k], now));
    }
}

/// Dismissing a toast hides it, and changes no other.
pub proof fn law_dismissing_hides_one_toast(toasts: &mut Toasts, id: usize, i: int)
    requires
        call_ensures(Toasts::dismiss, (toasts, id), ()),
        0 <= i < old(toasts).queue@.len(),
    ensures
        final(toasts).queue@.len() == old(toasts).queue@.len(),
        final(toasts).counter == old(toasts).counter,
        old(toasts).queue@[i].id == id ==> !final(toasts).queue@[i].visible,
        old(toasts).queue@[i].id != id ==> final(toasts).queue@[i] == old(toasts).queue@[i],
        final(toasts).queue@[i] == (ToastItem {
            visible: final(toasts).queue@[i].visible,
            ..old(toasts).queue@[i]
        }),
{
}

/// What a toast told is cleared where it still stands, and what has taken its place is not; the
/// other kind of message, tasks and durable messages stay.
pub proof fn law_told_message_is_cleared(
    state: &mut NotificationState,
    kind: ToastKind,
    content: &str,
)
    requires
        call_ensures(toasts::clear_told, (state, kind, content), ()),
    ensures
        kind is Error && text::held(old(state).error_message) == Some(content@)
            ==> final(state).error_message is None,
        kind is Info && text::held(old(state).info_message) == Some(content@)
            ==> final(state).info_message is None,
        kind is Info || text::held(old(state).error_message) != Some(content@)
            ==> final(state).error_message == old(state).error_message,
        kind is Error || text::held(old(state).info_message) != Some(content@)
            ==> final(state).info_message == old(state).info_message,
        final(state).active_tasks == old(state).active_tasks,
        final(state).messages == old(state).messages,
{
}

/// Every toast appears, in its order, with what it tells: faded exactly if it is hidden, and as an
/// error exactly if it is one.
pub proof fn law_toasts_appear_as_they_are(toasts: Toasts, views: Vec<ToastView>, i: int)
    requires
        call_ensures(toasts::toast_notification, (&toasts,), views),
        0 <= i < toasts.queue@.len(),
    ensures
        views@.len() == toasts.queue@.len(),
        views@[i].id == toasts.queue@[i].id,
        views@[i].content@ == toasts.queue@[i].content@,
        views@[i].item_class@ == "toast-visible"@ <==> toasts.queue@[i].visible,
        views@[i].item_class@ == "toast-hidden"@ <==> !toasts.queue@[i].visible,
        views@[i].toast_class@ == "toast-error"@ <==> toasts.queue@[i].kind is Error,
        views@[i].toast_class@ == "toast-info"@ <==> toasts.queue@[i].kind is Info,
        views@[i].icon_class@ == "ph ph-warning-circle"@ <==> toasts.queue@[i].kind is Error,
        views@[i].icon_class@ == "ph ph-info"@ <==> toasts.queue@[i].kind is Info,
{
    assert(toasts::appears(views@[i], toasts.queue@[i]));
    reveal_strlit("toast-visible");
    reveal_strlit("toast-hidden");
    reveal_strlit("toast-error");
    reveal_strlit("toast-info");
    reveal_strlit("ph ph-warning-circle");
    reveal_strlit("ph ph-info");
    assert("toast-visible"@.len() == 13 && "toast-hidden"@.len() == 12);
    assert("toast-error"@.len() == 11 && "toast-info"@.len() == 10);
    assert("ph ph-warning-circle"@.len() == 20 && "ph ph-info"@.len() == 10);
}

// ---- the client's copy ----

/// A note takes the place of the last one of its kind: what informs or succeeds among what informs,
/// an error among errors; all else stays.
pub proof fn law_notes_replace_their_kind(
    informed: &mut NotificationState,
    pleased: &mut NotificationState,
    failed: &mut NotificationState,
    message: String,
)
    requires
        call_ensures(notify::toast_info, (informed, message), ()),
        call_ensures(notify::toast_success, (pleased, message), ()),
        call_ensures(notify::toast_error, (failed, message), ()),
    ensures
        final(informed).info_message == Some(message),
        final(informed).error_message == old(informed).error_message,
        final(informed).active_tasks == old(informed).active_tasks,
        final(informed).messages == old(informed).messages,
        final(pleased).info_message == Some(message),
        final(pleased).error_message == old(pleased).error_message,
        final(pleased).active_tasks == old(pleased).active_tasks,
        final(pleased).messages == old(pleased).messages,
        final(failed).error_message == Some(message),
        final(failed).info_message == old(failed).info_message,
        final(failed).active_tasks == old(failed).active_tasks,
        final(failed).messages == old(failed).messages,
{
}

/// Dismissing a task takes the one with that id off the list, and clearing takes those that have
/// ended; dismissing a message takes the one with that id. What stays, stays in its order, and
/// nothing else changes.
pub proof fn law_dismissals_take_what_they_name(
    one: &mut NotificationState,
    ended: &mut NotificationState,
    told: &mut NotificationState,
    id: &str,
)
    requires
        call_ensures(NotificationState::dismiss_task, (one, id), ()),
        call_ensures(NotificationState::clear_done, (ended,), ()),
        call_ensures(NotificationState::dismiss_message, (told, id), ()),
    ensures
        final(one).active_tasks is Some == old(one).active_tasks is Some,
        old(one).active_tasks matches Some(tasks) ==> final(one).active_tasks->0@ == tasks@.filter(
            |t: TaskProgress| t.task_id@ != id@,
        ),
        final(one).messages == old(one).messages,
        final(one).error_message == old(one).error_message,
        final(one).info_message == old(one).info_message,
        final(ended).active_tasks is Some == old(ended).active_tasks is Some,
        old(ended).active_tasks matches Some(tasks) ==> final(ended).active_tasks->0@
            == tasks@.filter(
            |t: TaskProgress| t.status@ != "SUCCESS"@ && t.status@ != "FAILED"@,
        ),
        final(ended).messages == old(ended).messages,
        final(ended).error_message == old(ended).error_message,
        final(ended).info_message == old(ended).info_message,
        final(told).messages@ == old(told).messages@.filter(
            |m: NotificationMessage| m.id@ != id@,
        ),
        final(told).active_tasks == old(told).active_tasks,
        final(told).error_message == old(told).error_message,
        final(told).info_message == old(told).info_message,
{
    let a = |t: TaskProgress| !notify::is_task(t, id@);
    assert(a =~= (|t: TaskProgress| t.task_id@ != id@));
    let b = |t: TaskProgress| !crate::progress::done(t.status@);
    assert(b =~= (|t: TaskProgress| t.status@ != "SUCCESS"@ && t.status@ != "FAILED"@));
    let c = |m: NotificationMessage| !notify::is_message(m, id@);
    assert(c =~= (|m: NotificationMessage| m.id@ != id@));
}

// ---- requests ----

/// An address of a server, with any slashes at its end taken off.
pub open spec fn is_base(base: Seq<char>, server_name: Seq<char>) -> bool {
    &&& base.len() <= server_name.len()
    &&& server_name.take(base.len() as int) == base
    &&& forall|i: int| base.len() <= i < server_name.len() ==> #[trigger] server_name[i] == '/'
    &&& base.len() > 0 ==> base.last() != '/'
}

proof fn lemma_base(server_name: Seq<char>)
    ensures
        is_base(text::without_trailing(server_name, '/'), server_name),
    decreases server_name.len(),
{
    let base = text::without_trailing(server_name, '/');
    if server_name.len() > 0 && server_name.last() == '/' {
        let rest = server_name.drop_last();
        lemma_base(rest);
        assert(server_name.take(base.len() as int) =~= rest.take(base.len() as int));
        assert forall|i: int| base.len() <= i < server_name.len() implies #[trigger] server_name[i]
            == '/' by {
            if i < rest.len() {
                assert(rest[i] == '/');
            }
        }
    } else {
        assert(server_name.take(base.len() as int) =~= base);
    }
}

/// Requests on notifications go to the server by its address, name the user and the notification
/// they are about, and bear the key; clearing says whether only what was read is to go.
pub proof fn law_requests_name_what_they_are_about(
    server_name: &str,
    api_key: &str,
    user_id: i32,
    id: &str,
    read_only: bool,
    dismissed: Post,
    marked: Post,
    cleared: Post,
)
    requires
        call_ensures(notify::dismiss_notification, (server_name, api_key, user_id, id), dismissed),
        call_ensures(notify::mark_notification_read, (server_name, api_key, user_id, id), marked),
        call_ensures(
            notify::clear_notifications,
            (server_name, api_key, user_id, read_only),
            cleared,
        ),
    ensures
        dismissed.api_key@ == api_key@,
        marked.api_key@ == api_key@,
        cleared.api_key@ == api_key@,
        dismissed.purpose@ == "dismiss notification"@,
        marked.purpose@ == "mark notification read"@,
        cleared.purpose@ == "clear notifications"@,
        exists|base: Seq<char>|
            {
                let at = base + "/api/data/notifications/"@;
                let user = text::decimal_text(user_id as int);
                &&& #[trigger] is_base(base, server_name@)
                &&& dismissed.url@ == at + id@ + "/dismiss?user_id="@ + user
                &&& marked.url@ == at + id@ + "/read?user_id="@ + user
                &&& read_only ==> cleared.url@ == at + "clear?user_id="@ + user + "&read_only="@
                    + "true"@
                &&& !read_only ==> cleared.url@ == at + "clear?user_id="@ + user + "&read_only="@
                    + "false"@
            },
{
    lemma_base(server_name@);
}

/// A request went well exactly if the server said so; otherwise the error says what was asked for
/// and either why it could not be sent or which status came back.
pub proof fn law_replies_are_settled(post: Post, reply: Reply, r: Result<(), String>)
    requires
        call_ensures(Post::settle, (&post, reply), r),
    ensures
        reply matches Reply::Answered { ok: true, .. } ==> r is Ok,
        reply matches Reply::Answered { ok: false, status } ==> r is Err && r->Err_0@
            == post.purpose@ + " failed: "@ + text::decimal_text(status as int),
        reply matches Reply::Unsent(reason) ==> r is Err && r->Err_0@ == post.purpose@ + ": "@
            + reason@,
{
}

/// A user acts on the server once it is known who they are and by which key; dismissing a message
/// then asks the server to forget it, in their name.
pub proof fn law_credentials_are_the_users(
    user_id: Option<i32>,
    auth: Option<AuthDetails>,
    creds: Option<Credentials>,
    id: &str,
    post: Option<Post>,
)
    requires
        call_ensures(notification_center::credentials, (user_id, &auth), creds),
        call_ensures(notification_center::dismiss_on_server, (&creds, id), post),
    ensures
        creds is Some <==> user_id is Some && auth is Some && auth->0.api_key is Some,
        creds matches Some(c) ==> c.user_id == user_id->0 && c.api_key@ == auth->0.api_key->0@
            && c.server_name@ == auth->0.server_name@,
        post is Some <==> creds is Some,
        post matches Some(p) ==> p.api_key@ == auth->0.api_key->0@ && exists|base: Seq<char>|
            #[trigger] is_base(base, auth->0.server_name@) && p.url@ == base
                + "/api/data/notifications/"@ + id@ + "/dismiss?user_id="@ + text::decimal_text(
                user_id->0 as int,
            ),
{
    if creds is Some {
        lemma_base(auth->0.server_name@);
    }
}

// ---- the drawer ----

/// The bell opens a closed drawer and closes an open one, so that ringing it twice changes nothing;
/// closing it and leaving for the settings close it. None of these turns to another tab or
/// opens a group.
pub proof fn law_drawer_opens_and_closes(
    once: &mut Drawer,
    twice: &mut Drawer,
    closed: &mut Drawer,
    left: &mut Drawer,
    navigable: bool,
    to: Option<notification_center::Destination>,
)
    requires
        call_ensures(Drawer::toggle_drawer, (once,), ()),
        *old(twice) == *final(once),
        call_ensures(Drawer::toggle_drawer, (twice,), ()),
        call_ensures(Drawer::close_drawer, (closed,), ()),
        call_ensures(Drawer::go_settings, (left, navigable), to),
    ensures
        final(once).open != old(once).open,
        final(once).tab == old(once).tab && final(once).expanded == old(once).expanded,
        *final(twice) == *old(once),
        !final(closed).open,
        final(closed).tab == old(closed).tab && final(closed).expanded == old(closed).expanded,
        !final(left).open,
        final(left).tab == old(left).tab && final(left).expanded == old(left).expanded,
        to is Some <==> navigable,
{
}

/// Turning to a tab turns to that one; opening a group opens it or closes it, and no other.
pub proof fn law_drawer_turns_to_what_is_chosen(
    turned: &mut Drawer,
    tab: Tab,
    opened: &mut Drawer,
    key: String,
    group: &str,
    before: bool,
    after: bool,
)
    requires
        call_ensures(Drawer::set_tab, (turned, tab), ()),
        call_ensures(Drawer::shows_children_of, (&*old(opened), group), before),
        call_ensures(Drawer::toggle_group, (opened, key), ()),
        call_ensures(Drawer::shows_children_of, (&*final(opened), group), after),
    ensures
        tab is All ==> final(turned).tab@ == "all"@,
        tab is Active ==> final(turned).tab@ == "active"@,
        tab is Done ==> final(turned).tab@ == "done"@,
        final(turned).open == old(turned).open && final(turned).expanded == old(turned).expanded,
        group@ == key@ ==> after != before,
        group@ != key@ ==> after == before,
        final(opened).open == old(opened).open && final(opened).tab == old(opened).tab,
{
}

// ---- what a refresh is shown as ----

/// A refresh of feeds is shown as a task that runs, as far as it has come, and names the podcast it
/// is at and how many of how many it has done.
pub proof fn law_refresh_is_shown_as_a_task(
    refresh: RefreshProgress,
    percent: crate::double::Double,
    stamp: i64,
    started: i64,
    task: TaskProgress,
)
    requires
        call_ensures(
            TaskProgress::from_refresh_progress,
            (&refresh, percent, stamp, started),
            task,
        ),
    ensures
        task.status@ == "PROGRESS"@,
        task.task_type@ == "feed_refresh"@,
        task.task_id@ == "feed_refresh_"@ + text::decimal_text(stamp as int),
        task.started_at@ == text::decimal_text(started as int),
        refresh.total > 0 ==> task.progress == percent,
        refresh.total <= 0 ==> task.progress.bits == 0,
        task.details is Some,
        ({
            let m = task.details->0@;
            &&& m.contains_key("current_podcast"@) && m["current_podcast"@]
                == refresh.current_podcast@
            &&& m.contains_key("current"@) && m["current"@] == text::decimal_text(
                refresh.current as int,
            )
            &&& m.contains_key("total"@) && m["total"@] == text::decimal_text(refresh.total as int)
            &&& forall|key: Seq<char>| #[trigger]
                m.contains_key(key) ==> key == "current_podcast"@ || key == "current"@ || key
                    == "total"@
        }),
        task.user_id == 0,
        task.item_id is None && task.group is None && task.completed_at is None
            && task.completion_time is None && task.detail is None && task.art_url is None
            && task.group_label is None && task.total is None,
{
    reveal_strlit("current_podcast");
    reveal_strlit("current");
    reveal_strlit("total");
    assert("current_podcast"@.len() == 15 && "current"@.len() == 7 && "total"@.len() == 5);
}

/// Of texts put under one key the last is read back, and none where none was put.
pub proof fn law_last_entry_is_read_back(
    details: &mut Details,
    key: String,
    value: String,
    asked: &str,
    before: Option<String>,
    after: Option<String>,
)
    requires
        call_ensures(Details::get, (&*old(details), asked), before),
        call_ensures(Details::insert, (details, key, value), ()),
        call_ensures(Details::get, (&*final(details), asked), after),
    ensures
        asked@ == key@ ==> text::held(after) == Some(value@),
        asked@ != key@ ==> text::held(after) == text::held(before),
{
}

// ---- beginnings ----

/// At first the drawer is closed and turned to all there is, no group is open, no toast is shown
/// and no detail is held.
pub proof fn law_client_begins_with_nothing(
    drawer: Drawer,
    key: &str,
    shown: bool,
    toasts: Toasts,
    views: Vec<ToastView>,
    details: Details,
    entry: Option<String>,
)
    requires
        call_ensures(Drawer::new, (), drawer),
        call_ensures(Drawer::shows_children_of, (&drawer, key), shown),
        call_ensures(Toasts::new, (), toasts),
        call_ensures(toasts::toast_notification, (&toasts,), views),
        call_ensures(Details::new, (), details),
        call_ensures(Details::get, (&details, key), entry),
    ensures
        !drawer.open,
        drawer.tab@ == "all"@,
        !shown,
        views@.len() == 0,
        entry is None,
{
}

/// A message is cleared when the toast that told it is gone: looking after the toasts that long
/// after it was shown removes it, and not before. They are looked after several times while a
/// toast fades.
pub proof fn law_message_goes_with_its_toast(
    toasts: &mut Toasts,
    shown_at: i64,
    now: i64,
    toast: ToastItem,
)
    requires
        call_ensures(Toasts::tick, (toasts, now), ()),
        old(toasts).queue@.contains(toast),
        toast.expiry_time == shown_at + 5_000,
    ensures
        now >= shown_at + toasts::CLEAR_MS ==> !final(toasts).queue@.contains(toast)
            && !final(toasts).queue@.contains(ToastItem { visible: false, ..toast }),
        shown_at <= now < shown_at + toasts::CLEAR_MS ==> final(toasts).queue@.contains(toast)
            || final(toasts).queue@.contains(ToastItem { visible: false, ..toast }),
        0 < 5 * toasts::TICK_MS <= toasts::CLEAR_MS - 5_000,
{
    law_toasts_fade_in_time(toasts, now, toast);
    let after = final(toasts).queue@;
    if now >= shown_at + toasts::CLEAR_MS {
        if after.contains(toast) {
            let i = choose|i: int| 0 <= i < after.len() && after[i] == toast;
            assert(now < after[i].expiry_time + 500);
        }
        let hidden = ToastItem { visible: false, ..toast };
        if after.contains(hidden) {
            let i = choose|i: int| 0 <= i < after.len() && after[i] == hidden;
            assert(now < after[i].expiry_time + 500);
        }
    }
}

} // verus!
