//! What the activity centre shows, told of the statuses and severities that go into it.

use crate::double::Double;
use crate::notification_center;
use crate::notification_center::{
    ActivityView, Drawer, Footer, GroupCard, Label, LabelView, MessageCard, Part, Section, TaskCard,
};
use crate::notify::NotificationMessage;
use crate::order;
use crate::progress;
use crate::progress::{GroupNode, RenderNode, TaskProgress};
use crate::text;
use vstd::prelude::*;

verus! {

// ---- words ----

/// Whether a task runs, by the word for its status.
pub open spec fn runs(task: TaskProgress) -> bool {
    ||| task.status@ == "PROGRESS"@
    ||| task.status@ == "STARTED"@
    ||| task.status@ == "DOWNLOADING"@
    ||| task.status@ == "PROCESSING"@
    ||| task.status@ == "FINALIZING"@
}

/// Whether a task is queued or runs.
pub open spec fn under_way(task: TaskProgress) -> bool {
    task.status@ == "PENDING"@ || runs(task)
}

/// Whether a task has ended, well or not.
pub open spec fn over(task: TaskProgress) -> bool {
    task.status@ == "SUCCESS"@ || task.status@ == "FAILED"@
}

/// Whether a message is an error or a warning.
pub open spec fn serious(message: NotificationMessage) -> bool {
    message.severity@ == "error"@ || message.severity@ == "warning"@
}

/// How many tasks are queued or run.
pub open spec fn number_under_way(tasks: Seq<TaskProgress>) -> nat {
    tasks.filter(|t: TaskProgress| under_way(t)).len()
}

/// How many tasks run.
pub open spec fn number_running(tasks: Seq<TaskProgress>) -> nat {
    tasks.filter(|t: TaskProgress| runs(t)).len()
}

/// How many tasks have ended.
pub open spec fn number_over(tasks: Seq<TaskProgress>) -> nat {
    tasks.filter(|t: TaskProgress| over(t)).len()
}

/// How many messages are errors or warnings.
pub open spec fn number_serious(messages: Seq<NotificationMessage>) -> nat {
    messages.filter(|m: NotificationMessage| serious(m)).len()
}

proof fn lemma_parts(tasks: Seq<TaskProgress>, messages: Seq<NotificationMessage>)
    ensures
        notification_center::tasks_of(tasks, Part::Active) == tasks.filter(
            |t: TaskProgress| under_way(t),
        ),
        notification_center::tasks_of(tasks, Part::Done) == tasks.filter(
            |t: TaskProgress| over(t),
        ),
        notification_center::tasks_of(tasks, Part::Running) == tasks.filter(
            |t: TaskProgress| runs(t),
        ),
        notification_center::errors_of(messages) == messages.filter(
            |m: NotificationMessage| serious(m),
        ),
{
    let active = |t: TaskProgress| notification_center::belongs(t, Part::Active);
    let done = |t: TaskProgress| notification_center::belongs(t, Part::Done);
    let running = |t: TaskProgress| notification_center::belongs(t, Part::Running);
    let counts = |m: NotificationMessage| progress::counts_badge(m.severity@);
    assert(active =~= (|t: TaskProgress| under_way(t)));
    assert(done =~= (|t: TaskProgress| over(t)));
    assert(running =~= (|t: TaskProgress| runs(t)));
    assert(counts =~= (|m: NotificationMessage| serious(m)));
}

// ---- the bell and the tabs ----

/// The badge of the bell counts the tasks that are queued or run and the messages that are errors
/// or warnings: it is absent where there are none, and says "9+" above nine. The bell rings
/// exactly where there is a badge, and the tab "Active" has the same number.
pub proof fn law_badge_counts_active_and_serious(
    drawer: Drawer,
    tasks: Vec<TaskProgress>,
    messages: Vec<NotificationMessage>,
    average: Double,
    view: ActivityView,
)
    requires
        call_ensures(
            notification_center::notification_center,
            (&drawer, tasks, messages, average),
            view,
        ),
    ensures
        ({
            let n = number_under_way(tasks@) + number_serious(messages@);
            &&& view.badge is None <==> n == 0
            &&& view.badge is Some && n <= 9 ==> view.badge->0@ == text::decimal_text(n as int)
            &&& n > 9 ==> view.badge->0@ == "9+"@
            &&& n > 0 ==> view.bell_icon@ == "ph-bell-ringing"@
            &&& n == 0 ==> view.bell_icon@ == "ph-bell"@
            &&& view.active.pip is None <==> n == 0
            &&& n > 0 ==> view.active.pip->0 == n
        }),
{
    lemma_parts(tasks@, messages@);
}

/// The tabs bear their names and numbers: "All" that of all tasks and messages, "Done" that of
/// the tasks that have ended; each without one where it would be zero. The one that is turned
/// to is marked.
pub proof fn law_tabs_count_what_they_show(
    drawer: Drawer,
    tasks: Vec<TaskProgress>,
    messages: Vec<NotificationMessage>,
    average: Double,
    view: ActivityView,
)
    requires
        call_ensures(
            notification_center::notification_center,
            (&drawer, tasks, messages, average),
            view,
        ),
    ensures
        view.open == drawer.open,
        view.all.id@ == "all"@ && view.all.label@ == "All"@,
        view.active.id@ == "active"@ && view.active.label@ == "Active"@,
        view.done.id@ == "done"@ && view.done.label@ == "Done"@,
        view.all.is_active == (drawer.tab@ == "all"@),
        view.active.is_active == (drawer.tab@ == "active"@),
        view.done.is_active == (drawer.tab@ == "done"@),
        view.all.pip is None <==> tasks@.len() + messages@.len() == 0,
        view.all.pip matches Some(n) ==> n == tasks@.len() + messages@.len(),
        view.done.pip is None <==> number_over(tasks@) == 0,
        view.done.pip matches Some(n) ==> n == number_over(tasks@),
{
    lemma_parts(tasks@, messages@);
}

/// The summary is shown over "All" and "Active" while a task runs, and says how many do and how
/// far they have come; the foot offers to clear once a task has ended, and else says how many
/// run.
pub proof fn law_summary_and_foot_speak_of_tasks(
    drawer: Drawer,
    tasks: Vec<TaskProgress>,
    messages: Vec<NotificationMessage>,
    average: Double,
    view: ActivityView,
)
    requires
        call_ensures(
            notification_center::notification_center,
            (&drawer, tasks, messages, average),
            view,
        ),
    ensures
        view.summary is Some <==> (drawer.tab@ == "all"@ || drawer.tab@ == "active"@)
            && number_running(tasks@) > 0,
        view.summary is Some && number_running(tasks@) == 1 ==> view.summary->0.running@
            == text::decimal_text(1) + " "@ + "task"@ + " running"@,
        view.summary is Some && number_running(tasks@) > 1 ==> view.summary->0.running@
            == text::decimal_text(number_running(tasks@) as int) + " "@ + "tasks"@ + " running"@,
        view.summary is Some ==> view.summary->0.percent@ == text::decimal_text(average.round())
            + "%"@,
        view.summary is Some ==> view.summary->0.bar.percent is None,
        view.summary is Some ==> fills(view.summary->0.bar.width, average),
        view.footer is None <==> tasks@.len() == 0 && messages@.len() == 0,
        view.footer == Some(Footer::ClearCompleted) <==> number_over(tasks@) > 0,
        view.footer matches Some(Footer::Running(t)) ==> t@ == text::decimal_text(
            number_running(tasks@) as int,
        ) + " active"@,
{
    lemma_parts(tasks@, messages@);
    if number_over(tasks@) > 0 {
        tasks@.lemma_filter_len(|t: TaskProgress| over(t));
    }
}

// ---- order ----

/// Where a task stands by the word for its status: what runs, what is queued, what failed, and
/// the rest.
pub open spec fn standing(task: TaskProgress) -> int {
    if runs(task) {
        0
    } else if task.status@ == "PENDING"@ {
        1
    } else if task.status@ == "FAILED"@ {
        2
    } else {
        3
    }
}

/// When a task ended, as a place among numbers; what has not ended counts as zero.
pub open spec fn end_of(task: TaskProgress) -> int {
    match task.completion_time {
        Some(t) => t.place(),
        None => 0,
    }
}

/// Whether the time at which a task ended is a number, if there is one.
pub open spec fn end_is_number(task: TaskProgress) -> bool {
    task.completion_time matches Some(t) ==> !t.nan()
}

/// Whether tasks stand in order: what runs before what is queued, that before what failed, and
/// that before the rest; and among these what ended later before what ended earlier.
pub open spec fn stand_in_order(tasks: Seq<TaskProgress>) -> bool {
    forall|i: int, j: int|
        0 <= i < j < tasks.len() ==> {
            ||| standing(#[trigger] tasks[i]) < standing(#[trigger] tasks[j])
            ||| standing(tasks[i]) == standing(tasks[j]) && end_of(tasks[j]) <= end_of(tasks[i])
        }
}

proof fn lemma_standing(task: TaskProgress)
    ensures
        standing(task) == progress::rank_of(task.status@),
        end_of(task) == progress::ended(task).place(),
        end_is_number(task) == task_placed(task),
{
}

/// Whether a task has a place in the order.
spec fn task_placed(task: TaskProgress) -> bool {
    !progress::ended(task).nan()
}

proof fn lemma_sorted(tasks: Seq<TaskProgress>)
    requires
        forall|i: int| 0 <= i < tasks.len() ==> end_is_number(#[trigger] tasks[i]),
    ensures
        stand_in_order(order::ordered(tasks)),
{
    assert forall|i: int| 0 <= i < tasks.len() implies !progress::ended(
        #[trigger] tasks[i],
    ).nan() by {
        lemma_standing(tasks[i]);
    }
    progress::law_sorted_tasks_stand_by_rank(tasks);
    order::law_ordering_keeps_items(tasks);
    let out = order::ordered(tasks);
    assert forall|i: int, j: int| 0 <= i < j < out.len() implies {
        ||| standing(#[trigger] out[i]) < standing(#[trigger] out[j])
        ||| standing(out[i]) == standing(out[j]) && end_of(out[j]) <= end_of(out[i])
    } by {
        lemma_standing(out[i]);
        lemma_standing(out[j]);
        assert(progress::rank_of(out[i].status@) <= progress::rank_of(out[j].status@));
    }
}

/// Sorting loses no task and adds none, puts them in order where every time of an end is a
/// number, and leaves those that stand alike in the order in which they came.
pub proof fn law_sorting_orders_by_status_and_end(
    tasks: Vec<TaskProgress>,
    sorted: Vec<TaskProgress>,
    model: TaskProgress,
)
    requires
        call_ensures(progress::sort_tasks, (tasks,), sorted),
        forall|i: int| 0 <= i < tasks@.len() ==> end_is_number(#[trigger] tasks@[i]),
        end_is_number(model),
    ensures
        sorted@.to_multiset() == tasks@.to_multiset(),
        stand_in_order(sorted@),
        sorted@.filter(|t: TaskProgress| alike(t, model)) == tasks@.filter(
            |t: TaskProgress| alike(t, model),
        ),
{
    lemma_sorted(tasks@);
    order::law_ordering_keeps_items(tasks@);
    lemma_stable(tasks@, model);
}

proof fn lemma_stable(tasks: Seq<TaskProgress>, model: TaskProgress)
    requires
        forall|i: int| 0 <= i < tasks.len() ==> end_is_number(#[trigger] tasks[i]),
        end_is_number(model),
    ensures
        order::ordered(tasks).filter(|t: TaskProgress| alike(t, model)) == tasks.filter(
            |t: TaskProgress| alike(t, model),
        ),
{
    assert forall|i: int| 0 <= i < tasks.len() implies order::Ranked::placed(
        #[trigger] tasks[i],
    ) by {
        lemma_standing(tasks[i]);
    }
    lemma_standing(model);
    order::law_ordering_is_stable(tasks, model);
    order::law_ordering_orders(tasks);
    lemma_alike(tasks, model);
    lemma_alike(order::ordered(tasks), model);
}

/// Sorting loses no task and adds none, and puts what runs before what is queued, that before what
/// failed, and that before the rest; whatever the times of their ends.
pub proof fn law_sorting_goes_by_the_status(tasks: Vec<TaskProgress>, sorted: Vec<TaskProgress>)
    requires
        call_ensures(progress::sort_tasks, (tasks,), sorted),
    ensures
        sorted@.to_multiset() == tasks@.to_multiset(),
        sorted@.len() == tasks@.len(),
        forall|i: int, j: int|
            0 <= i < j < sorted@.len() ==> standing(#[trigger] sorted@[i]) <= standing(
                #[trigger] sorted@[j],
            ),
{
    order::law_ordering_keeps_items(tasks@);
    lemma_ordered_standing(tasks@);
}

/// Whether tasks stand by their statuses.
pub open spec fn stand_by_status(tasks: Seq<TaskProgress>) -> bool {
    forall|i: int, j: int|
        0 <= i < j < tasks.len() ==> standing(#[trigger] tasks[i]) <= standing(#[trigger] tasks[j])
}

/// Whether no task stands further back than a place.
spec fn stand_within(tasks: Seq<TaskProgress>, place: int) -> bool {
    forall|i: int| 0 <= i < tasks.len() ==> standing(#[trigger] tasks[i]) <= place
}

proof fn lemma_inserted_standing(list: Seq<TaskProgress>, task: TaskProgress, place: int)
    requires
        stand_by_status(list),
        stand_within(list, place),
        standing(task) <= place,
    ensures
        stand_by_status(order::inserted(list, task)),
        stand_within(order::inserted(list, task), place),
    decreases list.len(),
{
    let out = order::inserted(list, task);
    lemma_standing(task);
    if list.len() > 0 {
        lemma_standing(list.last());
        assert(list[list.len() - 1] == list.last());
    }
    if list.len() > 0 && order::Ranked::ahead(task, list.last()) {
        let rest = list.drop_last();
        let last = list.last();
        assert forall|i: int, j: int| 0 <= i < j < rest.len() implies standing(#[trigger] rest[i])
            <= standing(#[trigger] rest[j]) by {
            assert(rest[i] == list[i] && rest[j] == list[j]);
        }
        assert forall|i: int| 0 <= i < rest.len() implies standing(#[trigger] rest[i]) <= standing(
            last,
        ) by {
            assert(rest[i] == list[i]);
        }
        lemma_inserted_standing(rest, task, standing(last));
        let inner = order::inserted(rest, task);
        assert forall|i: int, j: int| 0 <= i < j < out.len() implies standing(#[trigger] out[i])
            <= standing(#[trigger] out[j]) by {
            assert(out[i] == inner[i]);
            if j < inner.len() {
                assert(out[j] == inner[j]);
            }
        }
        assert forall|i: int| 0 <= i < out.len() implies standing(#[trigger] out[i]) <= place by {
            if i < inner.len() {
                assert(out[i] == inner[i]);
            }
        }
    } else {
        assert forall|i: int, j: int| 0 <= i < j < out.len() implies standing(#[trigger] out[i])
            <= standing(#[trigger] out[j]) by {
            assert(out[i] == list[i]);
            if j < list.len() {
                assert(out[j] == list[j]);
            }
        }
        assert forall|i: int| 0 <= i < out.len() implies standing(#[trigger] out[i]) <= place by {
            if i < list.len() {
                assert(out[i] == list[i]);
            }
        }
    }
}

proof fn lemma_ordered_standing(tasks: Seq<TaskProgress>)
    ensures
        stand_by_status(order::ordered(tasks)),
    decreases tasks.len(),
{
    if tasks.len() > 0 {
        lemma_ordered_standing(tasks.drop_last());
        lemma_inserted_standing(order::ordered(tasks.drop_last()), tasks.last(), 3);
    }
}

/// Whether two tasks stand alike: by their statuses and by when they ended.
pub open spec fn alike(a: TaskProgress, b: TaskProgress) -> bool {
    standing(a) == standing(b) && end_of(a) == end_of(b)
}

proof fn lemma_alike(tasks: Seq<TaskProgress>, model: TaskProgress)
    requires
        order::all_placed(tasks),
        end_is_number(model),
    ensures
        tasks.filter(|t: TaskProgress| alike(t, model)) == tasks.filter(
            |t: TaskProgress| order::tied(model, t),
        ),
    decreases tasks.len(),
{
    let tied = |t: TaskProgress| order::tied(model, t);
    let same = |t: TaskProgress| alike(t, model);
    if tasks.len() == 0 {
        assert(tasks.filter(tied) =~= tasks.filter(same));
    } else {
        let rest = tasks.drop_last();
        let last = tasks.last();
        assert forall|i: int| 0 <= i < rest.len() implies order::Ranked::placed(
            #[trigger] rest[i],
        ) by {
            assert(order::Ranked::placed(tasks[i]));
        }
        lemma_alike(rest, model);
        assert(rest.push(last) =~= tasks);
        rest.lemma_filter_push(last, tied);
        rest.lemma_filter_push(last, same);
        assert(order::Ranked::placed(tasks[tasks.len() - 1]));
        lemma_standing(last);
        lemma_standing(model);
    }
}

// ---- groups ----

/// The tasks that a row shows.
pub open spec fn tasks_of_row(node: RenderNode) -> Seq<TaskProgress> {
    match node {
        RenderNode::Task(t) => seq![t],
        RenderNode::Group(g) => g.children@,
    }
}

/// Whether a task belongs to the group with a key.
pub open spec fn is_in(task: TaskProgress, key: Seq<char>) -> bool {
    task.group matches Some(g) && g@ == key
}

/// Whether a group is made of tasks as it should be: of all that have its key, in their order;
/// named, typed and drawn after the first of them; counting those that have ended, those under
/// way, and how many there are to be; and knowing whether all have ended and whether any failed.
pub open spec fn gathers(group: GroupNode, tasks: Seq<TaskProgress>) -> bool {
    let children = group.children@;
    &&& children.len() > 0
    &&& children == tasks.filter(|t: TaskProgress| is_in(t, group.key@))
    &&& children[0].group_label matches Some(l) ==> group.label@ == l@
    &&& children[0].group_label is None ==> group.label@ == "Tasks"@
    &&& group.ttype@ == children[0].task_type@
    &&& group.art == children[0].art_url
    &&& group.done_count == number_over(children)
    &&& group.active_count == number_under_way(children)
    &&& group.all_done <==> forall|i: int|
        0 <= i < children.len() ==> over(#[trigger] children[i])
    &&& group.any_failed <==> exists|i: int|
        0 <= i < children.len() && (#[trigger] children[i]).status@ == "FAILED"@
    &&& children[0].total is Some && children[0].total->0 > 0 ==> group.count
        == children[0].total->0
    &&& (children[0].total is None || children[0].total->0 <= 0) && children.len() <= i32::MAX
        ==> group.count == children.len()
}

/// Whether rows stand in the order in which their first tasks do.
pub open spec fn rows_begin_in_order(nodes: Seq<RenderNode>, tasks: Seq<TaskProgress>) -> bool {
    exists|at: Seq<int>| begin_at(nodes, tasks, at)
}

/// Whether rows begin with the tasks at given places, which rise.
pub open spec fn begin_at(nodes: Seq<RenderNode>, tasks: Seq<TaskProgress>, at: Seq<int>) -> bool {
    &&& at.len() == nodes.len()
    &&& forall|i: int|
        0 <= i < nodes.len() ==> 0 <= #[trigger] at[i] < tasks.len() && tasks_of_row(nodes[i])[0]
            == tasks[at[i]]
    &&& forall|i: int, j: int| 0 <= i < j < nodes.len() ==> #[trigger] at[i] < #[trigger] at[j]
}

/// Whether a task is in one of the rows.
pub open spec fn shown_in(nodes: Seq<RenderNode>, task: TaskProgress) -> bool {
    exists|i: int| 0 <= i < nodes.len() && #[trigger] tasks_of_row(nodes[i]).contains(task)
}

/// Whether rows show tasks as they should: a task of no group has a row of its own; tasks that
/// share a group share one row, and each row begins where its first task stood.
pub open spec fn rows_show(nodes: Seq<RenderNode>, tasks: Seq<TaskProgress>) -> bool {
    &&& forall|i: int|
        0 <= i < nodes.len() ==> match #[trigger] nodes[i] {
            RenderNode::Task(t) => t.group is None && tasks.contains(t),
            RenderNode::Group(g) => gathers(g, tasks),
        }
    &&& forall|i: int, j: int|
        0 <= i < j < nodes.len() && (#[trigger] nodes[i]) is Group && (#[trigger] nodes[j]) is Group
            ==> nodes[i]->Group_0.key@ != nodes[j]->Group_0.key@
    &&& forall|k: int|
        0 <= k < tasks.len() ==> shown_in(nodes, #[trigger] tasks[k])
    &&& lone_tasks(nodes) == tasks.filter(|t: TaskProgress| t.group is None)
    &&& rows_begin_in_order(nodes, tasks)
}

/// The tasks that have rows of their own, from the top down.
pub open spec fn lone_tasks(nodes: Seq<RenderNode>) -> Seq<TaskProgress>
    decreases nodes.len(),
{
    if nodes.len() == 0 {
        Seq::empty()
    } else {
        match nodes.last() {
            RenderNode::Task(t) => lone_tasks(nodes.drop_last()).push(t),
            RenderNode::Group(_) => lone_tasks(nodes.drop_last()),
        }
    }
}

proof fn lemma_lone_tasks(nodes: Seq<RenderNode>, rows: Seq<progress::Row>)
    requires
        nodes.len() == rows.len(),
        forall|i: int| 0 <= i < nodes.len() ==> progress::shows(#[trigger] nodes[i], rows[i]),
    ensures
        lone_tasks(nodes) == progress::lone_tasks(rows),
    decreases nodes.len(),
{
    if nodes.len() > 0 {
        let rest = nodes.drop_last();
        assert forall|i: int| 0 <= i < rest.len() implies progress::shows(
            #[trigger] rest[i],
            rows.drop_last()[i],
        ) by {
            assert(progress::shows(nodes[i], rows[i]));
        }
        lemma_lone_tasks(rest, rows.drop_last());
        assert(progress::shows(nodes[nodes.len() - 1], rows[rows.len() - 1]));
    }
}

/// The first task of a row that is being folded.
spec fn first_of(row: progress::Row) -> TaskProgress {
    match row {
        progress::Row::Task { task } => task,
        progress::Row::Group { children, .. } => children[0],
    }
}

/// Whether rows begin with the tasks at given places, which rise.
spec fn folded_at(tasks: Seq<TaskProgress>, at: Seq<int>) -> bool {
    let rows = progress::folded(tasks);
    &&& at.len() == rows.len()
    &&& forall|i: int|
        0 <= i < rows.len() ==> 0 <= #[trigger] at[i] < tasks.len() && first_of(rows[i])
            == tasks[at[i]]
    &&& forall|i: int| 0 <= i < rows.len() && rows[i] is Group
        ==> (#[trigger] rows[i])->children.len() > 0
    &&& forall|i: int, j: int| 0 <= i < j < rows.len() ==> #[trigger] at[i] < #[trigger] at[j]
}

proof fn lemma_folded_at(tasks: Seq<TaskProgress>)
    ensures
        exists|at: Seq<int>| folded_at(tasks, at),
    decreases tasks.len(),
{
    let rows = progress::folded(tasks);
    if tasks.len() == 0 {
        assert(folded_at(tasks, Seq::empty()));
    } else {
        let rest = tasks.drop_last();
        let task = tasks.last();
        let before = progress::folded(rest);
        lemma_folded_at(rest);
        let at = choose|at: Seq<int>| folded_at(rest, at);
        let joins = task.group is Some && progress::row_of(before, task.group->0@) < before.len();
        if joins {
            progress::lemma_row_found(before, task.group->0@);
            let k = progress::row_of(before, task.group->0@);
            assert forall|i: int| 0 <= i < rows.len() implies 0 <= #[trigger] at[i] < tasks.len()
                && first_of(rows[i]) == tasks[at[i]] by {
                assert(tasks[at[i]] == rest[at[i]]);
                assert(before[k]->children.len() > 0);
                if i == k {
                    assert(rows[k]->children[0] == before[k]->children[0]);
                }
            }
            assert(folded_at(tasks, at));
        } else {
            if task.group is Some {
                progress::lemma_row_found(before, task.group->0@);
            }
            let longer = at.push(tasks.len() - 1);
            assert(rows.len() == before.len() + 1);
            assert forall|i: int| 0 <= i < rows.len() implies 0 <= #[trigger] longer[i]
                < tasks.len() && first_of(rows[i]) == tasks[longer[i]] by {
                if i < before.len() {
                    assert(rows[i] == before[i]);
                    assert(longer[i] == at[i]);
                    assert(tasks[at[i]] == rest[at[i]]);
                }
            }
            assert(folded_at(tasks, longer));
        }
    }
}

proof fn lemma_gathers(group: GroupNode, children: Seq<TaskProgress>, tasks: Seq<TaskProgress>)
    requires
        progress::shows(
            RenderNode::Group(group),
            progress::Row::Group { key: group.key@, children },
        ),
        children == tasks.filter(|t: TaskProgress| progress::in_group(t, group.key@)),
    ensures
        gathers(group, tasks),
{
    let inside = |t: TaskProgress| progress::in_group(t, group.key@);
    assert(inside =~= (|t: TaskProgress| is_in(t, group.key@)));
    let done = |t: TaskProgress| progress::done(t.status@);
    assert(done =~= (|t: TaskProgress| over(t)));
    let active = |t: TaskProgress| progress::active(t.status@);
    assert(active =~= (|t: TaskProgress| under_way(t)));
    if group.all_done {
        assert forall|i: int| 0 <= i < children.len() implies over(#[trigger] children[i]) by {
            assert(progress::done(children[i].status@));
        }
    } else {
        let i = choose|i: int|
            0 <= i < children.len() && !progress::done((#[trigger] children[i]).status@);
        assert(!over(children[i]));
    }
}

proof fn lemma_rows_show(nodes: Seq<RenderNode>, tasks: Seq<TaskProgress>)
    requires
        nodes.len() == progress::folded(tasks).len(),
        forall|i: int|
            0 <= i < nodes.len() ==> progress::shows(
                #[trigger] nodes[i],
                progress::folded(tasks)[i],
            ),
    ensures
        rows_show(nodes, tasks),
{
    let rows = progress::folded(tasks);
    progress::law_grouping_keeps_every_task(tasks);
    lemma_lone_tasks(nodes, rows);
    lemma_folded_at(tasks);
    let at = choose|at: Seq<int>| folded_at(tasks, at);
    assert forall|i: int| 0 <= i < nodes.len() implies match #[trigger] nodes[i] {
        RenderNode::Task(t) => t.group is None && tasks.contains(t),
        RenderNode::Group(g) => gathers(g, tasks),
    } by {
        assert(progress::shows(nodes[i], rows[i]));
        match nodes[i] {
            RenderNode::Task(t) => {
                lemma_lone(tasks, i);
                assert(at[i] == at[i]);
            },
            RenderNode::Group(g) => {
                assert(rows[i] is Group);
                lemma_gathers(g, rows[i]->children, tasks);
            },
        }
    }
    assert forall|i: int, j: int|
        0 <= i < j < nodes.len() && (#[trigger] nodes[i]) is Group && (
        #[trigger] nodes[j]) is Group implies nodes[i]->Group_0.key@ != nodes[j]->Group_0.key@ by {
        assert(progress::shows(nodes[i], rows[i]));
        assert(progress::shows(nodes[j], rows[j]));
        assert(rows[i] is Group && rows[j] is Group);
    }
    assert forall|k: int| 0 <= k < tasks.len() implies shown_in(nodes, #[trigger] tasks[k]) by {
        lemma_shown(tasks, k);
        let i = choose|i: int|
            0 <= i < rows.len() && #[trigger] tasks_of_folded(rows[i]).contains(tasks[k]);
        assert(progress::shows(nodes[i], rows[i]));
        assert(tasks_of_row(nodes[i]) == tasks_of_folded(rows[i]));
        assert(tasks_of_row(nodes[i]).contains(tasks[k]));
    }
    assert forall|i: int| 0 <= i < nodes.len() implies 0 <= #[trigger] at[i] < tasks.len()
        && tasks_of_row(nodes[i])[0] == tasks[at[i]] by {
        assert(progress::shows(nodes[i], rows[i]));
    }
    assert(begin_at(nodes, tasks, at));
}

/// The tasks of a row that is being folded.
spec fn tasks_of_folded(row: progress::Row) -> Seq<TaskProgress> {
    match row {
        progress::Row::Task { task } => seq![task],
        progress::Row::Group { children, .. } => children,
    }
}

proof fn lemma_lone(tasks: Seq<TaskProgress>, i: int)
    requires
        0 <= i < progress::folded(tasks).len(),
        progress::folded(tasks)[i] is Task,
    ensures
        progress::folded(tasks)[i]->task.group is None,
        tasks.contains(progress::folded(tasks)[i]->task),
    decreases tasks.len(),
{
    if tasks.len() > 0 {
        let rest = tasks.drop_last();
        let before = progress::folded(rest);
        if i < before.len() && before[i] is Task {
            lemma_lone(rest, i);
            let k = choose|k: int| 0 <= k < rest.len() && rest[k] == before[i]->task;
            assert(tasks[k] == before[i]->task);
            if tasks.last().group is Some {
                progress::lemma_row_found(before, tasks.last().group->0@);
            }
        } else {
            if tasks.last().group is Some {
                progress::lemma_row_found(before, tasks.last().group->0@);
            }
            assert(tasks[tasks.len() - 1] == tasks.last());
        }
    }
}

proof fn lemma_shown(tasks: Seq<TaskProgress>, k: int)
    requires
        0 <= k < tasks.len(),
    ensures
        exists|i: int|
            0 <= i < progress::folded(tasks).len() && #[trigger] tasks_of_folded(
                progress::folded(tasks)[i],
            ).contains(tasks[k]),
    decreases tasks.len(),
{
    let rows = progress::folded(tasks);
    let rest = tasks.drop_last();
    let task = tasks.last();
    let before = progress::folded(rest);
    if task.group is Some {
        progress::lemma_row_found(before, task.group->0@);
    }
    let at = if task.group is Some {
        progress::row_of(before, task.group->0@)
    } else {
        before.len() as int
    };
    if k < rest.len() {
        lemma_shown(rest, k);
        let i = choose|i: int|
            0 <= i < before.len() && #[trigger] tasks_of_folded(before[i]).contains(rest[k]);
        let j = choose|j: int|
            0 <= j < tasks_of_folded(before[i]).len() && tasks_of_folded(before[i])[j] == rest[k];
        assert(tasks_of_folded(rows[i])[j] == tasks[k]);
        assert(tasks_of_folded(rows[i]).contains(tasks[k]));
    } else {
        let shown = tasks_of_folded(rows[at]);
        assert(shown[shown.len() - 1] == task);
        assert(tasks_of_folded(rows[at]).contains(tasks[k]));
    }
}

/// Grouping shows every task once: alone if it is of no group, and else in the row of its group,
/// which stands where the first of its tasks stood and counts what they are.
pub proof fn law_groups_gather_their_tasks(tasks: Vec<TaskProgress>, nodes: Vec<RenderNode>)
    requires
        call_ensures(progress::group_tasks, (tasks,), nodes),
    ensures
        rows_show(nodes@, tasks@),
{
    lemma_rows_show(nodes@, tasks@);
}

// ---- sections ----

/// Whether a section shows tasks, in order and grouped, and nothing else.
pub open spec fn section_of_tasks(section: Section, tasks: Seq<TaskProgress>) -> bool {
    &&& section.messages@.len() == 0
    &&& section.count == section.nodes@.len()
    &&& exists|sorted: Seq<TaskProgress>|
        {
            &&& #[trigger] rows_show(section.nodes@, sorted)
            &&& sorted.to_multiset() == tasks.to_multiset()
            &&& (forall|i: int| 0 <= i < tasks.len() ==> end_is_number(#[trigger] tasks[i]))
                ==> stand_in_order(sorted)
            &&& stand_by_status(sorted)
            &&& forall|model: TaskProgress|
                (forall|i: int| 0 <= i < tasks.len() ==> end_is_number(#[trigger] tasks[i]))
                    && end_is_number(model) ==> #[trigger] those_like(sorted, model) == those_like(
                    tasks,
                    model,
                )
        }
}

/// The tasks of a list that stand as another does, in their order.
pub open spec fn those_like(tasks: Seq<TaskProgress>, model: TaskProgress) -> Seq<TaskProgress> {
    tasks.filter(|t: TaskProgress| alike(t, model))
}

/// Whether a section shows messages, as they came, and nothing else.
pub open spec fn section_of_messages(
    section: Section,
    messages: Seq<NotificationMessage>,
) -> bool {
    &&& section.nodes@.len() == 0
    &&& section.messages@ == messages
    &&& section.count == messages.len()
}

proof fn lemma_section_of_tasks(section: Section, label: Seq<char>, tasks: Seq<TaskProgress>)
    requires
        notification_center::section_shows(
            section,
            notification_center::SectionPlan { label, tasks, messages: Seq::empty() },
        ),
    ensures
        section_of_tasks(section, tasks),
{
    let sorted = order::ordered(tasks);
    lemma_rows_show(section.nodes@, sorted);
    order::law_ordering_keeps_items(tasks);
    lemma_ordered_standing(tasks);
    if forall|i: int| 0 <= i < tasks.len() ==> end_is_number(#[trigger] tasks[i]) {
        lemma_sorted(tasks);
        assert forall|model: TaskProgress| end_is_number(model) implies #[trigger] those_like(
            sorted,
            model,
        ) == those_like(tasks, model) by {
            lemma_stable(tasks, model);
        }
    }
}

/// Under "Active" the drawer shows what is queued or runs, as "In progress", and the messages that
/// are errors or warnings, as "Needs attention": each section exactly where there is anything
/// for it, and with all of it.
pub proof fn law_active_tab_shows_what_needs_attention(
    drawer: Drawer,
    tasks: Vec<TaskProgress>,
    messages: Vec<NotificationMessage>,
    average: Double,
    view: ActivityView,
)
    requires
        call_ensures(
            notification_center::notification_center,
            (&drawer, tasks, messages, average),
            view,
        ),
        drawer.tab@ == "active"@,
    ensures
        ({
            let going = tasks@.filter(|t: TaskProgress| under_way(t));
            let grave = messages@.filter(|m: NotificationMessage| serious(m));
            let first = if going.len() > 0 {
                1int
            } else {
                0int
            };
            let second = if grave.len() > 0 {
                1int
            } else {
                0int
            };
            &&& view.sections@.len() == first + second
            &&& going.len() > 0 ==> view.sections@[0].label@ == "In progress"@ && section_of_tasks(
                view.sections@[0],
                going,
            ) && !view.sections@[0].clearable
            &&& grave.len() > 0 ==> view.sections@[first].label@ == "Needs attention"@
                && section_of_messages(view.sections@[first], grave)
                && !view.sections@[first].clearable
        }),
        view.show_labels == (view.sections@.len() > 1),
        view.empty is Some == (view.sections@.len() == 0),
        view.empty matches Some(copy) ==> copy.0@ == "Nothing running"@ && copy.1@
            == "Downloads and feed refreshes will show up here."@,
{
    lemma_parts(tasks@, messages@);
    lemma_labels_differ();
    let going = tasks@.filter(|t: TaskProgress| under_way(t));
    let plans = notification_center::planned(drawer.tab@, tasks@, messages@);
    if going.len() > 0 {
        assert(notification_center::section_shows(view.sections@[0], plans[0]));
        lemma_section_of_tasks(view.sections@[0], "In progress"@, going);
    }
    if number_serious(messages@) > 0 {
        let k = plans.len() - 1;
        assert(notification_center::section_shows(view.sections@[k], plans[k]));
        lemma_no_rows();
    }
}

proof fn lemma_labels_differ()
    ensures
        "In progress"@ != "Completed"@,
        "Needs attention"@ != "Completed"@,
        "Tasks"@ != "Completed"@,
        "Messages"@ != "Completed"@,
        "active"@ != "done"@,
{
    reveal_strlit("In progress");
    reveal_strlit("Needs attention");
    reveal_strlit("Tasks");
    reveal_strlit("Messages");
    reveal_strlit("Completed");
    reveal_strlit("active");
    reveal_strlit("done");
    assert("In progress"@.len() == 11);
    assert("Needs attention"@.len() == 15);
    assert("Tasks"@.len() == 5);
    assert("Messages"@.len() == 8);
    assert("Completed"@.len() == 9);
    assert("active"@.len() == 6);
    assert("done"@.len() == 4);
}

proof fn lemma_no_rows()
    ensures
        progress::folded(order::ordered(Seq::<TaskProgress>::empty())).len() == 0,
{
}

/// A message that is an error or a warning is under "Needs attention", one that is neither is not.
pub proof fn law_message_needs_attention_by_its_severity(
    drawer: Drawer,
    tasks: Vec<TaskProgress>,
    messages: Vec<NotificationMessage>,
    average: Double,
    view: ActivityView,
    message: NotificationMessage,
)
    requires
        call_ensures(
            notification_center::notification_center,
            (&drawer, tasks, messages, average),
            view,
        ),
        drawer.tab@ == "active"@,
        messages@.contains(message),
    ensures
        (exists|i: int|
            0 <= i < view.sections@.len() && (#[trigger] view.sections@[i]).label@
                == "Needs attention"@ && view.sections@[i].messages@.contains(message))
            <==> message.severity@ == "error"@ || message.severity@ == "warning"@,
{
    law_active_tab_shows_what_needs_attention(drawer, tasks, messages, average, view);
    let grave = messages@.filter(|m: NotificationMessage| serious(m));
    crate::lists::lemma_filtered(
        messages@,
        |m: NotificationMessage| serious(m),
        message,
    );
    lemma_attention_is_its_own_label();
    if serious(message) {
        assert(grave.contains(message));
        assert(grave.len() > 0);
        let k = view.sections@.len() - 1;
        assert(view.sections@[k].label@ == "Needs attention"@);
        assert(view.sections@[k].messages@.contains(message));
    }
    if exists|i: int|
        0 <= i < view.sections@.len() && (#[trigger] view.sections@[i]).label@
            == "Needs attention"@ && view.sections@[i].messages@.contains(message) {
        let i = choose|i: int|
            0 <= i < view.sections@.len() && (#[trigger] view.sections@[i]).label@
                == "Needs attention"@ && view.sections@[i].messages@.contains(message);
        assert(view.sections@[i].messages@ == grave);
    }
}

proof fn lemma_attention_is_its_own_label()
    ensures
        "In progress"@ != "Needs attention"@,
{
    reveal_strlit("In progress");
    reveal_strlit("Needs attention");
    assert("In progress"@.len() == 11);
    assert("Needs attention"@.len() == 15);
}

/// Under "Done" the drawer shows what has ended, as "Completed", and offers to clear it; under
/// any other tab but "Active" it shows all tasks and all messages.
pub proof fn law_other_tabs_show_what_they_say(
    drawer: Drawer,
    tasks: Vec<TaskProgress>,
    messages: Vec<NotificationMessage>,
    average: Double,
    view: ActivityView,
)
    requires
        call_ensures(
            notification_center::notification_center,
            (&drawer, tasks, messages, average),
            view,
        ),
        drawer.tab@ != "active"@,
    ensures
        drawer.tab@ == "done"@ ==> {
            let ended = tasks@.filter(|t: TaskProgress| over(t));
            &&& view.sections@.len() == (if ended.len() > 0 {
                1int
            } else {
                0int
            })
            &&& ended.len() > 0 ==> view.sections@[0].label@ == "Completed"@ && section_of_tasks(
                view.sections@[0],
                ended,
            ) && view.sections@[0].clearable
            &&& ended.len() == 0 ==> (view.empty matches Some(copy) && copy.0@
                == "Nothing completed yet"@ && copy.1@
                == "Finished tasks land here so you can review them."@)
        },
        drawer.tab@ != "done"@ ==> {
            let first = if tasks@.len() > 0 {
                1int
            } else {
                0int
            };
            let second = if messages@.len() > 0 {
                1int
            } else {
                0int
            };
            &&& view.sections@.len() == first + second
            &&& tasks@.len() > 0 ==> view.sections@[0].label@ == "Tasks"@ && section_of_tasks(
                view.sections@[0],
                tasks@,
            ) && !view.sections@[0].clearable
            &&& messages@.len() > 0 ==> view.sections@[first].label@ == "Messages"@
                && section_of_messages(view.sections@[first], messages@)
                && !view.sections@[first].clearable
            &&& tasks@.len() == 0 && messages@.len() == 0 ==> (view.empty matches Some(copy)
                && copy.0@ == "You're all caught up"@ && copy.1@
                == "No downloads, syncs, or messages right now."@)
        },
        view.show_labels == (view.sections@.len() > 1),
        view.empty is Some == (view.sections@.len() == 0),
{
    lemma_parts(tasks@, messages@);
    lemma_labels_differ();
    lemma_no_rows();
    let plans = notification_center::planned(drawer.tab@, tasks@, messages@);
    if plans.len() > 0 {
        assert(notification_center::section_shows(view.sections@[0], plans[0]));
        let k = plans.len() - 1;
        assert(notification_center::section_shows(view.sections@[k], plans[k]));
        if plans[0].tasks.len() > 0 {
            lemma_section_of_tasks(view.sections@[0], plans[0].label, plans[0].tasks);
        }
    }
}

// ---- cards ----

/// The class that colours the card of a task goes by the word for its status, and so does what
/// the card offers: what runs has a bar and a percentage, what has ended can be dismissed by its
/// id, and what is queued has neither.
pub proof fn law_card_goes_by_the_status(task: TaskProgress, card: TaskCard)
    requires
        call_ensures(notification_center::task_card, (&task,), card),
    ensures
        card.kind@ == "queued"@ <==> task.status@ == "PENDING"@,
        card.kind@ == "success"@ <==> task.status@ == "SUCCESS"@,
        card.kind@ == "failed"@ <==> task.status@ == "FAILED"@,
        card.kind@ == "active"@ <==> task.status@ != "PENDING"@ && !over(task),
        card.status@ == (LabelView::Key { name: "notification_center.status_queued"@ })
            <==> card.kind@
            == "queued"@,
        card.status@ == (LabelView::Key { name: "notification_center.status_completed"@ })
            <==> card.kind@ == "success"@,
        card.status@ == (LabelView::Key { name: "notification_center.status_failed"@ })
            <==> card.kind@
            == "failed"@,
        card.status@ == (LabelView::Key { name: "notification_center.status_in_progress"@ })
            <==> card.kind@ == "active"@,
        card.bar is Some <==> runs(task),
        card.percent is Some <==> runs(task),
        runs(task) ==> card.percent->0@ == text::decimal_text(task.progress.round()) + "%"@,
        runs(task) ==> text::held(card.bar->0.percent) == text::held(card.percent),
        runs(task) ==> fills(card.bar->0.width, task.progress),
        card.dismiss is Some <==> over(task),
        over(task) ==> card.dismiss->0@ == task.task_id@,
        card.art_url == task.art_url,
{
    lemma_kinds_differ();
}

/// Whether a bar is filled as far as something has come: as far as it is from two to a hundred
/// per cent, and at least two and at most a hundred.
pub open spec fn fills(width: Double, come: Double) -> bool {
    let two = Double { bits: 0x4000_0000_0000_0000 };
    let hundred = Double { bits: 0x4059_0000_0000_0000 };
    &&& come.below(two) ==> width == two
    &&& hundred.below(come) ==> width == hundred
    &&& !come.below(two) && !hundred.below(come) ==> width == come
}

proof fn lemma_kinds_differ()
    ensures
        "queued"@ != "success"@,
        "queued"@ != "failed"@,
        "queued"@ != "active"@,
        "success"@ != "failed"@,
        "success"@ != "active"@,
        "failed"@ != "active"@,
        "PENDING"@ != "SUCCESS"@,
        "PENDING"@ != "FAILED"@,
        "SUCCESS"@ != "FAILED"@,
        "notification_center.status_queued"@ != "notification_center.status_completed"@,
        "notification_center.status_queued"@ != "notification_center.status_failed"@,
        "notification_center.status_queued"@ != "notification_center.status_in_progress"@,
        "notification_center.status_completed"@ != "notification_center.status_failed"@,
        "notification_center.status_completed"@ != "notification_center.status_in_progress"@,
        "notification_center.status_failed"@ != "notification_center.status_in_progress"@,
{
    reveal_strlit("queued");
    reveal_strlit("success");
    reveal_strlit("failed");
    reveal_strlit("active");
    reveal_strlit("PENDING");
    reveal_strlit("SUCCESS");
    reveal_strlit("FAILED");
    reveal_strlit("notification_center.status_queued");
    reveal_strlit("notification_center.status_completed");
    reveal_strlit("notification_center.status_failed");
    reveal_strlit("notification_center.status_in_progress");
    assert("queued"@[0] == 'q' && "success"@[0] == 's' && "failed"@[0] == 'f' && "active"@[0]
        == 'a');
    assert("PENDING"@[0] == 'P' && "SUCCESS"@[0] == 'S' && "FAILED"@[0] == 'F');
    assert("notification_center.status_queued"@[27] == 'q');
    assert("notification_center.status_completed"@[27] == 'c');
    assert("notification_center.status_failed"@[27] == 'f');
    assert("notification_center.status_in_progress"@[27] == 'i');
}

/// What a task's details hold under a key.
pub open spec fn detail(task: TaskProgress, key: Seq<char>) -> Option<Seq<char>> {
    match task.details {
        Some(d) if d@.contains_key(key) => Some(d@[key]),
        _ => None,
    }
}

/// A card is headed by the title of the episode, or else of the item, that the details name, and
/// else by what its type is called, which also stands below; beside it stands the task's own
/// detail, or else its status text, but never an empty one. Cards of one type look alike.
pub proof fn law_card_is_headed_by_what_the_task_names(
    task: TaskProgress,
    card: TaskCard,
    other: TaskProgress,
    others: TaskCard,
)
    requires
        call_ensures(notification_center::task_card, (&task,), card),
        call_ensures(notification_center::task_card, (&other,), others),
    ensures
        detail(task, "episode_title"@) matches Some(t) ==> card.title@ == (LabelView::Text {
            shown: t,
        }),
        detail(task, "episode_title"@) is None ==> (detail(task, "item_title"@) matches Some(t)
            ==> card.title@ == (LabelView::Text { shown: t })),
        detail(task, "episode_title"@) is None && detail(task, "item_title"@) is None
            ==> card.title@ == card.type_label@,
        task.detail is Some && task.detail->0@.len() > 0 ==> text::held(card.sub) == Some(
            task.detail->0@,
        ),
        task.detail is None || task.detail->0@.len() == 0 ==> match detail(task, "status_text"@) {
            Some(t) => if t.len() > 0 {
                text::held(card.sub) == Some(t)
            } else {
                card.sub is None
            },
            None => card.sub is None,
        },
        task.task_type@ == other.task_type@ ==> card.icon@ == others.icon@ && card.type_label@
            == others.type_label@,
{
}

/// The line of a task in an open group is coloured as its own card is, and headed by the same
/// title, or else by its type; at its end stands how far it has come while it runs, and else
/// the word for its status that its card has.
pub proof fn law_line_of_a_group_agrees_with_the_card(
    task: TaskProgress,
    row: notification_center::ChildRow,
    card: TaskCard,
)
    requires
        call_ensures(notification_center::child_row, (&task,), row),
        call_ensures(notification_center::task_card, (&task,), card),
    ensures
        row.kind@ == card.kind@,
        detail(task, "episode_title"@) matches Some(t) ==> row.title@ == t,
        detail(task, "episode_title"@) is None ==> (detail(task, "item_title"@) matches Some(t)
            ==> row.title@ == t),
        detail(task, "episode_title"@) is None && detail(task, "item_title"@) is None
            ==> row.title@ == task.task_type@,
        runs(task) ==> card.percent is Some && row.state@ == (LabelView::Text {
            shown: card.percent->0@,
        }),
        !runs(task) ==> row.state@ == card.status@,
{
}

/// The card of a group is coloured by its tasks: "active" while one of them has not ended, and
/// then "failed" if one of them failed, as the card of that task itself is, and "success" exactly
/// if all of them succeeded.
pub proof fn law_group_is_coloured_by_its_tasks(
    tasks: Vec<TaskProgress>,
    nodes: Vec<RenderNode>,
    at: int,
    average: Double,
    is_open: bool,
    card: GroupCard,
    failed: TaskProgress,
    own: TaskCard,
)
    requires
        call_ensures(progress::group_tasks, (tasks,), nodes),
        0 <= at < nodes@.len(),
        nodes@[at] is Group,
        call_ensures(
            notification_center::group_card,
            (&nodes@[at]->Group_0, average, is_open),
            card,
        ),
        failed.status@ == "FAILED"@,
        call_ensures(notification_center::task_card, (&failed,), own),
    ensures
        ({
            let children = nodes@[at]->Group_0.children@;
            let ended = forall|i: int| 0 <= i < children.len() ==> over(#[trigger] children[i]);
            let one_failed = exists|i: int|
                0 <= i < children.len() && (#[trigger] children[i]).status@ == "FAILED"@;
            let all_well = forall|i: int|
                0 <= i < children.len() ==> (#[trigger] children[i]).status@ == "SUCCESS"@;
            &&& card.kind@ == "active"@ <==> !ended
            &&& card.kind@ == "failed"@ <==> ended && one_failed
            &&& card.kind@ == "success"@ <==> all_well
            &&& ended && one_failed ==> card.kind@ == own.kind@
        }),
{
    law_groups_gather_their_tasks(tasks, nodes);
    lemma_kinds_differ();
    let children = nodes@[at]->Group_0.children@;
    assert(gathers(nodes@[at]->Group_0, tasks@));
    if forall|i: int| 0 <= i < children.len() ==> (#[trigger] children[i]).status@ == "SUCCESS"@ {
        assert forall|i: int| 0 <= i < children.len() implies over(#[trigger] children[i]) by {
            assert(children[i].status@ == "SUCCESS"@);
        }
    }
    if card.kind@ == "success"@ {
        assert forall|i: int| 0 <= i < children.len() implies (#[trigger] children[i]).status@
            == "SUCCESS"@ by {
            assert(over(children[i]));
        }
    }
}

/// The card of a group says how many of its tasks have ended, of how many, and while any has not,
/// how many are under way and how far they have come; open, it shows a line for each of them.
pub proof fn law_group_card_counts_its_tasks(
    tasks: Vec<TaskProgress>,
    nodes: Vec<RenderNode>,
    at: int,
    average: Double,
    is_open: bool,
    card: GroupCard,
)
    requires
        call_ensures(progress::group_tasks, (tasks,), nodes),
        0 <= at < nodes@.len(),
        nodes@[at] is Group,
        call_ensures(
            notification_center::group_card,
            (&nodes@[at]->Group_0, average, is_open),
            card,
        ),
    ensures
        ({
            let group = nodes@[at]->Group_0;
            let children = group.children@;
            let ended = forall|i: int| 0 <= i < children.len() ==> over(#[trigger] children[i]);
            &&& card.key@ == group.key@
            &&& card.is_open == is_open
            &&& card.label@ == group.label@
            &&& card.art_url == children[0].art_url
            &&& card.done_text@ == text::decimal_text(number_over(children) as int) + "/"@
                + text::decimal_text(group.count as int) + " done"@
            &&& ended ==> card.running_text is None && card.bar is None
            &&& !ended ==> text::held(card.running_text) == Some(
                text::decimal_text(number_under_way(children) as int) + " running"@,
            )
            &&& !ended ==> card.bar is Some && fills(card.bar->0.width, average) && text::held(
                card.bar->0.percent,
            ) == Some(text::decimal_text(average.round()) + "%"@)
            &&& is_open ==> card.children@.len() == children.len()
            &&& !is_open ==> card.children@.len() == 0
            &&& forall|i: int|
                0 <= i < card.children@.len() ==> {
                    &&& (#[trigger] card.children@[i]).kind@ == "success"@ <==> children[i].status@
                        == "SUCCESS"@
                    &&& card.children@[i].kind@ == "failed"@ <==> children[i].status@ == "FAILED"@
                    &&& card.children@[i].kind@ == "queued"@ <==> children[i].status@ == "PENDING"@
                    &&& detail(children[i], "episode_title"@) matches Some(t)
                        ==> card.children@[i].title@ == t
                    &&& detail(children[i], "episode_title"@) is None && detail(
                        children[i],
                        "item_title"@,
                    ) is Some ==> card.children@[i].title@ == detail(
                        children[i],
                        "item_title"@,
                    )->0
                    &&& detail(children[i], "episode_title"@) is None && detail(
                        children[i],
                        "item_title"@,
                    ) is None ==> card.children@[i].title@ == children[i].task_type@
                    &&& runs(children[i]) ==> card.children@[i].state@ == (LabelView::Text {
                        shown: text::decimal_text(children[i].progress.round()) + "%"@,
                    })
                    &&& !runs(children[i]) ==> card.children@[i].state@ is Key
                }
        }),
{
    law_groups_gather_their_tasks(tasks, nodes);
    lemma_kinds_differ();
    assert(gathers(nodes@[at]->Group_0, tasks@));
    assert(forall|i: int|
        0 <= i < card.children@.len() ==> notification_center::child_shows(
            #[trigger] card.children@[i],
            nodes@[at]->Group_0.children@[i],
        ));
}

/// The card of a message tells what the message says, and is coloured as an error exactly if the
/// message is an error or a warning, which its icon tells apart.
pub proof fn law_message_card_tells_the_message(
    message: NotificationMessage,
    created_ms: Option<i64>,
    now_ms: i64,
    card: MessageCard,
)
    requires
        call_ensures(notification_center::message_card, (&message, created_ms, now_ms), card),
    ensures
        card.id@ == message.id@,
        card.title@ == message.title@,
        card.body == message.body,
        card.art_url == message.art_url,
        card.kind@ == "error"@ <==> serious(message),
        card.kind@ == "success"@ <==> message.severity@ == "success"@,
        card.kind@ == "info"@ <==> !serious(message) && message.severity@ != "success"@,
        card.icon@ == "ph-warning-circle"@ <==> message.severity@ == "error"@,
        card.icon@ == "ph-warning"@ <==> message.severity@ == "warning"@,
        card.icon@ == "ph-check-circle"@ <==> message.severity@ == "success"@,
        created_ms is None ==> card.age@.len() == 0,
        created_ms matches Some(then) ==> tells_age(card.age@, now_ms - then),
{
    lemma_message_kinds_differ();
    if created_ms is Some {
        lemma_age(now_ms as int, created_ms->0 as int);
    }
}

proof fn lemma_message_kinds_differ()
    ensures
        "error"@ != "success"@,
        "error"@ != "info"@,
        "success"@ != "info"@,
        "error"@ != "warning"@,
        "warning"@ != "success"@,
        "ph-warning-circle"@ != "ph-warning"@,
        "ph-warning-circle"@ != "ph-check-circle"@,
        "ph-warning-circle"@ != "ph-info"@,
        "ph-warning"@ != "ph-check-circle"@,
        "ph-warning"@ != "ph-info"@,
        "ph-check-circle"@ != "ph-info"@,
{
    reveal_strlit("error");
    reveal_strlit("success");
    reveal_strlit("info");
    reveal_strlit("warning");
    reveal_strlit("ph-warning-circle");
    reveal_strlit("ph-warning");
    reveal_strlit("ph-check-circle");
    reveal_strlit("ph-info");
    assert("error"@[0] == 'e' && "success"@[0] == 's' && "info"@[0] == 'i' && "warning"@[0] == 'w');
    assert("ph-warning-circle"@.len() == 17 && "ph-warning"@.len() == 10 && "ph-check-circle"@.len()
        == 15 && "ph-info"@.len() == 7);
}

/// Whether one number is another, divided and rounded: it is nearest to the quotient, and above
/// it where two are as near.
pub open spec fn nearest_part(whole: int, of: int, part: int) -> bool {
    2 * part * of - of <= 2 * whole < 2 * part * of + of
}

/// Whether a text tells an age in milliseconds: "just now" below three quarters of a minute, and
/// then the nearest minutes below an hour, the hours nearest to those below a day, and the days
/// nearest to those.
pub open spec fn tells_age(told: Seq<char>, age: int) -> bool {
    &&& age < 45_000 <==> told == "just now"@
    &&& age >= 45_000 ==> exists|mins: int, hours: int, days: int|
        {
            &&& #[trigger] nearest_part(age, 60_000, mins)
            &&& #[trigger] nearest_part(mins, 60, hours)
            &&& #[trigger] nearest_part(hours, 24, days)
            &&& told == if mins < 60 {
                text::decimal_text(mins) + "m ago"@
            } else if hours < 24 {
                text::decimal_text(hours) + "h ago"@
            } else {
                text::decimal_text(days) + "d ago"@
            }
        }
}

proof fn lemma_nearest(whole: int, of: int)
    requires
        of > 0,
    ensures
        nearest_part(whole, of, progress::rounded_quotient(whole, of)),
{
    let q = progress::rounded_quotient(whole, of);
    vstd::arithmetic::div_mod::lemma_fundamental_div_mod(2 * whole + of, 2 * of);
    vstd::arithmetic::div_mod::lemma_mod_bound(2 * whole + of, 2 * of);
    assert((2 * of) * q == 2 * q * of) by (nonlinear_arith);
}

proof fn lemma_age(now: int, then: int)
    ensures
        tells_age(progress::rel_time_text(now, then), now - then),
{
    let age = now - then;
    let mins = progress::rounded_quotient(age, 60_000);
    let hours = progress::rounded_quotient(mins, 60);
    let days = progress::rounded_quotient(hours, 24);
    let told = progress::rel_time_text(now, then);
    if age >= 45_000 {
        lemma_nearest(age, 60_000);
        lemma_nearest(mins, 60);
        lemma_nearest(hours, 24);
        reveal_strlit("just now");
        reveal_strlit("m ago");
        reveal_strlit("h ago");
        reveal_strlit("d ago");
        assert("just now"@[0] == 'j');
        text::lemma_decimal_chars(mins);
        text::lemma_decimal_chars(hours);
        text::lemma_decimal_chars(days);
        assert(told[0] == '-' || '0' <= told[0] <= '9') by {
            if mins < 60 {
                assert(told[0] == text::decimal_text(mins)[0]);
            } else if hours < 24 {
                assert(told[0] == text::decimal_text(hours)[0]);
            } else {
                assert(told[0] == text::decimal_text(days)[0]);
            }
        }
    }
}

/// An age is told by the nearest number of the largest unit that fits.
pub proof fn law_age_is_told_in_the_largest_unit(now_ms: i64, then_ms: i64, told: String)
    requires
        call_ensures(progress::rel_time, (now_ms, then_ms), told),
    ensures
        tells_age(told@, now_ms - then_ms),
{
    lemma_age(now_ms as int, then_ms as int);
}

// ---- types of tasks ----

/// The words for types of tasks, by their lengths and first letters.
proof fn lemma_types()
    ensures
        "download_episode"@.len() == 16 && "download_episode"@[0] == 'd',
        "podcast_download"@.len() == 16 && "podcast_download"@[0] == 'p',
        "bulk_download"@.len() == 13 && "bulk_download"@[0] == 'b',
        "download_all_episodes"@.len() == 21 && "download_all_episodes"@[0] == 'd',
        "feed_refresh"@.len() == 12 && "feed_refresh"@[0] == 'f',
        "youtube_download"@.len() == 16 && "youtube_download"@[0] == 'y',
        "download_video"@.len() == 14 && "download_video"@[0] == 'd',
        "download_all_videos"@.len() == 19 && "download_all_videos"@[0] == 'd',
        "playlist_generation"@.len() == 19 && "playlist_generation"@[0] == 'p',
        "update_playlists"@.len() == 16 && "update_playlists"@[0] == 'u',
        "opml_import"@.len() == 11 && "opml_import"@[0] == 'o',
        "add_podcast_episodes"@.len() == 20 && "add_podcast_episodes"@[0] == 'a',
        "refresh_gpodder_subscriptions"@.len() == 29 && "refresh_gpodder_subscriptions"@[0] == 'r',
        "gpodder_subscription_refresh"@.len() == 28 && "gpodder_subscription_refresh"@[0] == 'g',
        "refresh_nextcloud_subscriptions"@.len() == 31
            && "refresh_nextcloud_subscriptions"@[0] == 'r',
        "nextcloud_auth"@.len() == 14 && "nextcloud_auth"@[0] == 'n',
        "manual_backup_to_directory"@.len() == 26 && "manual_backup_to_directory"@[0] == 'm',
        "restore_from_backup_file"@.len() == 24 && "restore_from_backup_file"@[0] == 'r',
        "cleanup_tasks"@.len() == 13 && "cleanup_tasks"@[0] == 'c',
        "refresh_hosts"@.len() == 13 && "refresh_hosts"@[0] == 'r',
{
    reveal_strlit("download_episode");
    reveal_strlit("podcast_download");
    reveal_strlit("bulk_download");
    reveal_strlit("download_all_episodes");
    reveal_strlit("feed_refresh");
    reveal_strlit("youtube_download");
    reveal_strlit("download_video");
    reveal_strlit("download_all_videos");
    reveal_strlit("playlist_generation");
    reveal_strlit("update_playlists");
    reveal_strlit("opml_import");
    reveal_strlit("add_podcast_episodes");
    reveal_strlit("refresh_gpodder_subscriptions");
    reveal_strlit("gpodder_subscription_refresh");
    reveal_strlit("refresh_nextcloud_subscriptions");
    reveal_strlit("nextcloud_auth");
    reveal_strlit("manual_backup_to_directory");
    reveal_strlit("restore_from_backup_file");
    reveal_strlit("cleanup_tasks");
    reveal_strlit("refresh_hosts");
}

/// The icons, by their lengths and first letters.
proof fn lemma_icons()
    ensures
        "ph-download-simple"@.len() == 18 && "ph-download-simple"@[3] == 'd',
        "ph-arrows-clockwise"@.len() == 19 && "ph-arrows-clockwise"@[3] == 'a',
        "ph-youtube-logo"@.len() == 15 && "ph-youtube-logo"@[3] == 'y',
        "ph-list-checks"@.len() == 14 && "ph-list-checks"@[3] == 'l',
        "ph-upload-simple"@.len() == 16 && "ph-upload-simple"@[3] == 'u',
        "ph-arrows-left-right"@.len() == 20 && "ph-arrows-left-right"@[3] == 'a',
        "ph-cloud"@.len() == 8 && "ph-cloud"@[3] == 'c',
        "ph-floppy-disk"@.len() == 14 && "ph-floppy-disk"@[3] == 'f',
        "ph-clock-counter-clockwise"@.len() == 26 && "ph-clock-counter-clockwise"@[3] == 'c',
        "ph-broom"@.len() == 8 && "ph-broom"@[3] == 'b',
        "ph-users"@.len() == 8 && "ph-users"@[3] == 'u',
        "ph-circle"@.len() == 9 && "ph-circle"@[3] == 'c',
{
    reveal_strlit("ph-download-simple");
    reveal_strlit("ph-arrows-clockwise");
    reveal_strlit("ph-youtube-logo");
    reveal_strlit("ph-list-checks");
    reveal_strlit("ph-upload-simple");
    reveal_strlit("ph-arrows-left-right");
    reveal_strlit("ph-cloud");
    reveal_strlit("ph-floppy-disk");
    reveal_strlit("ph-clock-counter-clockwise");
    reveal_strlit("ph-broom");
    reveal_strlit("ph-users");
    reveal_strlit("ph-circle");
}

/// The keys of what types of tasks are called, by their lengths and letters.
proof fn lemma_type_keys()
    ensures
        "notification_center.task_download"@.len() == 33
            && "notification_center.task_download"@[25] == 'd',
        "notification_center.task_bulk_download"@.len() == 38
            && "notification_center.task_bulk_download"@[25] == 'b'
            && "notification_center.task_bulk_download"@[35] == 'o',
        "notification_center.task_feed_refresh"@.len() == 37
            && "notification_center.task_feed_refresh"@[25] == 'f'
            && "notification_center.task_feed_refresh"@[35] == 's',
        "notification_center.task_youtube_download"@.len() == 41
            && "notification_center.task_youtube_download"@[25] == 'y'
            && "notification_center.task_youtube_download"@[35] == 'w',
        "notification_center.task_youtube_bulk_download"@.len() == 46
            && "notification_center.task_youtube_bulk_download"@[25] == 'y'
            && "notification_center.task_youtube_bulk_download"@[35] == 'l',
        "notification_center.task_playlist"@.len() == 33
            && "notification_center.task_playlist"@[25] == 'p',
        "notification_center.task_playlist_update"@.len() == 40
            && "notification_center.task_playlist_update"@[25] == 'p'
            && "notification_center.task_playlist_update"@[35] == 'p',
        "notification_center.task_opml_import"@.len() == 36
            && "notification_center.task_opml_import"@[25] == 'o'
            && "notification_center.task_opml_import"@[35] == 't',
        "notification_center.task_add_podcast"@.len() == 36
            && "notification_center.task_add_podcast"@[25] == 'a'
            && "notification_center.task_add_podcast"@[35] == 't',
        "notification_center.task_backup"@.len() == 31
            && "notification_center.task_backup"@[25] == 'b',
        "notification_center.task_restore"@.len() == 32
            && "notification_center.task_restore"@[25] == 'r',
        "notification_center.task_gpodder_sync"@.len() == 37
            && "notification_center.task_gpodder_sync"@[25] == 'g'
            && "notification_center.task_gpodder_sync"@[35] == 'n',
        "notification_center.task_nextcloud_sync"@.len() == 39
            && "notification_center.task_nextcloud_sync"@[25] == 'n'
            && "notification_center.task_nextcloud_sync"@[35] == 's',
        "notification_center.task_nextcloud_auth"@.len() == 39
            && "notification_center.task_nextcloud_auth"@[25] == 'n'
            && "notification_center.task_nextcloud_auth"@[35] == 'a',
        "notification_center.task_cleanup"@.len() == 32
            && "notification_center.task_cleanup"@[25] == 'c',
        "notification_center.task_refresh_hosts"@.len() == 38
            && "notification_center.task_refresh_hosts"@[25] == 'r'
            && "notification_center.task_refresh_hosts"@[35] == 's',
{
    reveal_strlit("notification_center.task_download");
    reveal_strlit("notification_center.task_bulk_download");
    reveal_strlit("notification_center.task_feed_refresh");
    reveal_strlit("notification_center.task_youtube_download");
    reveal_strlit("notification_center.task_youtube_bulk_download");
    reveal_strlit("notification_center.task_playlist");
    reveal_strlit("notification_center.task_playlist_update");
    reveal_strlit("notification_center.task_opml_import");
    reveal_strlit("notification_center.task_add_podcast");
    reveal_strlit("notification_center.task_backup");
    reveal_strlit("notification_center.task_restore");
    reveal_strlit("notification_center.task_gpodder_sync");
    reveal_strlit("notification_center.task_nextcloud_sync");
    reveal_strlit("notification_center.task_nextcloud_auth");
    reveal_strlit("notification_center.task_cleanup");
    reveal_strlit("notification_center.task_refresh_hosts");
}

/// Whether a type of task is one that is known.
pub open spec fn known_type(kind: Seq<char>) -> bool {
    ||| kind == "download_episode"@
    ||| kind == "podcast_download"@
    ||| kind == "bulk_download"@
    ||| kind == "download_all_episodes"@
    ||| kind == "feed_refresh"@
    ||| kind == "youtube_download"@
    ||| kind == "download_video"@
    ||| kind == "download_all_videos"@
    ||| kind == "playlist_generation"@
    ||| kind == "update_playlists"@
    ||| kind == "opml_import"@
    ||| kind == "add_podcast_episodes"@
    ||| kind == "refresh_gpodder_subscriptions"@
    ||| kind == "gpodder_subscription_refresh"@
    ||| kind == "refresh_nextcloud_subscriptions"@
    ||| kind == "nextcloud_auth"@
    ||| kind == "manual_backup_to_directory"@
    ||| kind == "restore_from_backup_file"@
    ||| kind == "cleanup_tasks"@
    ||| kind == "refresh_hosts"@
}

/// Each icon stands for the types of tasks that do its kind of work, and no others: what downloads
/// episodes, refreshes feeds, downloads videos, makes playlists, imports, synchronises, backs up,
/// restores, cleans up or looks after hosts; and a circle for every type that is not known.
pub proof fn law_icons_stand_for_kinds_of_work(kind: &str, icon: &'static str)
    requires
        call_ensures(progress::task_icon, (kind,), icon),
    ensures
        icon@ == "ph-download-simple"@ <==> kind@ == "download_episode"@
            || kind@ == "podcast_download"@ || kind@ == "bulk_download"@
            || kind@ == "download_all_episodes"@,
        icon@ == "ph-arrows-clockwise"@ <==> kind@ == "feed_refresh"@,
        icon@ == "ph-youtube-logo"@ <==> kind@ == "youtube_download"@ || kind@ == "download_video"@
            || kind@ == "download_all_videos"@,
        icon@ == "ph-list-checks"@ <==> kind@ == "playlist_generation"@
            || kind@ == "update_playlists"@,
        icon@ == "ph-upload-simple"@ <==> kind@ == "opml_import"@
            || kind@ == "add_podcast_episodes"@,
        icon@ == "ph-arrows-left-right"@ <==> kind@ == "refresh_gpodder_subscriptions"@
            || kind@ == "gpodder_subscription_refresh"@,
        icon@ == "ph-cloud"@ <==> kind@ == "refresh_nextcloud_subscriptions"@
            || kind@ == "nextcloud_auth"@,
        icon@ == "ph-floppy-disk"@ <==> kind@ == "manual_backup_to_directory"@,
        icon@ == "ph-clock-counter-clockwise"@ <==> kind@ == "restore_from_backup_file"@,
        icon@ == "ph-broom"@ <==> kind@ == "cleanup_tasks"@,
        icon@ == "ph-users"@ <==> kind@ == "refresh_hosts"@,
        icon@ == "ph-circle"@ <==> !known_type(kind@),
{
    lemma_types();
    lemma_icons();
}

/// Each name stands for the types of tasks that are called by it, and no others; a type that is not
/// known is called by its own word.
pub proof fn law_names_stand_for_types_of_tasks(kind: &str, label: Label)
    requires
        call_ensures(notification_center::type_label, (kind,), label),
    ensures
        label@ == (LabelView::Key { name: "notification_center.task_download"@ })
            <==> kind@ == "download_episode"@ || kind@ == "podcast_download"@,
        label@ == (LabelView::Key { name: "notification_center.task_bulk_download"@ })
            <==> kind@ == "bulk_download"@ || kind@ == "download_all_episodes"@,
        label@ == (LabelView::Key { name: "notification_center.task_feed_refresh"@ })
            <==> kind@ == "feed_refresh"@,
        label@ == (LabelView::Key { name: "notification_center.task_youtube_download"@ })
            <==> kind@ == "youtube_download"@ || kind@ == "download_video"@,
        label@ == (LabelView::Key { name: "notification_center.task_youtube_bulk_download"@ })
            <==> kind@ == "download_all_videos"@,
        label@ == (LabelView::Key { name: "notification_center.task_playlist"@ })
            <==> kind@ == "playlist_generation"@,
        label@ == (LabelView::Key { name: "notification_center.task_playlist_update"@ })
            <==> kind@ == "update_playlists"@,
        label@ == (LabelView::Key { name: "notification_center.task_opml_import"@ })
            <==> kind@ == "opml_import"@,
        label@ == (LabelView::Key { name: "notification_center.task_add_podcast"@ })
            <==> kind@ == "add_podcast_episodes"@,
        label@ == (LabelView::Key { name: "notification_center.task_backup"@ })
            <==> kind@ == "manual_backup_to_directory"@,
        label@ == (LabelView::Key { name: "notification_center.task_restore"@ })
            <==> kind@ == "restore_from_backup_file"@,
        label@ == (LabelView::Key { name: "notification_center.task_gpodder_sync"@ })
            <==> kind@ == "refresh_gpodder_subscriptions"@
            || kind@ == "gpodder_subscription_refresh"@,
        label@ == (LabelView::Key { name: "notification_center.task_nextcloud_sync"@ })
            <==> kind@ == "refresh_nextcloud_subscriptions"@,
        label@ == (LabelView::Key { name: "notification_center.task_nextcloud_auth"@ })
            <==> kind@ == "nextcloud_auth"@,
        label@ == (LabelView::Key { name: "notification_center.task_cleanup"@ })
            <==> kind@ == "cleanup_tasks"@,
        label@ == (LabelView::Key { name: "notification_center.task_refresh_hosts"@ })
            <==> kind@ == "refresh_hosts"@,
        label@ == (LabelView::Text { shown: kind@ }) <==> !known_type(kind@),
{
    lemma_types();
    lemma_type_keys();
}

/// A card bears the icon and the name of its task's type; and the card of a group the icon of the
/// first of its tasks.
pub proof fn law_cards_bear_the_icon_of_their_type(
    task: TaskProgress,
    card: TaskCard,
    kind: &str,
    icon: &'static str,
    label: Label,
    group: GroupNode,
    average: Double,
    is_open: bool,
    folded: GroupCard,
)
    requires
        call_ensures(notification_center::task_card, (&task,), card),
        call_ensures(progress::task_icon, (kind,), icon),
        call_ensures(notification_center::type_label, (kind,), label),
        call_ensures(notification_center::group_card, (&group, average, is_open), folded),
    ensures
        kind@ == task.task_type@ ==> card.icon@ == icon@ && card.type_label@ == label@,
        kind@ == group.ttype@ ==> folded.icon@ == icon@,
{
}

/// What is shown by functions of their own is what the whole shows: a bar is filled as far as
/// something has come, a badge says its number, a tab marks itself where it is turned to, and the
/// line below a title is the task's own detail or else its status text.
pub proof fn law_parts_show_what_the_whole_shows(
    come: Double,
    with_percent: bool,
    bar: notification_center::ProgressBar,
    told: String,
    number: usize,
    badge: Option<String>,
    id: &'static str,
    name: &'static str,
    chosen: &str,
    tab: notification_center::TabView,
    task: TaskProgress,
    line: Option<String>,
)
    requires
        call_ensures(notification_center::render_progress, (come, with_percent), bar),
        call_ensures(notification_center::percent, (come,), told),
        call_ensures(notification_center::badge_text, (number,), badge),
        call_ensures(notification_center::render_tab, (id, name, number, chosen), tab),
        call_ensures(TaskProgress::sub_line, (&task,), line),
    ensures
        fills(bar.width, come),
        told@ == text::decimal_text(come.round()) + "%"@,
        with_percent ==> text::held(bar.percent) == Some(told@),
        !with_percent ==> bar.percent is None,
        badge is None <==> number == 0,
        0 < number <= 9 ==> badge->0@ == text::decimal_text(number as int),
        number > 9 ==> badge->0@ == "9+"@,
        tab.id@ == id@ && tab.label@ == name@,
        tab.is_active <==> chosen@ == id@,
        tab.pip is None <==> number == 0,
        tab.pip matches Some(n) ==> n == number,
        line matches Some(t) ==> t@.len() > 0,
        task.detail is Some && task.detail->0@.len() > 0 ==> text::held(line) == Some(
            task.detail->0@,
        ),
        (task.detail is None || task.detail->0@.len() == 0) && line is Some ==> text::held(line)
            == detail(task, "status_text"@),
        (task.detail is None || task.detail->0@.len() == 0) && line is None ==> detail(
            task,
            "status_text"@,
        ) is None || detail(task, "status_text"@)->0.len() == 0,
{
}

/// Every word for a status, a severity, a tab or the emptiness of one stands for what it says, and
/// every other for what is left.
pub proof fn law_words_stand_for_what_they_say(
    status: &str,
    label: Label,
    severity: &str,
    kind: (&'static str, &'static str),
    tab: notification_center::Tab,
    id: &'static str,
    turned_to: &str,
    copy: (&'static str, &'static str),
)
    requires
        call_ensures(notification_center::status_label, (status,), label),
        call_ensures(progress::msg_kind, (severity,), kind),
        call_ensures(notification_center::Tab::id, (&tab,), id),
        call_ensures(notification_center::empty_copy, (turned_to,), copy),
    ensures
        status@ == "PENDING"@ ==> label@ == (LabelView::Key {
            name: "notification_center.status_queued"@,
        }),
        status@ == "SUCCESS"@ ==> label@ == (LabelView::Key {
            name: "notification_center.status_completed"@,
        }),
        status@ == "FAILED"@ ==> label@ == (LabelView::Key {
            name: "notification_center.status_failed"@,
        }),
        status@ != "PENDING"@ && status@ != "SUCCESS"@ && status@ != "FAILED"@ ==> label@ == (
        LabelView::Key { name: "notification_center.status_in_progress"@ }),
        severity@ == "error"@ || severity@ == "warning"@ ==> kind.0@ == "error"@,
        severity@ == "success"@ ==> kind.0@ == "success"@ && kind.1@ == "ph-check-circle"@,
        severity@ == "error"@ ==> kind.1@ == "ph-warning-circle"@,
        severity@ == "warning"@ ==> kind.1@ == "ph-warning"@,
        severity@ != "error"@ && severity@ != "warning"@ && severity@ != "success"@ ==> kind.0@
            == "info"@ && kind.1@ == "ph-info"@,
        tab is All ==> id@ == "all"@,
        tab is Active ==> id@ == "active"@,
        tab is Done ==> id@ == "done"@,
        turned_to@ == "active"@ ==> copy.0@ == "Nothing running"@ && copy.1@
            == "Downloads and feed refreshes will show up here."@,
        turned_to@ == "done"@ ==> copy.0@ == "Nothing completed yet"@ && copy.1@
            == "Finished tasks land here so you can review them."@,
        turned_to@ != "active"@ && turned_to@ != "done"@ ==> copy.0@ == "You're all caught up"@
            && copy.1@ == "No downloads, syncs, or messages right now."@,
{
    reveal_strlit("PENDING");
    reveal_strlit("SUCCESS");
    reveal_strlit("FAILED");
    reveal_strlit("error");
    reveal_strlit("warning");
    reveal_strlit("success");
    reveal_strlit("active");
    reveal_strlit("done");
    assert("PENDING"@.len() == 7 && "SUCCESS"@.len() == 7 && "FAILED"@.len() == 6);
    assert("PENDING"@[0] == 'P' && "SUCCESS"@[0] == 'S');
    assert("error"@.len() == 5 && "warning"@.len() == 7 && "success"@.len() == 7);
    assert("warning"@[0] == 'w' && "success"@[0] == 's');
    assert("active"@.len() == 6 && "done"@.len() == 4);
}

/// Tasks and messages are counted by their words, and a detail is what is entered under its key.
pub proof fn law_counts_go_by_the_words(
    tasks: Vec<TaskProgress>,
    part: Part,
    number: usize,
    messages: Vec<NotificationMessage>,
    errors: usize,
    task: TaskProgress,
    key: &str,
    entry: Option<String>,
)
    requires
        call_ensures(notification_center::count_tasks, (&tasks, part), number),
        call_ensures(notification_center::count_errors, (&messages,), errors),
        call_ensures(TaskProgress::detail_at, (&task, key), entry),
    ensures
        part is Active ==> number == number_under_way(tasks@),
        part is Running ==> number == number_running(tasks@),
        part is Done ==> number == number_over(tasks@),
        errors == number_serious(messages@),
        text::held(entry) == detail(task, key@),
{
    lemma_parts(tasks@, messages@);
}

/// The drawer shows the sections of its tab.
pub proof fn law_drawer_shows_the_sections_of_its_tab(
    drawer: Drawer,
    tab: &str,
    tasks: Vec<TaskProgress>,
    messages: Vec<NotificationMessage>,
    average: Double,
    view: ActivityView,
    sections: Vec<Section>,
    i: int,
)
    requires
        call_ensures(
            notification_center::notification_center,
            (&drawer, tasks, messages, average),
            view,
        ),
        call_ensures(notification_center::sections, (tab, tasks, messages), sections),
        tab@ == drawer.tab@,
        0 <= i < sections@.len(),
    ensures
        view.sections@.len() == sections@.len(),
        view.sections@[i].label@ == sections@[i].label@,
        view.sections@[i].messages@ == sections@[i].messages@,
        view.sections@[i].count == sections@[i].count,
        view.sections@[i].clearable == sections@[i].clearable,
        view.sections@[i].nodes@.len() == sections@[i].nodes@.len(),
        forall|k: int|
            0 <= k < sections@[i].nodes@.len() ==> tasks_of_row(
                #[trigger] view.sections@[i].nodes@[k],
            ) == tasks_of_row(sections@[i].nodes@[k]),
{
    let plans = notification_center::planned(tab@, tasks@, messages@);
    assert(notification_center::section_shows(view.sections@[i], plans[i]));
    assert(notification_center::section_shows(sections@[i], plans[i]));
}

} // verus!
