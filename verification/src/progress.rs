//! Background tasks as the activity centre shows them: what their states mean, in which
//! order they stand and how they fold into groups.

use crate::double::{Double, ZERO};
use crate::order;
use crate::order::Ranked;
use crate::task_manager::{MsgSeverity, TaskStatus};
use crate::text;
use vstd::prelude::*;

verus! {

// ---- tasks as the drawer knows them ----

/// Texts under keys. Of two entries under one key the later one counts.
#[derive(Clone, Debug, PartialEq)]
pub struct Details {
    pub entries: Vec<(String, String)>,
}

/// What entries hold under each key.
pub open spec fn held_entries(entries: Seq<(String, String)>) -> Map<Seq<char>, Seq<char>>
    decreases entries.len(),
{
    if entries.len() == 0 {
        Map::empty()
    } else {
        held_entries(entries.drop_last()).insert(entries.last().0@, entries.last().1@)
    }
}

impl View for Details {
    type V = Map<Seq<char>, Seq<char>>;

    open spec fn view(&self) -> Map<Seq<char>, Seq<char>> {
        held_entries(self.entries@)
    }
}

impl Details {
    /// No entries.
    pub fn new() -> (r: Self)
        ensures
            r@ == Map::<Seq<char>, Seq<char>>::empty(),
    {
        Details { entries: Vec::new() }
    }

    /// Puts a text under a key.
    pub fn insert(&mut self, key: String, value: String)
        ensures
            final(self)@ == old(self)@.insert(key@, value@),
    {
        let ghost before = self.entries@;
        self.entries.push((key, value));
        assert(self.entries@.drop_last() =~= before);
    }

    /// The text under a key.
    pub fn get(&self, key: &str) -> (r: Option<String>)
        ensures
            text::held(r) == if self@.contains_key(key@) {
                Some(self@[key@])
            } else {
                None
            },
    {
        let mut i: usize = self.entries.len();
        assert(self.entries@.take(i as int) =~= self.entries@);
        while i > 0
            invariant
                i <= self.entries@.len(),
                self@.contains_key(key@) == held_entries(
                    self.entries@.take(i as int),
                ).contains_key(key@),
                self@.contains_key(key@) ==> self@[key@] == held_entries(
                    self.entries@.take(i as int),
                )[key@],
            decreases i,
        {
            let ghost shorter = self.entries@.take(i as int);
            assert(shorter.drop_last() =~= self.entries@.take(i - 1));
            if text::same(self.entries[i - 1].0.as_str(), key) {
                return Some(self.entries[i - 1].1.clone());
            }
            i -= 1;
        }
        assert(self.entries@.take(0) =~= Seq::empty());
        None
    }
}

/// A background task as the drawer shows it.
#[derive(Clone, Debug, PartialEq)]
pub struct TaskProgress {
    pub task_id: String,
    pub user_id: i32,
    pub item_id: Option<String>,
    pub task_type: String,
    /// Per cent.
    pub progress: Double,
    pub status: String,
    pub started_at: String,
    pub completed_at: Option<String>,
    pub details: Option<Details>,
    /// When the task ended, in milliseconds since the beginning of 1970.
    pub completion_time: Option<Double>,
    pub art_url: Option<String>,
    pub detail: Option<String>,
    pub group: Option<String>,
    pub group_label: Option<String>,
    pub total: Option<i32>,
}

/// How far a refresh of feeds has come.
#[derive(Clone, Debug, PartialEq)]
pub struct RefreshProgress {
    pub current: i32,
    pub total: i32,
    pub current_podcast: String,
}

/// What the details of a task hold under a key.
pub open spec fn detail_text(task: TaskProgress, key: Seq<char>) -> Option<Seq<char>> {
    match task.details {
        Some(d) => if d@.contains_key(key) {
            Some(d@[key])
        } else {
            None
        },
        None => None,
    }
}

/// The line below the title of a task: its own detail, or else its status text, unless empty.
pub open spec fn sub_line_text(task: TaskProgress) -> Option<Seq<char>> {
    if task.detail is Some && task.detail->0@.len() > 0 {
        Some(task.detail->0@)
    } else {
        match detail_text(task, "status_text"@) {
            Some(t) => if t.len() > 0 {
                Some(t)
            } else {
                None
            },
            None => None,
        }
    }
}

impl TaskProgress {
    /// The task that stands for a refresh of feeds. `percent` is how much of a total above
    /// zero is done; `stamp` and `started` are the present, in milliseconds.
    pub fn from_refresh_progress(
        progress: &RefreshProgress,
        percent: Double,
        stamp: i64,
        started: i64,
    ) -> (r: Self)
        ensures
            r.task_id@ == "feed_refresh_"@ + text::decimal_text(stamp as int),
            r.user_id == 0,
            r.item_id is None,
            r.task_type@ == "feed_refresh"@,
            r.progress == if progress.total > 0 {
                percent
            } else {
                Double { bits: ZERO }
            },
            r.status@ == "PROGRESS"@,
            r.started_at@ == text::decimal_text(started as int),
            r.completed_at is None,
            r.details is Some,
            r.details->0@ == Map::<Seq<char>, Seq<char>>::empty().insert(
                "current_podcast"@,
                progress.current_podcast@,
            ).insert("current"@, text::decimal_text(progress.current as int)).insert(
                "total"@,
                text::decimal_text(progress.total as int),
            ),
            r.completion_time is None,
            r.art_url is None,
            r.detail is None,
            r.group is None,
            r.group_label is None,
            r.total is None,
    {
        let mut details: Details = Details::new();
        details.insert("current_podcast".to_string(), progress.current_podcast.clone());
        details.insert("current".to_string(), text::decimal(progress.current as i64));
        details.insert("total".to_string(), text::decimal(progress.total as i64));
        TaskProgress {
            task_id: text::joined("feed_refresh_", text::decimal(stamp).as_str()),
            user_id: 0,
            item_id: None,
            task_type: "feed_refresh".to_string(),
            progress: if progress.total > 0 {
                percent
            } else {
                Double { bits: ZERO }
            },
            status: "PROGRESS".to_string(),
            started_at: text::decimal(started),
            completed_at: None,
            details: Some(details),
            completion_time: None,
            art_url: None,
            detail: None,
            group: None,
            group_label: None,
            total: None,
        }
    }

    /// What the details of a task hold under a key.
    pub fn detail_at(&self, key: &str) -> (r: Option<String>)
        ensures
            text::held(r) == detail_text(*self, key@),
    {
        match &self.details {
            Some(d) => d.get(key),
            None => None,
        }
    }

    /// The line below the title.
    pub fn sub_line(&self) -> (r: Option<String>)
        ensures
            text::held(r) == sub_line_text(*self),
    {
        if let Some(d) = &self.detail {
            if !d.as_str().is_empty() {
                return Some(d.clone());
            }
        }
        match self.detail_at("status_text") {
            Some(t) => if t.as_str().is_empty() {
                None
            } else {
                Some(t)
            },
            None => None,
        }
    }
}

// ---- what a status means ----

/// Whether a status means that a task is running.
pub open spec fn progressing(status: Seq<char>) -> bool {
    ||| status == "PROGRESS"@
    ||| status == "STARTED"@
    ||| status == "DOWNLOADING"@
    ||| status == "PROCESSING"@
    ||| status == "FINALIZING"@
}

/// Whether a status means that a task is queued or running.
pub open spec fn active(status: Seq<char>) -> bool {
    status == "PENDING"@ || progressing(status)
}

/// Whether a status means that a task has ended.
pub open spec fn done(status: Seq<char>) -> bool {
    status == "SUCCESS"@ || status == "FAILED"@
}

/// Whether a status means that a task is running.
pub fn is_progress(status: &str) -> (r: bool)
    ensures
        r == progressing(status@),
{
    text::same(status, "PROGRESS") || text::same(status, "STARTED") || text::same(
        status,
        "DOWNLOADING",
    ) || text::same(status, "PROCESSING") || text::same(status, "FINALIZING")
}

/// Whether a status means that a task is queued or running.
pub fn is_active(status: &str) -> (r: bool)
    ensures
        r == active(status@),
{
    text::same(status, "PENDING") || is_progress(status)
}

/// Whether a status means that a task has ended.
pub fn is_done(status: &str) -> (r: bool)
    ensures
        r == done(status@),
{
    text::same(status, "SUCCESS") || text::same(status, "FAILED")
}

/// The class that colours a status.
pub open spec fn kind_text(status: Seq<char>) -> Seq<char> {
    if status == "PENDING"@ {
        "queued"@
    } else if status == "SUCCESS"@ {
        "success"@
    } else if status == "FAILED"@ {
        "failed"@
    } else {
        "active"@
    }
}

/// The class that colours a status.
pub fn kind_class(status: &str) -> (r: &'static str)
    ensures
        r@ == kind_text(status@),
{
    if text::same(status, "PENDING") {
        "queued"
    } else if text::same(status, "SUCCESS") {
        "success"
    } else if text::same(status, "FAILED") {
        "failed"
    } else {
        "active"
    }
}

/// The rank of a status: running, then queued, failed, and all others.
pub open spec fn rank_of(status: Seq<char>) -> u8 {
    if progressing(status) {
        0
    } else if status == "PENDING"@ {
        1
    } else if status == "FAILED"@ {
        2
    } else {
        3
    }
}

/// The rank of a status.
pub fn rank(status: &str) -> (r: u8)
    ensures
        r == rank_of(status@),
{
    if is_progress(status) {
        0
    } else if text::same(status, "PENDING") {
        1
    } else if text::same(status, "FAILED") {
        2
    } else {
        3
    }
}

/// The icon of a type of task.
pub open spec fn task_icon_text(task_type: Seq<char>) -> Seq<char> {
    if task_type == "download_episode"@ || task_type == "podcast_download"@ || task_type
        == "bulk_download"@ || task_type == "download_all_episodes"@ {
        "ph-download-simple"@
    } else if task_type == "feed_refresh"@ {
        "ph-arrows-clockwise"@
    } else if task_type == "youtube_download"@ || task_type == "download_video"@ || task_type
        == "download_all_videos"@ {
        "ph-youtube-logo"@
    } else if task_type == "playlist_generation"@ || task_type == "update_playlists"@ {
        "ph-list-checks"@
    } else if task_type == "opml_import"@ || task_type == "add_podcast_episodes"@ {
        "ph-upload-simple"@
    } else if task_type == "refresh_gpodder_subscriptions"@ || task_type
        == "gpodder_subscription_refresh"@ {
        "ph-arrows-left-right"@
    } else if task_type == "refresh_nextcloud_subscriptions"@ || task_type == "nextcloud_auth"@ {
        "ph-cloud"@
    } else if task_type == "manual_backup_to_directory"@ {
        "ph-floppy-disk"@
    } else if task_type == "restore_from_backup_file"@ {
        "ph-clock-counter-clockwise"@
    } else if task_type == "cleanup_tasks"@ {
        "ph-broom"@
    } else if task_type == "refresh_hosts"@ {
        "ph-users"@
    } else {
        "ph-circle"@
    }
}

/// The icon of a type of task.
pub fn task_icon(task_type: &str) -> (r: &'static str)
    ensures
        r@ == task_icon_text(task_type@),
{
    if text::same(task_type, "download_episode") || text::same(task_type, "podcast_download")
        || text::same(task_type, "bulk_download") || text::same(
        task_type,
        "download_all_episodes",
    ) {
        "ph-download-simple"
    } else if text::same(task_type, "feed_refresh") {
        "ph-arrows-clockwise"
    } else if text::same(task_type, "youtube_download") || text::same(task_type, "download_video")
        || text::same(task_type, "download_all_videos") {
        "ph-youtube-logo"
    } else if text::same(task_type, "playlist_generation") || text::same(
        task_type,
        "update_playlists",
    ) {
        "ph-list-checks"
    } else if text::same(task_type, "opml_import") || text::same(
        task_type,
        "add_podcast_episodes",
    ) {
        "ph-upload-simple"
    } else if text::same(task_type, "refresh_gpodder_subscriptions") || text::same(
        task_type,
        "gpodder_subscription_refresh",
    ) {
        "ph-arrows-left-right"
    } else if text::same(task_type, "refresh_nextcloud_subscriptions") || text::same(
        task_type,
        "nextcloud_auth",
    ) {
        "ph-cloud"
    } else if text::same(task_type, "manual_backup_to_directory") {
        "ph-floppy-disk"
    } else if text::same(task_type, "restore_from_backup_file") {
        "ph-clock-counter-clockwise"
    } else if text::same(task_type, "cleanup_tasks") {
        "ph-broom"
    } else if text::same(task_type, "refresh_hosts") {
        "ph-users"
    } else {
        "ph-circle"
    }
}

/// The class and the icon of a message.
pub open spec fn msg_kind_text(severity: Seq<char>) -> (Seq<char>, Seq<char>) {
    if severity == "error"@ {
        ("error"@, "ph-warning-circle"@)
    } else if severity == "warning"@ {
        ("error"@, "ph-warning"@)
    } else if severity == "success"@ {
        ("success"@, "ph-check-circle"@)
    } else {
        ("info"@, "ph-info"@)
    }
}

/// The class and the icon of a message.
pub fn msg_kind(severity: &str) -> (r: (&'static str, &'static str))
    ensures
        (r.0@, r.1@) == msg_kind_text(severity@),
{
    if text::same(severity, "error") {
        ("error", "ph-warning-circle")
    } else if text::same(severity, "warning") {
        ("error", "ph-warning")
    } else if text::same(severity, "success") {
        ("success", "ph-check-circle")
    } else {
        ("info", "ph-info")
    }
}

/// Whether a message counts toward the bell badge.
pub open spec fn counts_badge(severity: Seq<char>) -> bool {
    severity == "error"@ || severity == "warning"@
}

/// Whether a message counts toward the bell badge.
pub fn msg_counts_badge(severity: &str) -> (r: bool)
    ensures
        r == counts_badge(severity@),
{
    text::same(severity, "error") || text::same(severity, "warning")
}

/// A number divided by a positive one, rounded to the nearest integer, halves up.
pub open spec fn rounded_quotient(n: int, d: int) -> int {
    (2 * n + d) / (2 * d)
}

/// How long ago something was, in the largest unit that fits.
pub open spec fn rel_time_text(now_ms: int, then_ms: int) -> Seq<char> {
    let age = now_ms - then_ms;
    let mins = rounded_quotient(age, 60_000);
    let hours = rounded_quotient(mins, 60);
    let days = rounded_quotient(hours, 24);
    if age < 45_000 {
        "just now"@
    } else if mins < 60 {
        text::decimal_text(mins) + "m ago"@
    } else if hours < 24 {
        text::decimal_text(hours) + "h ago"@
    } else {
        text::decimal_text(days) + "d ago"@
    }
}

/// Tells how long ago something was, given both instants in milliseconds.
pub fn rel_time(now_ms: i64, then_ms: i64) -> (r: String)
    ensures
        r@ == rel_time_text(now_ms as int, then_ms as int),
{
    let age: i128 = now_ms as i128 - then_ms as i128;
    if age < 45_000 {
        return "just now".to_string();
    }
    let mins: i128 = (2 * age + 60_000) / 120_000;
    if mins < 60 {
        return text::joined(text::decimal(mins as i64).as_str(), "m ago");
    }
    let hours: i128 = (2 * mins + 60) / 120;
    if hours < 24 {
        return text::joined(text::decimal(hours as i64).as_str(), "h ago");
    }
    let days: i128 = (2 * hours + 24) / 48;
    text::joined(text::decimal(days as i64).as_str(), "d ago")
}

// ---- order ----

/// When a task ended, or zero.
pub open spec fn ended(task: TaskProgress) -> Double {
    match task.completion_time {
        Some(t) => t,
        None => Double { bits: ZERO },
    }
}

impl Ranked for TaskProgress {
    /// A task stands ahead of one of a higher rank, and of one of its own rank that ended
    /// earlier.
    open spec fn ahead(self, other: Self) -> bool {
        ||| rank_of(self.status@) < rank_of(other.status@)
        ||| rank_of(self.status@) == rank_of(other.status@) && ended(other).below(ended(self))
    }

    open spec fn placed(self) -> bool {
        !ended(self).nan()
    }

    proof fn lemma_ranked(a: Self, b: Self, c: Self) {
    }

    fn is_ahead(&self, other: &Self) -> (r: bool) {
        let mine: u8 = rank(self.status.as_str());
        let others: u8 = rank(other.status.as_str());
        if mine == others {
            ended_at(other).is_below(ended_at(self))
        } else {
            mine < others
        }
    }
}

fn ended_at(task: &TaskProgress) -> (r: Double)
    ensures
        r == ended(*task),
{
    match task.completion_time {
        Some(t) => t,
        None => Double { bits: ZERO },
    }
}

/// Puts tasks in order: running, queued, failed, then the others; within a rank the one that
/// ended last comes first, and ties keep their order.
pub fn sort_tasks(tasks: Vec<TaskProgress>) -> (r: Vec<TaskProgress>)
    ensures
        r@ == order::ordered(tasks@),
{
    order::sort(tasks)
}

// ---- groups ----

/// Sibling tasks folded into one row.
#[derive(Clone, Debug, PartialEq)]
pub struct GroupNode {
    pub key: String,
    pub label: String,
    pub ttype: String,
    pub art: Option<String>,
    pub children: Vec<TaskProgress>,
    pub done_count: usize,
    pub active_count: usize,
    pub all_done: bool,
    pub any_failed: bool,
    pub count: i32,
}

/// A row of the drawer.
#[derive(Clone, Debug, PartialEq)]
pub enum RenderNode {
    Task(TaskProgress),
    Group(GroupNode),
}

/// What a row stands for: one task, or all tasks of a group.
pub ghost enum Row {
    Task { task: TaskProgress },
    Group { key: Seq<char>, children: Seq<TaskProgress> },
}

/// Whether a task belongs to a group.
pub open spec fn in_group(task: TaskProgress, key: Seq<char>) -> bool {
    task.group is Some && task.group->0@ == key
}

/// Whether a row is the row of a group.
pub open spec fn is_row_of(row: Row, key: Seq<char>) -> bool {
    row is Group && row->key == key
}

/// Where the row of a group first stands, or the number of rows.
pub open spec fn row_of(rows: Seq<Row>, key: Seq<char>) -> int
    decreases rows.len(),
{
    if rows.len() == 0 {
        0
    } else if row_of(rows.drop_last(), key) < rows.len() - 1 {
        row_of(rows.drop_last(), key)
    } else if is_row_of(rows.last(), key) {
        rows.len() - 1
    } else {
        rows.len() as int
    }
}

/// The rows with one more task: it joins the row of its group, if there is one, and else
/// begins a row at the end.
pub open spec fn with_task(rows: Seq<Row>, task: TaskProgress) -> Seq<Row> {
    match task.group {
        None => rows.push(Row::Task { task }),
        Some(key) => {
            let at = row_of(rows, key@);
            if at < rows.len() {
                rows.update(
                    at,
                    Row::Group { key: key@, children: rows[at]->children.push(task) },
                )
            } else {
                rows.push(Row::Group { key: key@, children: seq![task] })
            }
        },
    }
}

/// The rows that tasks fold into.
pub open spec fn folded(tasks: Seq<TaskProgress>) -> Seq<Row>
    decreases tasks.len(),
{
    if tasks.len() == 0 {
        Seq::empty()
    } else {
        with_task(folded(tasks.drop_last()), tasks.last())
    }
}

/// How many tasks have ended.
pub open spec fn done_among(tasks: Seq<TaskProgress>) -> nat {
    tasks.filter(|t: TaskProgress| done(t.status@)).len()
}

/// How many tasks are queued or running.
pub open spec fn active_among(tasks: Seq<TaskProgress>) -> nat {
    tasks.filter(|t: TaskProgress| active(t.status@)).len()
}

/// Whether a group's label, type and art are those of its first task.
pub open spec fn headed_by(node: GroupNode, first: TaskProgress) -> bool {
    &&& node.label@ == match first.group_label {
        Some(l) => l@,
        None => "Tasks"@,
    }
    &&& node.ttype == first.task_type
    &&& node.art == first.art_url
}

/// How many tasks a group speaks of: what its first task says, if that is above zero, or else
/// how many are there.
pub open spec fn group_size(children: Seq<TaskProgress>) -> i32 {
    match children[0].total {
        Some(t) => if t > 0 {
            t
        } else {
            children.len() as i32
        },
        None => children.len() as i32,
    }
}

/// Whether a row of the drawer shows what a row stands for.
pub open spec fn shows(node: RenderNode, row: Row) -> bool {
    match (node, row) {
        (RenderNode::Task(t), Row::Task { task }) => t == task,
        (RenderNode::Group(g), Row::Group { key, children }) => {
            &&& g.key@ == key
            &&& g.children@ == children
            &&& children.len() > 0
            &&& headed_by(g, children[0])
            &&& g.done_count == done_among(children)
            &&& g.active_count == active_among(children)
            &&& g.all_done == (forall|i: int|
                0 <= i < children.len() ==> done((#[trigger] children[i]).status@))
            &&& g.any_failed == (exists|i: int|
                0 <= i < children.len() && (#[trigger] children[i]).status@ == "FAILED"@)
            &&& g.count == group_size(children)
        },
        _ => false,
    }
}

/// Whether a row under construction holds what a row stands for.
spec fn collects(node: RenderNode, row: Row) -> bool {
    match (node, row) {
        (RenderNode::Task(t), Row::Task { task }) => t == task,
        (RenderNode::Group(g), Row::Group { key, children }) => {
            &&& g.key@ == key
            &&& g.children@ == children
            &&& children.len() > 0
            &&& headed_by(g, children[0])
            &&& g.count == match children[0].total {
                Some(t) => t,
                None => 0,
            }
        },
        _ => false,
    }
}

proof fn lemma_row_of(rows: Seq<Row>, key: Seq<char>, at: int)
    requires
        0 <= at <= rows.len(),
        forall|k: int| 0 <= k < at ==> !is_row_of(#[trigger] rows[k], key),
        at < rows.len() ==> is_row_of(rows[at], key),
    ensures
        row_of(rows, key) == at,
    decreases rows.len(),
{
    if rows.len() > 0 {
        let rest = rows.drop_last();
        if at < rest.len() {
            lemma_row_of(rest, key, at);
        } else {
            lemma_row_of(rest, key, rest.len() as int);
        }
    }
}

/// Finds the row of a group.
fn find_group(nodes: &Vec<RenderNode>, key: &str, Ghost(rows): Ghost<Seq<Row>>) -> (r: usize)
    requires
        nodes@.len() == rows.len(),
        forall|i: int| 0 <= i < rows.len() ==> collects(#[trigger] nodes@[i], rows[i]),
    ensures
        r == row_of(rows, key@),
        r <= nodes@.len(),
        r < nodes@.len() ==> is_row_of(rows[r as int], key@),
{
    let mut i: usize = 0;
    while i < nodes.len()
        invariant
            i <= nodes@.len(),
            nodes@.len() == rows.len(),
            forall|i: int| 0 <= i < rows.len() ==> collects(#[trigger] nodes@[i], rows[i]),
            forall|k: int| 0 <= k < i ==> !is_row_of(#[trigger] rows[k], key@),
        decreases nodes@.len() - i,
    {
        assert(collects(nodes@[i as int], rows[i as int]));
        if let RenderNode::Group(g) = &nodes[i] {
            if text::same(g.key.as_str(), key) {
                proof {
                    lemma_row_of(rows, key@, i as int);
                }
                return i;
            }
        }
        i += 1;
    }
    proof {
        lemma_row_of(rows, key@, i as int);
    }
    i
}

/// Counts up a finished group.
fn counted(group: GroupNode) -> (r: GroupNode)
    requires
        collects(
            RenderNode::Group(group),
            (Row::Group { key: group.key@, children: group.children@ }),
        ),
    ensures
        shows(RenderNode::Group(r), (Row::Group { key: group.key@, children: group.children@ })),
{
    let ghost children = group.children@;
    let ghost ended = |t: TaskProgress| done(t.status@);
    let ghost going = |t: TaskProgress| active(t.status@);
    let mut g: GroupNode = group;
    let mut done_count: usize = 0;
    let mut active_count: usize = 0;
    let mut all_done: bool = true;
    let mut any_failed: bool = false;
    let mut i: usize = 0;
    assert(children.take(0).filter(ended) =~= Seq::empty());
    assert(children.take(0).filter(going) =~= Seq::empty());
    while i < g.children.len()
        invariant
            g == group,
            g.children@ == children,
            i <= children.len(),
            done_count <= i,
            active_count <= i,
            ended == (|t: TaskProgress| done(t.status@)),
            going == (|t: TaskProgress| active(t.status@)),
            done_count == children.take(i as int).filter(ended).len(),
            active_count == children.take(i as int).filter(going).len(),
            all_done == (forall|k: int|
                0 <= k < i ==> done((#[trigger] children[k]).status@)),
            any_failed == (exists|k: int|
                0 <= k < i && (#[trigger] children[k]).status@ == "FAILED"@),
        decreases children.len() - i,
    {
        proof {
            let before = children.take(i as int);
            before.lemma_filter_push(children[i as int], ended);
            before.lemma_filter_push(children[i as int], going);
            assert(children.take(i + 1) =~= before.push(children[i as int]));
        }
        let status: &str = g.children[i].status.as_str();
        if is_done(status) {
            done_count += 1;
        } else {
            all_done = false;
        }
        if is_active(status) {
            active_count += 1;
        }
        if text::same(status, "FAILED") {
            any_failed = true;
        }
        i += 1;
    }
    assert(children.take(i as int) =~= children);
    g.done_count = done_count;
    g.active_count = active_count;
    g.all_done = all_done;
    g.any_failed = any_failed;
    if g.count <= 0 {
        g.count = #[verifier::truncate] (g.children.len() as i32);
    }
    g
}

/// Folds tasks that share a group into one row, which stands where the first of them stood;
/// tasks of no group keep rows of their own.
pub fn group_tasks(tasks: Vec<TaskProgress>) -> (r: Vec<RenderNode>)
    ensures
        r@.len() == folded(tasks@).len(),
        forall|i: int| 0 <= i < r@.len() ==> shows(#[trigger] r@[i], folded(tasks@)[i]),
{
    let ghost all = tasks@;
    let mut nodes: Vec<RenderNode> = Vec::new();
    for task in it: tasks
        invariant
            it.seq() == all,
            nodes@.len() == folded(all.take(it.index() as int)).len(),
            forall|i: int|
                0 <= i < nodes@.len() ==> collects(
                    #[trigger] nodes@[i],
                    folded(all.take(it.index() as int))[i],
                ),
    {
        let ghost rows = folded(all.take(it.index() as int));
        proof {
            let next = all.take(it.index() + 1);
            assert(next.drop_last() =~= all.take(it.index() as int));
            assert(next.last() == task);
        }
        match task.group.clone() {
            None => nodes.push(RenderNode::Task(task)),
            Some(key) => {
                let at: usize = find_group(&nodes, key.as_str(), Ghost(rows));
                if at < nodes.len() {
                    assert(collects(nodes@[at as int], rows[at as int]));
                    if let RenderNode::Group(node) = &mut nodes[at] {
                        node.children.push(task);
                    }
                } else {
                    let label: String = match task.group_label.clone() {
                        Some(l) => l,
                        None => "Tasks".to_string(),
                    };
                    let count: i32 = match task.total {
                        Some(t) => t,
                        None => 0,
                    };
                    let ttype: String = task.task_type.clone();
                    let art: Option<String> = task.art_url.clone();
                    let mut children: Vec<TaskProgress> = Vec::new();
                    children.push(task);
                    nodes.push(
                        RenderNode::Group(
                            GroupNode {
                                key,
                                label,
                                ttype,
                                art,
                                children,
                                done_count: 0,
                                active_count: 0,
                                all_done: false,
                                any_failed: false,
                                count,
                            },
                        ),
                    );
                }
            },
        }
    }
    assert(all.take(all.len() as int) =~= all);
    let ghost rows = folded(all);
    let ghost collected = nodes@;
    let mut r: Vec<RenderNode> = Vec::new();
    for node in it: nodes
        invariant
            it.seq() == collected,
            collected.len() == rows.len(),
            forall|i: int| 0 <= i < rows.len() ==> collects(#[trigger] collected[i], rows[i]),
            r@.len() == it.index(),
            forall|i: int| 0 <= i < r@.len() ==> shows(#[trigger] r@[i], rows[i]),
    {
        assert(collects(node, rows[it.index() as int]));
        match node {
            RenderNode::Task(t) => r.push(RenderNode::Task(t)),
            RenderNode::Group(g) => r.push(RenderNode::Group(counted(g))),
        }
    }
    r
}

// ---- laws ----

/// How many tasks rows hold.
pub open spec fn tasks_in(rows: Seq<Row>) -> nat
    decreases rows.len(),
{
    if rows.len() == 0 {
        0
    } else {
        tasks_in(rows.drop_last()) + match rows.last() {
            Row::Task { .. } => 1,
            Row::Group { children, .. } => children.len(),
        }
    }
}

/// The task that a row of its own shows.
pub open spec fn lone_task(row: Row) -> Option<TaskProgress> {
    match row {
        Row::Task { task } => Some(task),
        Row::Group { .. } => None,
    }
}

/// The tasks that have rows of their own, in order.
pub open spec fn lone_tasks(rows: Seq<Row>) -> Seq<TaskProgress>
    decreases rows.len(),
{
    if rows.len() == 0 {
        Seq::empty()
    } else {
        match lone_task(rows.last()) {
            Some(task) => lone_tasks(rows.drop_last()).push(task),
            None => lone_tasks(rows.drop_last()),
        }
    }
}

/// The row of a group, if there is one, is found.
pub(crate) proof fn lemma_row_found(rows: Seq<Row>, key: Seq<char>)
    ensures
        0 <= row_of(rows, key) <= rows.len(),
        row_of(rows, key) < rows.len() ==> is_row_of(rows[row_of(rows, key)], key),
        row_of(rows, key) == rows.len() ==> forall|i: int|
            0 <= i < rows.len() ==> !is_row_of(#[trigger] rows[i], key),
    decreases rows.len(),
{
    if rows.len() > 0 {
        lemma_row_found(rows.drop_last(), key);
        let rest = rows.drop_last();
        if row_of(rows, key) == rows.len() {
            assert forall|i: int| 0 <= i < rows.len() implies !is_row_of(
                #[trigger] rows[i],
                key,
            ) by {
                if i < rest.len() {
                    assert(rest[i] == rows[i]);
                }
            }
        }
    }
}

proof fn lemma_longer_row(rows: Seq<Row>, at: int, task: TaskProgress)
    requires
        0 <= at < rows.len(),
        rows[at] is Group,
    ensures
        tasks_in(
            rows.update(
                at,
                Row::Group { key: rows[at]->key, children: rows[at]->children.push(task) },
            ),
        ) == tasks_in(rows) + 1,
        lone_tasks(
            rows.update(
                at,
                Row::Group { key: rows[at]->key, children: rows[at]->children.push(task) },
            ),
        ) == lone_tasks(rows),
    decreases rows.len(),
{
    let longer = Row::Group { key: rows[at]->key, children: rows[at]->children.push(task) };
    let next = rows.update(at, longer);
    if at < rows.len() - 1 {
        lemma_longer_row(rows.drop_last(), at, task);
        assert(next.drop_last() =~= rows.drop_last().update(at, longer));
    } else {
        assert(next.drop_last() =~= rows.drop_last());
    }
}

/// Grouping loses no task and shows none twice: the rows hold as many tasks as went in; a
/// group's row holds exactly the tasks of that group, in their order, and no other row is of
/// that group; tasks of no group keep rows of their own, in their order.
pub proof fn law_grouping_keeps_every_task(tasks: Seq<TaskProgress>)
    ensures
        tasks_in(folded(tasks)) == tasks.len(),
        forall|i: int|
            0 <= i < folded(tasks).len() && (#[trigger] folded(tasks)[i]) is Group
                ==> folded(tasks)[i]->children == tasks.filter(
                |t: TaskProgress| in_group(t, folded(tasks)[i]->key),
            ),
        forall|i: int, j: int|
            0 <= i < j < folded(tasks).len() && (#[trigger] folded(tasks)[i]) is Group && (
            #[trigger] folded(tasks)[j]) is Group ==> folded(tasks)[i]->key != folded(
                tasks,
            )[j]->key,
        lone_tasks(folded(tasks)) == tasks.filter(|t: TaskProgress| t.group is None),
    decreases tasks.len(),
{
    let alone = |t: TaskProgress| t.group is None;
    if tasks.len() == 0 {
        assert(tasks.filter(alone) =~= Seq::empty());
    } else {
        let rest = tasks.drop_last();
        let task = tasks.last();
        let rows = folded(rest);
        let next = folded(tasks);
        law_grouping_keeps_every_task(rest);
        assert(rest.push(task) =~= tasks);
        rest.lemma_filter_push(task, alone);
        match task.group {
            None => {
                assert(next.drop_last() =~= rows);
            },
            Some(key) => {
                let at = row_of(rows, key@);
                lemma_row_found(rows, key@);
                if at < rows.len() {
                    lemma_longer_row(rows, at, task);
                } else {
                    assert(next.drop_last() =~= rows);
                    lemma_none_in_group(rest, rows, key@);
                }
            },
        }
        assert forall|i: int|
            0 <= i < next.len() && (#[trigger] next[i]) is Group implies next[i]->children
            == tasks.filter(|t: TaskProgress| in_group(t, next[i]->key)) by {
            let member = |t: TaskProgress| in_group(t, next[i]->key);
            rest.lemma_filter_push(task, member);
            if i < rows.len() {
                assert(rows[i] is Group);
                assert(rows[i]->key == next[i]->key);
                assert(rows[i]->children == rest.filter(member));
            } else {
                assert(rest.filter(member) =~= Seq::empty());
                assert(Seq::<TaskProgress>::empty().push(task) =~= seq![task]);
            }
        }
    }
}

proof fn lemma_none_in_group(tasks: Seq<TaskProgress>, rows: Seq<Row>, key: Seq<char>)
    requires
        rows == folded(tasks),
        forall|i: int| 0 <= i < rows.len() ==> !is_row_of(#[trigger] rows[i], key),
    ensures
        tasks.filter(|t: TaskProgress| in_group(t, key)) == Seq::<TaskProgress>::empty(),
    decreases tasks.len(),
{
    let member = |t: TaskProgress| in_group(t, key);
    if tasks.len() == 0 {
        assert(tasks.filter(member) =~= Seq::empty());
    } else {
        let rest = tasks.drop_last();
        let task = tasks.last();
        let before = folded(rest);
        assert(rest.push(task) =~= tasks);
        rest.lemma_filter_push(task, member);
        if task.group is Some {
            lemma_row_found(before, task.group->0@);
            let at = row_of(before, task.group->0@);
            assert(is_row_of(rows[at], task.group->0@));
        }
        assert forall|i: int| 0 <= i < before.len() implies !is_row_of(
            #[trigger] before[i],
            key,
        ) by {
            assert(!is_row_of(rows[i], key));
        }
        lemma_none_in_group(rest, before, key);
    }
}

/// The words for states differ.
proof fn lemma_states_differ()
    ensures
        !active("SUCCESS"@),
        !active("FAILED"@),
        !done("PENDING"@),
        !progressing("PENDING"@),
        !done("DOWNLOADING"@),
        !done("PROGRESS"@),
        !done("STARTED"@),
        !done("PROCESSING"@),
        !done("FINALIZING"@),
{
    reveal_strlit("PENDING");
    reveal_strlit("PROGRESS");
    reveal_strlit("STARTED");
    reveal_strlit("DOWNLOADING");
    reveal_strlit("PROCESSING");
    reveal_strlit("FINALIZING");
    reveal_strlit("SUCCESS");
    reveal_strlit("FAILED");
    assert("PENDING"@[0] == 'P' && "PENDING"@[1] == 'E');
    assert("PROGRESS"@[0] == 'P' && "PROGRESS"@[1] == 'R');
    assert("STARTED"@[0] == 'S' && "STARTED"@[1] == 'T');
    assert("DOWNLOADING"@[0] == 'D' && "DOWNLOADING"@[1] == 'O');
    assert("PROCESSING"@[0] == 'P' && "PROCESSING"@[1] == 'R');
    assert("FINALIZING"@[0] == 'F' && "FINALIZING"@[1] == 'I');
    assert("SUCCESS"@[0] == 'S' && "SUCCESS"@[1] == 'U');
    assert("FAILED"@[0] == 'F' && "FAILED"@[1] == 'A');
}

/// The states that the server reports are understood: what is pending or running is active,
/// what runs is progressing, and what has completed or failed is done.
pub proof fn law_reported_states_are_understood(status: TaskStatus)
    ensures
        active(status.name_text()) == (status is Pending || status is Running),
        progressing(status.name_text()) == (status is Running),
        done(status.name_text()) == (status is Completed || status is Failed),
{
    lemma_states_differ();
}

/// Of the severities that the server knows, warnings and errors count toward the badge and
/// the others do not.
pub proof fn law_badge_counts_what_needs_attention(severity: MsgSeverity)
    ensures
        counts_badge(severity.name_text()) == (severity is Warning || severity is Error),
{
    reveal_strlit("error");
    reveal_strlit("warning");
    reveal_strlit("info");
    reveal_strlit("success");
    assert("error"@[0] == 'e');
    assert("warning"@[0] == 'w');
    assert("info"@[0] == 'i');
    assert("success"@[0] == 's');
}

/// No state is both active and final.
pub proof fn law_active_is_not_done(status: Seq<char>)
    ensures
        !(active(status) && done(status)),
{
    lemma_states_differ();
}

/// Sorted tasks stand by rank, and within a rank the one that ended later stands first, where
/// no time of an end is "not a number".
pub proof fn law_sorted_tasks_stand_by_rank(tasks: Seq<TaskProgress>)
    requires
        forall|i: int| 0 <= i < tasks.len() ==> !ended(#[trigger] tasks[i]).nan(),
    ensures
        forall|i: int, j: int|
            0 <= i < j < tasks.len() ==> {
                let first = #[trigger] order::ordered(tasks)[i];
                let second = #[trigger] order::ordered(tasks)[j];
                &&& rank_of(first.status@) <= rank_of(second.status@)
                &&& rank_of(first.status@) == rank_of(second.status@) ==> ended(second).place()
                    <= ended(first).place()
            },
{
    assert forall|i: int| 0 <= i < tasks.len() implies (#[trigger] tasks[i]).placed() by {
        assert(!ended(tasks[i]).nan());
    }
    order::law_ordering_orders(tasks);
    order::law_ordering_keeps_items(tasks);
    let out = order::ordered(tasks);
    assert forall|i: int, j: int| 0 <= i < j < tasks.len() implies {
        let first = #[trigger] order::ordered(tasks)[i];
        let second = #[trigger] order::ordered(tasks)[j];
        &&& rank_of(first.status@) <= rank_of(second.status@)
        &&& rank_of(first.status@) == rank_of(second.status@) ==> ended(second).place() <= ended(
            first,
        ).place()
    } by {
        assert(!out[j].ahead(out[i]));
        assert(out[i].placed() && out[j].placed());
    }
}

} // verus!
