//! The activity centre: a drawer that shows background tasks and durable messages under the
//! tabs "All", "Active" and "Done". Tasks that have ended stay until the user clears them.

use crate::double::{Double, HUNDRED, TWO};
use crate::lists;
use crate::notify;
use crate::notify::{NotificationMessage, Post};
use crate::order;
use crate::progress;
use crate::progress::{GroupNode, RenderNode, TaskProgress};
use crate::text;
use vstd::prelude::*;

verus! {

// ---- labels ----

/// A text on screen: one that is looked up by a key in the user's language, or one that is
/// shown as it is.
#[derive(Clone, Debug, PartialEq)]
pub enum Label {
    Key(&'static str),
    Text(String),
}

/// A label's characters.
pub ghost enum LabelView {
    Key { name: Seq<char> },
    Text { shown: Seq<char> },
}

impl View for Label {
    type V = LabelView;

    open spec fn view(&self) -> LabelView {
        match self {
            Label::Key(k) => LabelView::Key { name: k@ },
            Label::Text(t) => LabelView::Text { shown: t@ },
        }
    }
}

/// The key of what a type of task is called, if it has a name.
pub open spec fn type_key(task_type: Seq<char>) -> Option<Seq<char>> {
    if task_type == "download_episode"@ || task_type == "podcast_download"@ {
        Some("notification_center.task_download"@)
    } else if task_type == "bulk_download"@ || task_type == "download_all_episodes"@ {
        Some("notification_center.task_bulk_download"@)
    } else if task_type == "feed_refresh"@ {
        Some("notification_center.task_feed_refresh"@)
    } else if task_type == "youtube_download"@ || task_type == "download_video"@ {
        Some("notification_center.task_youtube_download"@)
    } else if task_type == "download_all_videos"@ {
        Some("notification_center.task_youtube_bulk_download"@)
    } else if task_type == "playlist_generation"@ {
        Some("notification_center.task_playlist"@)
    } else if task_type == "update_playlists"@ {
        Some("notification_center.task_playlist_update"@)
    } else if task_type == "opml_import"@ {
        Some("notification_center.task_opml_import"@)
    } else if task_type == "add_podcast_episodes"@ {
        Some("notification_center.task_add_podcast"@)
    } else if task_type == "manual_backup_to_directory"@ {
        Some("notification_center.task_backup"@)
    } else if task_type == "restore_from_backup_file"@ {
        Some("notification_center.task_restore"@)
    } else if task_type == "refresh_gpodder_subscriptions"@ || task_type
        == "gpodder_subscription_refresh"@ {
        Some("notification_center.task_gpodder_sync"@)
    } else if task_type == "refresh_nextcloud_subscriptions"@ {
        Some("notification_center.task_nextcloud_sync"@)
    } else if task_type == "nextcloud_auth"@ {
        Some("notification_center.task_nextcloud_auth"@)
    } else if task_type == "cleanup_tasks"@ {
        Some("notification_center.task_cleanup"@)
    } else if task_type == "refresh_hosts"@ {
        Some("notification_center.task_refresh_hosts"@)
    } else {
        None
    }
}

/// What a type of task is called: by its key, or else by its own name.
pub open spec fn type_label_view(task_type: Seq<char>) -> LabelView {
    match type_key(task_type) {
        Some(name) => LabelView::Key { name },
        None => LabelView::Text { shown: task_type },
    }
}

/// What a type of task is called.
pub fn type_label(task_type: &str) -> (r: Label)
    ensures
        r@ == type_label_view(task_type@),
{
    if text::same(task_type, "download_episode") || text::same(task_type, "podcast_download") {
        Label::Key("notification_center.task_download")
    } else if text::same(task_type, "bulk_download") || text::same(
        task_type,
        "download_all_episodes",
    ) {
        Label::Key("notification_center.task_bulk_download")
    } else if text::same(task_type, "feed_refresh") {
        Label::Key("notification_center.task_feed_refresh")
    } else if text::same(task_type, "youtube_download") || text::same(
        task_type,
        "download_video",
    ) {
        Label::Key("notification_center.task_youtube_download")
    } else if text::same(task_type, "download_all_videos") {
        Label::Key("notification_center.task_youtube_bulk_download")
    } else if text::same(task_type, "playlist_generation") {
        Label::Key("notification_center.task_playlist")
    } else if text::same(task_type, "update_playlists") {
        Label::Key("notification_center.task_playlist_update")
    } else if text::same(task_type, "opml_import") {
        Label::Key("notification_center.task_opml_import")
    } else if text::same(task_type, "add_podcast_episodes") {
        Label::Key("notification_center.task_add_podcast")
    } else if text::same(task_type, "manual_backup_to_directory") {
        Label::Key("notification_center.task_backup")
    } else if text::same(task_type, "restore_from_backup_file") {
        Label::Key("notification_center.task_restore")
    } else if text::same(task_type, "refresh_gpodder_subscriptions") || text::same(
        task_type,
        "gpodder_subscription_refresh",
    ) {
        Label::Key("notification_center.task_gpodder_sync")
    } else if text::same(task_type, "refresh_nextcloud_subscriptions") {
        Label::Key("notification_center.task_nextcloud_sync")
    } else if text::same(task_type, "nextcloud_auth") {
        Label::Key("notification_center.task_nextcloud_auth")
    } else if text::same(task_type, "cleanup_tasks") {
        Label::Key("notification_center.task_cleanup")
    } else if text::same(task_type, "refresh_hosts") {
        Label::Key("notification_center.task_refresh_hosts")
    } else {
        Label::Text(task_type.to_string())
    }
}

/// The key of what a status is called.
pub open spec fn status_key(status: Seq<char>) -> Seq<char> {
    if status == "PENDING"@ {
        "notification_center.status_queued"@
    } else if status == "SUCCESS"@ {
        "notification_center.status_completed"@
    } else if status == "FAILED"@ {
        "notification_center.status_failed"@
    } else {
        "notification_center.status_in_progress"@
    }
}

/// What a status is called.
pub fn status_label(status: &str) -> (r: Label)
    ensures
        r@ == (LabelView::Key { name: status_key(status@) }),
{
    if text::same(status, "PENDING") {
        Label::Key("notification_center.status_queued")
    } else if text::same(status, "SUCCESS") {
        Label::Key("notification_center.status_completed")
    } else if text::same(status, "FAILED") {
        Label::Key("notification_center.status_failed")
    } else {
        Label::Key("notification_center.status_in_progress")
    }
}

/// The title that a task's details name: that of its episode, or of its item.
pub open spec fn named_title(task: TaskProgress) -> Option<Seq<char>> {
    match progress::detail_text(task, "episode_title"@) {
        Some(t) => Some(t),
        None => progress::detail_text(task, "item_title"@),
    }
}

fn title_in_details(task: &TaskProgress) -> (r: Option<String>)
    ensures
        text::held(r) == named_title(*task),
{
    match task.detail_at("episode_title") {
        Some(t) => Some(t),
        None => task.detail_at("item_title"),
    }
}

// ---- progress ----

/// A number as a percentage: rounded, with its sign.
pub open spec fn percent_text(progress: Double) -> Seq<char> {
    text::decimal_text(progress.round()) + "%"@
}

/// A number as a percentage.
pub fn percent(progress: Double) -> (r: String)
    ensures
        r@ == percent_text(progress),
{
    text::joined(text::decimal(progress.rounded()).as_str(), "%")
}

/// A progress bar.
#[derive(Clone, Debug, PartialEq)]
pub struct ProgressBar {
    /// How much of the bar is filled, per cent.
    pub width: Double,
    /// The percentage beside the bar.
    pub percent: Option<String>,
}

/// Whether a bar shows how far something has come; it is never filled less than two per cent,
/// nor more than all of it.
pub open spec fn bar_shows(bar: ProgressBar, progress: Double, with_percent: bool) -> bool {
    &&& bar.width == progress.held_between(Double { bits: TWO }, Double { bits: HUNDRED })
    &&& text::held(bar.percent) == if with_percent {
        Some(percent_text(progress))
    } else {
        None
    }
}

/// A bar that shows how far something has come.
pub fn render_progress(progress: Double, show_pct: bool) -> (r: ProgressBar)
    ensures
        bar_shows(r, progress, show_pct),
{
    ProgressBar {
        width: progress.clamp(Double { bits: TWO }, Double { bits: HUNDRED }),
        percent: if show_pct {
            Some(percent(progress))
        } else {
            None
        },
    }
}

// ---- cards ----

/// The card of a task.
#[derive(Debug, PartialEq)]
pub struct TaskCard {
    pub kind: &'static str,
    pub art_url: Option<String>,
    pub icon: &'static str,
    pub title: Label,
    pub type_label: Label,
    pub sub: Option<String>,
    pub bar: Option<ProgressBar>,
    pub status: Label,
    /// The id to dismiss the task by, where it can be dismissed.
    pub dismiss: Option<String>,
    /// The percentage at the end of the card.
    pub percent: Option<String>,
}

/// Whether a card shows a task.
pub open spec fn card_shows(card: TaskCard, task: TaskProgress) -> bool {
    let status = task.status@;
    &&& card.kind@ == progress::kind_text(status)
    &&& card.art_url == task.art_url
    &&& card.icon@ == progress::task_icon_text(task.task_type@)
    &&& card.title@ == match named_title(task) {
        Some(shown) => LabelView::Text { shown },
        None => type_label_view(task.task_type@),
    }
    &&& card.type_label@ == type_label_view(task.task_type@)
    &&& text::held(card.sub) == progress::sub_line_text(task)
    &&& card.bar is Some == progress::progressing(status)
    &&& card.bar is Some ==> bar_shows(card.bar->0, task.progress, true)
    &&& card.status@ == (LabelView::Key { name: status_key(status) })
    &&& text::held(card.dismiss) == if progress::done(status) {
        Some(task.task_id@)
    } else {
        None
    }
    &&& text::held(card.percent) == if progress::progressing(status) {
        Some(percent_text(task.progress))
    } else {
        None
    }
}

/// The card of a task.
pub fn task_card(task: &TaskProgress) -> (r: TaskCard)
    ensures
        card_shows(r, *task),
{
    let status: &str = task.status.as_str();
    let running: bool = progress::is_progress(status);
    TaskCard {
        kind: progress::kind_class(status),
        art_url: task.art_url.clone(),
        icon: progress::task_icon(task.task_type.as_str()),
        title: match title_in_details(task) {
            Some(t) => Label::Text(t),
            None => type_label(task.task_type.as_str()),
        },
        type_label: type_label(task.task_type.as_str()),
        sub: task.sub_line(),
        bar: if running {
            Some(render_progress(task.progress, true))
        } else {
            None
        },
        status: status_label(status),
        dismiss: if progress::is_done(status) {
            Some(task.task_id.clone())
        } else {
            None
        },
        percent: if running {
            Some(percent(task.progress))
        } else {
            None
        },
    }
}

/// The line of a task within an open group.
#[derive(Debug, PartialEq)]
pub struct ChildRow {
    pub kind: &'static str,
    pub title: String,
    pub state: Label,
}

/// Whether a line shows a task of a group.
pub open spec fn child_shows(row: ChildRow, task: TaskProgress) -> bool {
    &&& row.kind@ == progress::kind_text(task.status@)
    &&& row.title@ == match named_title(task) {
        Some(t) => t,
        None => task.task_type@,
    }
    &&& row.state@ == if progress::progressing(task.status@) {
        LabelView::Text { shown: percent_text(task.progress) }
    } else {
        LabelView::Key { name: status_key(task.status@) }
    }
}

/// The line of a task within an open group.
pub fn child_row(task: &TaskProgress) -> (r: ChildRow)
    ensures
        child_shows(r, *task),
{
    ChildRow {
        kind: progress::kind_class(task.status.as_str()),
        title: match title_in_details(task) {
            Some(t) => t,
            None => task.task_type.clone(),
        },
        state: if progress::is_progress(task.status.as_str()) {
            Label::Text(percent(task.progress))
        } else {
            status_label(task.status.as_str())
        },
    }
}

/// The card of a group.
#[derive(Debug, PartialEq)]
pub struct GroupCard {
    pub kind: &'static str,
    pub is_open: bool,
    pub key: String,
    pub art_url: Option<String>,
    pub icon: &'static str,
    pub label: String,
    pub done_text: String,
    pub running_text: Option<String>,
    pub bar: Option<ProgressBar>,
    /// The lines of the group's tasks, while it is open.
    pub children: Vec<ChildRow>,
}

/// Whether a card shows a group, whose tasks have come this far on average.
pub open spec fn group_card_shows(
    card: GroupCard,
    group: GroupNode,
    average: Double,
    is_open: bool,
) -> bool {
    &&& card.kind@ == if group.all_done {
        if group.any_failed {
            "failed"@
        } else {
            "success"@
        }
    } else {
        "active"@
    }
    &&& card.is_open == is_open
    &&& card.key == group.key
    &&& card.art_url == group.art
    &&& card.icon@ == progress::task_icon_text(group.ttype@)
    &&& card.label == group.label
    &&& card.done_text@ == text::decimal_text(group.done_count as int) + "/"@
        + text::decimal_text(group.count as int) + " done"@
    &&& text::held(card.running_text) == if group.all_done {
        None
    } else {
        Some(text::decimal_text(group.active_count as int) + " running"@)
    }
    &&& card.bar is Some == !group.all_done
    &&& card.bar is Some ==> bar_shows(card.bar->0, average, true)
    &&& card.children@.len() == if is_open {
        group.children@.len()
    } else {
        0
    }
    &&& forall|i: int|
        0 <= i < card.children@.len() ==> child_shows(
            #[trigger] card.children@[i],
            group.children@[i],
        )
}

fn child_rows(tasks: &Vec<TaskProgress>) -> (r: Vec<ChildRow>)
    ensures
        r@.len() == tasks@.len(),
        forall|i: int| 0 <= i < r@.len() ==> child_shows(#[trigger] r@[i], tasks@[i]),
{
    let mut r: Vec<ChildRow> = Vec::new();
    let mut i: usize = 0;
    while i < tasks.len()
        invariant
            i <= tasks@.len(),
            r@.len() == i,
            forall|k: int| 0 <= k < i ==> child_shows(#[trigger] r@[k], tasks@[k]),
        decreases tasks@.len() - i,
    {
        r.push(child_row(&tasks[i]));
        i += 1;
    }
    r
}

/// The card of a group, whose tasks have come this far on average.
pub fn group_card(group: &GroupNode, average: Double, is_open: bool) -> (r: GroupCard)
    ensures
        group_card_shows(r, *group, average, is_open),
{
    let mut done_text: String = text::decimal_u64(group.done_count as u64);
    done_text.append("/");
    done_text.append(text::decimal(group.count as i64).as_str());
    done_text.append(" done");
    GroupCard {
        kind: if group.all_done {
            if group.any_failed {
                "failed"
            } else {
                "success"
            }
        } else {
            "active"
        },
        is_open,
        key: group.key.clone(),
        art_url: group.art.clone(),
        icon: progress::task_icon(group.ttype.as_str()),
        label: group.label.clone(),
        done_text,
        running_text: if group.all_done {
            None
        } else {
            Some(
                text::joined(text::decimal_u64(group.active_count as u64).as_str(), " running"),
            )
        },
        bar: if group.all_done {
            None
        } else {
            Some(render_progress(average, true))
        },
        children: if is_open {
            child_rows(&group.children)
        } else {
            Vec::new()
        },
    }
}

/// The card of a message.
#[derive(Debug, PartialEq)]
pub struct MessageCard {
    pub id: String,
    pub kind: &'static str,
    pub icon: &'static str,
    pub art_url: Option<String>,
    pub title: String,
    pub body: Option<String>,
    /// How long ago the message came, or nothing if that is not known.
    pub age: String,
}

/// The card of a message that came at `created_ms`, where that is known.
pub fn message_card(message: &NotificationMessage, created_ms: Option<i64>, now_ms: i64) -> (r:
    MessageCard)
    ensures
        r.id == message.id,
        (r.kind@, r.icon@) == progress::msg_kind_text(message.severity@),
        r.art_url == message.art_url,
        r.title == message.title,
        r.body == message.body,
        r.age@ == match created_ms {
            Some(t) => progress::rel_time_text(now_ms as int, t as int),
            None => Seq::empty(),
        },
{
    let (kind, icon): (&'static str, &'static str) = progress::msg_kind(message.severity.as_str());
    MessageCard {
        id: message.id.clone(),
        kind,
        icon,
        art_url: message.art_url.clone(),
        title: message.title.clone(),
        body: message.body.clone(),
        age: match created_ms {
            Some(t) => progress::rel_time(now_ms, t),
            None => String::new(),
        },
    }
}

// ---- the drawer ----

/// The state of the drawer.
#[derive(Debug, PartialEq)]
pub struct Drawer {
    pub open: bool,
    pub tab: String,
    /// The keys of the groups that are open.
    pub expanded: Vec<String>,
}

/// A tab of the drawer.
#[derive(Clone, Copy, Debug, PartialEq, Eq, Structural)]
pub enum Tab {
    All,
    Active,
    Done,
}

impl Tab {
    /// The name of a tab.
    pub open spec fn id_text(self) -> Seq<char> {
        match self {
            Tab::All => "all"@,
            Tab::Active => "active"@,
            Tab::Done => "done"@,
        }
    }

    /// The name of a tab.
    pub fn id(&self) -> (r: &'static str)
        ensures
            r@ == self.id_text(),
    {
        match self {
            Tab::All => "all",
            Tab::Active => "active",
            Tab::Done => "done",
        }
    }
}

/// Where the drawer leads to.
#[derive(Clone, Copy, Debug, PartialEq, Eq, Structural)]
pub enum Destination {
    Settings,
}

impl Drawer {
    /// Whether a group is open.
    pub open spec fn is_expanded(self, key: Seq<char>) -> bool {
        exists|i: int| 0 <= i < self.expanded@.len() && (#[trigger] self.expanded@[i])@ == key
    }

    /// A closed drawer on the tab "all" with no group open.
    pub fn new() -> (r: Self)
        ensures
            !r.open,
            r.tab@ == "all"@,
            forall|key: Seq<char>| !(#[trigger] r.is_expanded(key)),
    {
        Drawer { open: false, tab: "all".to_string(), expanded: Vec::new() }
    }

    /// Opens the drawer, or closes it.
    pub fn toggle_drawer(&mut self)
        ensures
            *final(self) == (Drawer { open: !old(self).open, ..*old(self) }),
    {
        self.open = !self.open;
    }

    /// Closes the drawer.
    pub fn close_drawer(&mut self)
        ensures
            *final(self) == (Drawer { open: false, ..*old(self) }),
    {
        self.open = false;
    }

    /// Turns to a tab.
    pub fn set_tab(&mut self, tab: Tab)
        ensures
            final(self).tab@ == tab.id_text(),
            final(self).open == old(self).open,
            final(self).expanded == old(self).expanded,
    {
        self.tab = tab.id().to_string();
    }

    /// Closes the drawer to go to the settings, where there is a way to go anywhere.
    pub fn go_settings(&mut self, navigable: bool) -> (r: Option<Destination>)
        ensures
            *final(self) == (Drawer { open: false, ..*old(self) }),
            r == if navigable {
                Some(Destination::Settings)
            } else {
                None
            },
    {
        self.open = false;
        if navigable {
            Some(Destination::Settings)
        } else {
            None
        }
    }

    /// Whether a group is open.
    pub fn shows_children_of(&self, key: &str) -> (r: bool)
        ensures
            r == self.is_expanded(key@),
    {
        let mut i: usize = 0;
        while i < self.expanded.len()
            invariant
                i <= self.expanded@.len(),
                forall|k: int| 0 <= k < i ==> (#[trigger] self.expanded@[k])@ != key@,
            decreases self.expanded@.len() - i,
        {
            if text::same(self.expanded[i].as_str(), key) {
                assert(self.expanded@[i as int]@ == key@);
                return true;
            }
            i += 1;
        }
        false
    }

    /// Opens a group, or closes it.
    pub fn toggle_group(&mut self, key: String)
        ensures
            final(self).open == old(self).open,
            final(self).tab == old(self).tab,
            final(self).is_expanded(key@) == !old(self).is_expanded(key@),
            forall|other: Seq<char>|
                other != key@ ==> (#[trigger] final(self).is_expanded(other)) == old(
                    self,
                ).is_expanded(other),
    {
        let ghost before = *self;
        if self.shows_children_of(key.as_str()) {
            let mut expanded: Vec<String> = Vec::new();
            std::mem::swap(&mut self.expanded, &mut expanded);
            let ghost all = expanded@;
            let mut kept: Vec<String> = Vec::new();
            for group in it: expanded
                invariant
                    it.seq() == all,
                    forall|other: Seq<char>| #[trigger]
                        listed(kept@, other) == (other != key@ && listed(
                            all.take(it.index() as int),
                            other,
                        )),
            {
                let ghost so_far = kept@;
                let ghost seen = all.take(it.index() as int);
                proof {
                    assert(all.take(it.index() + 1) =~= seen.push(group));
                    lemma_listed_push(seen, group);
                    lemma_listed_push(so_far, group);
                }
                if !text::same(group.as_str(), key.as_str()) {
                    kept.push(group);
                }
            }
            assert(all.take(all.len() as int) =~= all);
            self.expanded = kept;
            proof {
                assert(forall|other: Seq<char>| #[trigger]
                    self.is_expanded(other) == listed(self.expanded@, other));
                assert(forall|other: Seq<char>| #[trigger]
                    before.is_expanded(other) == listed(before.expanded@, other));
            }
        } else {
            proof {
                lemma_listed_push(self.expanded@, key);
            }
            self.expanded.push(key);
            proof {
                assert(forall|other: Seq<char>| #[trigger]
                    self.is_expanded(other) == listed(self.expanded@, other));
                assert(forall|other: Seq<char>| #[trigger]
                    before.is_expanded(other) == listed(before.expanded@, other));
            }
        }
    }
}

/// Whether a text is among texts.
spec fn listed(texts: Seq<String>, wanted: Seq<char>) -> bool {
    exists|i: int| 0 <= i < texts.len() && (#[trigger] texts[i])@ == wanted
}

proof fn lemma_listed_push(texts: Seq<String>, one: String)
    ensures
        forall|wanted: Seq<char>| #[trigger]
            listed(texts.push(one), wanted) == (listed(texts, wanted) || one@ == wanted),
{
    let longer = texts.push(one);
    assert forall|wanted: Seq<char>| #[trigger] listed(longer, wanted) == (listed(texts, wanted)
        || one@ == wanted) by {
        if listed(texts, wanted) {
            let i = choose|i: int| 0 <= i < texts.len() && (#[trigger] texts[i])@ == wanted;
            assert(longer[i]@ == wanted);
        }
        if one@ == wanted {
            assert(longer[texts.len() as int]@ == wanted);
        }
        if listed(longer, wanted) && one@ != wanted {
            let i = choose|i: int| 0 <= i < longer.len() && (#[trigger] longer[i])@ == wanted;
            assert(texts[i]@ == wanted);
        }
    }
}

// ---- who is signed in ----

/// What is needed to act on the server in the name of a user.
#[derive(Clone, Debug, PartialEq)]
pub struct Credentials {
    pub user_id: i32,
    pub api_key: String,
    pub server_name: String,
}

/// How the client is signed in to a server.
#[derive(Clone, Debug, PartialEq)]
pub struct AuthDetails {
    pub api_key: Option<String>,
    pub server_name: String,
}

/// The credentials of the user, once both the user and a key are known.
pub fn credentials(user_id: Option<i32>, auth: &Option<AuthDetails>) -> (r: Option<Credentials>)
    ensures
        r is Some == (user_id is Some && auth is Some && auth->0.api_key is Some),
        r is Some ==> r->0 == (Credentials {
            user_id: user_id->0,
            api_key: auth->0.api_key->0,
            server_name: auth->0.server_name,
        }),
{
    match (user_id, auth) {
        (Some(user_id), Some(auth)) => match &auth.api_key {
            Some(key) => Some(
                Credentials {
                    user_id,
                    api_key: key.clone(),
                    server_name: auth.server_name.clone(),
                },
            ),
            None => None,
        },
        _ => None,
    }
}

/// The request that dismisses a message on the server, if the user is signed in.
pub fn dismiss_on_server(creds: &Option<Credentials>, id: &str) -> (r: Option<Post>)
    ensures
        r is Some == creds is Some,
        r is Some ==> {
            let c = creds->0;
            &&& r->0.url@ == notify::notifications_url(c.server_name@) + id@
                + "/dismiss?user_id="@ + text::decimal_text(c.user_id as int)
            &&& r->0.api_key@ == c.api_key@
            &&& r->0.purpose@ == "dismiss notification"@
        },
{
    match creds {
        Some(c) => Some(
            notify::dismiss_notification(
                c.server_name.as_str(),
                c.api_key.as_str(),
                c.user_id,
                id,
            ),
        ),
        None => None,
    }
}

// ---- what the drawer shows ----

/// A part of the tasks.
#[derive(Clone, Copy, Debug, PartialEq, Eq, Structural)]
pub enum Part {
    Active,
    Done,
    Running,
}

/// Whether a task belongs to a part.
pub open spec fn belongs(task: TaskProgress, part: Part) -> bool {
    match part {
        Part::Active => progress::active(task.status@),
        Part::Done => progress::done(task.status@),
        Part::Running => progress::progressing(task.status@),
    }
}

/// The tasks of a part.
pub open spec fn tasks_of(tasks: Seq<TaskProgress>, part: Part) -> Seq<TaskProgress> {
    tasks.filter(|t: TaskProgress| belongs(t, part))
}

/// The messages that need attention.
pub open spec fn errors_of(messages: Seq<NotificationMessage>) -> Seq<NotificationMessage> {
    messages.filter(|m: NotificationMessage| progress::counts_badge(m.severity@))
}

fn is_of(task: &TaskProgress, part: Part) -> (r: bool)
    ensures
        r == belongs(*task, part),
{
    match part {
        Part::Active => progress::is_active(task.status.as_str()),
        Part::Done => progress::is_done(task.status.as_str()),
        Part::Running => progress::is_progress(task.status.as_str()),
    }
}

/// Counts the tasks of a part.
pub fn count_tasks(tasks: &Vec<TaskProgress>, part: Part) -> (r: usize)
    ensures
        r == tasks_of(tasks@, part).len(),
        r <= tasks@.len(),
{
    let test = |t: &TaskProgress| -> (b: bool)
        ensures
            b == belongs(*t, part),
    { is_of(t, part) };
    lists::how_many(tasks, test, Ghost(|t: TaskProgress| belongs(t, part)))
}

fn select_tasks(tasks: Vec<TaskProgress>, part: Part) -> (r: Vec<TaskProgress>)
    ensures
        r@ == tasks_of(tasks@, part),
{
    let test = |t: &TaskProgress| -> (b: bool)
        ensures
            b == belongs(*t, part),
    { is_of(t, part) };
    lists::kept(tasks, test, Ghost(|t: TaskProgress| belongs(t, part)))
}

/// Counts the messages that need attention.
pub fn count_errors(messages: &Vec<NotificationMessage>) -> (r: usize)
    ensures
        r == errors_of(messages@).len(),
        r <= messages@.len(),
{
    let test = |m: &NotificationMessage| -> (b: bool)
        ensures
            b == progress::counts_badge(m.severity@),
    { progress::msg_counts_badge(m.severity.as_str()) };
    lists::how_many(messages, test, Ghost(|m: NotificationMessage| progress::counts_badge(m.severity@)))
}

fn select_errors(messages: Vec<NotificationMessage>) -> (r: Vec<NotificationMessage>)
    ensures
        r@ == errors_of(messages@),
{
    let test = |m: &NotificationMessage| -> (b: bool)
        ensures
            b == progress::counts_badge(m.severity@),
    { progress::msg_counts_badge(m.severity.as_str()) };
    lists::kept(messages, test, Ghost(|m: NotificationMessage| progress::counts_badge(m.severity@)))
}

/// A section of the drawer.
#[derive(Debug, PartialEq)]
pub struct Section {
    pub label: &'static str,
    pub nodes: Vec<RenderNode>,
    pub messages: Vec<NotificationMessage>,
    /// How many rows the section has.
    pub count: usize,
    /// Whether the section offers to clear what it shows.
    pub clearable: bool,
}

/// What a section is made from.
pub ghost struct SectionPlan {
    pub label: Seq<char>,
    pub tasks: Seq<TaskProgress>,
    pub messages: Seq<NotificationMessage>,
}

/// A section of tasks, if there are any.
pub open spec fn task_section(label: Seq<char>, tasks: Seq<TaskProgress>) -> Seq<SectionPlan> {
    if tasks.len() > 0 {
        seq![SectionPlan { label, tasks, messages: Seq::empty() }]
    } else {
        Seq::empty()
    }
}

/// A section of messages, if there are any.
pub open spec fn message_section(
    label: Seq<char>,
    messages: Seq<NotificationMessage>,
) -> Seq<SectionPlan> {
    if messages.len() > 0 {
        seq![SectionPlan { label, tasks: Seq::empty(), messages }]
    } else {
        Seq::empty()
    }
}

/// The sections of a tab.
pub open spec fn planned(
    tab: Seq<char>,
    tasks: Seq<TaskProgress>,
    messages: Seq<NotificationMessage>,
) -> Seq<SectionPlan> {
    if tab == "active"@ {
        task_section("In progress"@, tasks_of(tasks, Part::Active)) + message_section(
            "Needs attention"@,
            errors_of(messages),
        )
    } else if tab == "done"@ {
        task_section("Completed"@, tasks_of(tasks, Part::Done))
    } else {
        task_section("Tasks"@, tasks) + message_section("Messages"@, messages)
    }
}

/// Whether a section shows what it was made from: its tasks sorted and grouped, and its
/// messages as they came.
pub open spec fn section_shows(section: Section, plan: SectionPlan) -> bool {
    let rows = progress::folded(order::ordered(plan.tasks));
    &&& section.label@ == plan.label
    &&& section.nodes@.len() == rows.len()
    &&& forall|i: int|
        0 <= i < rows.len() ==> progress::shows(#[trigger] section.nodes@[i], rows[i])
    &&& section.messages@ == plan.messages
    &&& section.count == section.nodes@.len() + section.messages@.len()
    &&& section.clearable == (plan.label == "Completed"@)
}

/// Whether sections show what they were made from.
pub open spec fn sections_show(sections: Seq<Section>, plans: Seq<SectionPlan>) -> bool {
    &&& sections.len() == plans.len()
    &&& forall|i: int|
        0 <= i < plans.len() ==> section_shows(#[trigger] sections[i], plans[i])
}

fn section_of_tasks(label: &'static str, tasks: Vec<TaskProgress>) -> (r: Section)
    ensures
        section_shows(
            r,
            SectionPlan { label: label@, tasks: tasks@, messages: Seq::empty() },
        ),
{
    let nodes: Vec<RenderNode> = progress::group_tasks(progress::sort_tasks(tasks));
    Section {
        label,
        count: nodes.len(),
        nodes,
        messages: Vec::new(),
        clearable: text::same(label, "Completed"),
    }
}

fn section_of_messages(label: &'static str, messages: Vec<NotificationMessage>) -> (r: Section)
    ensures
        section_shows(
            r,
            SectionPlan { label: label@, tasks: Seq::empty(), messages: messages@ },
        ),
{
    Section {
        label,
        count: messages.len(),
        nodes: Vec::new(),
        messages,
        clearable: text::same(label, "Completed"),
    }
}

/// Builds the sections of a tab.
pub fn sections(tab: &str, tasks: Vec<TaskProgress>, messages: Vec<NotificationMessage>) -> (r: Vec<
    Section,
>)
    ensures
        sections_show(r@, planned(tab@, tasks@, messages@)),
{
    let mut r: Vec<Section> = Vec::new();
    if text::same(tab, "active") {
        let active: Vec<TaskProgress> = select_tasks(tasks, Part::Active);
        if active.len() > 0 {
            r.push(section_of_tasks("In progress", active));
        }
        let errors: Vec<NotificationMessage> = select_errors(messages);
        if errors.len() > 0 {
            r.push(section_of_messages("Needs attention", errors));
        }
    } else if text::same(tab, "done") {
        let done: Vec<TaskProgress> = select_tasks(tasks, Part::Done);
        if done.len() > 0 {
            r.push(section_of_tasks("Completed", done));
        }
    } else {
        if tasks.len() > 0 {
            r.push(section_of_tasks("Tasks", tasks));
        }
        if messages.len() > 0 {
            r.push(section_of_messages("Messages", messages));
        }
    }
    r
}

/// A tab as it appears.
#[derive(Debug, PartialEq)]
pub struct TabView {
    pub id: &'static str,
    pub label: &'static str,
    pub is_active: bool,
    /// The number beside the label, unless it is zero.
    pub pip: Option<usize>,
}

/// Whether a tab appears as it should, given which one is turned to.
pub open spec fn tab_shows(
    view: TabView,
    id: Seq<char>,
    label: Seq<char>,
    n: nat,
    chosen: Seq<char>,
) -> bool {
    &&& view.id@ == id
    &&& view.label@ == label
    &&& view.is_active == (chosen == id)
    &&& view.pip is Some == (n > 0)
    &&& n > 0 ==> view.pip->0 == n
}

/// A tab as it appears.
pub fn render_tab(id: &'static str, label: &'static str, n: usize, chosen: &str) -> (r: TabView)
    ensures
        tab_shows(r, id@, label@, n as nat, chosen@),
{
    TabView {
        id,
        label,
        is_active: text::same(chosen, id),
        pip: if n > 0 {
            Some(n)
        } else {
            None
        },
    }
}

/// A number of things to look at, as it is shown beside an icon.
pub open spec fn badge_text_of(badge: nat) -> Option<Seq<char>> {
    if badge == 0 {
        None
    } else if badge > 9 {
        Some("9+"@)
    } else {
        Some(text::decimal_text(badge as int))
    }
}

/// A number of things to look at, as it is shown beside an icon.
pub fn badge_text(badge: usize) -> (r: Option<String>)
    ensures
        text::held(r) == badge_text_of(badge as nat),
{
    if badge == 0 {
        None
    } else if badge > 9 {
        Some("9+".to_string())
    } else {
        Some(text::decimal_u64(badge as u64))
    }
}

/// What is said of the tasks that are running.
#[derive(Debug, PartialEq)]
pub struct Summary {
    pub running: String,
    pub percent: String,
    pub bar: ProgressBar,
}

/// Whether a summary speaks of so many tasks, which have come this far on average.
pub open spec fn summary_shows(summary: Summary, running: nat, average: Double) -> bool {
    &&& summary.running@ == text::decimal_text(running as int) + " "@ + if running == 1 {
        "task"@
    } else {
        "tasks"@
    } + " running"@
    &&& summary.percent@ == percent_text(average)
    &&& bar_shows(summary.bar, average, false)
}

fn summary_of(running: usize, average: Double) -> (r: Summary)
    ensures
        summary_shows(r, running as nat, average),
{
    let mut line: String = text::decimal_u64(running as u64);
    line.append(" ");
    line.append(if running == 1 {
        "task"
    } else {
        "tasks"
    });
    line.append(" running");
    Summary { running: line, percent: percent(average), bar: render_progress(average, false) }
}

/// What an empty tab says.
pub open spec fn empty_text(tab: Seq<char>) -> (Seq<char>, Seq<char>) {
    if tab == "active"@ {
        ("Nothing running"@, "Downloads and feed refreshes will show up here."@)
    } else if tab == "done"@ {
        ("Nothing completed yet"@, "Finished tasks land here so you can review them."@)
    } else {
        ("You're all caught up"@, "No downloads, syncs, or messages right now."@)
    }
}

/// What an empty tab says: a heading and a line below it.
pub fn empty_copy(tab: &str) -> (r: (&'static str, &'static str))
    ensures
        (r.0@, r.1@) == empty_text(tab@),
{
    if text::same(tab, "active") {
        ("Nothing running", "Downloads and feed refreshes will show up here.")
    } else if text::same(tab, "done") {
        ("Nothing completed yet", "Finished tasks land here so you can review them.")
    } else {
        ("You're all caught up", "No downloads, syncs, or messages right now.")
    }
}

/// What stands at the foot of the drawer.
#[derive(Debug, PartialEq)]
pub enum Footer {
    /// The offer to clear the tasks that have ended.
    ClearCompleted,
    /// How many tasks are running.
    Running(String),
}

/// The drawer and its bell as they appear.
#[derive(Debug, PartialEq)]
pub struct ActivityView {
    pub open: bool,
    pub bell_icon: &'static str,
    pub badge: Option<String>,
    pub all: TabView,
    pub active: TabView,
    pub done: TabView,
    pub summary: Option<Summary>,
    pub show_labels: bool,
    pub sections: Vec<Section>,
    /// What is said where there is nothing to show.
    pub empty: Option<(&'static str, &'static str)>,
    pub footer: Option<Footer>,
}

/// How many things the badge counts: tasks that are active, and messages that need attention.
pub open spec fn badge_count(
    tasks: Seq<TaskProgress>,
    messages: Seq<NotificationMessage>,
) -> nat {
    tasks_of(tasks, Part::Active).len() + errors_of(messages).len()
}

/// What the drawer shows, given the tasks and messages and how far the running tasks have
/// come on average.
pub fn notification_center(
    drawer: &Drawer,
    tasks: Vec<TaskProgress>,
    messages: Vec<NotificationMessage>,
    progress_avg: Double,
) -> (r: ActivityView)
    requires
        tasks@.len() + messages@.len() <= usize::MAX,
    ensures
        r.open == drawer.open,
        r.bell_icon@ == if badge_count(tasks@, messages@) > 0 {
            "ph-bell-ringing"@
        } else {
            "ph-bell"@
        },
        text::held(r.badge) == badge_text_of(badge_count(tasks@, messages@)),
        tab_shows(r.all, "all"@, "All"@, tasks@.len() + messages@.len(), drawer.tab@),
        tab_shows(
            r.active,
            "active"@,
            "Active"@,
            badge_count(tasks@, messages@),
            drawer.tab@,
        ),
        tab_shows(r.done, "done"@, "Done"@, tasks_of(tasks@, Part::Done).len(), drawer.tab@),
        r.summary is Some == ((drawer.tab@ == "all"@ || drawer.tab@ == "active"@) && tasks_of(
            tasks@,
            Part::Running,
        ).len() > 0),
        r.summary is Some ==> summary_shows(
            r.summary->0,
            tasks_of(tasks@, Part::Running).len(),
            progress_avg,
        ),
        sections_show(r.sections@, planned(drawer.tab@, tasks@, messages@)),
        r.show_labels == (r.sections@.len() > 1),
        r.empty is Some == (r.sections@.len() == 0),
        r.empty matches Some(copy) ==> (copy.0@, copy.1@) == empty_text(drawer.tab@),
        r.footer is Some == (tasks@.len() > 0 || messages@.len() > 0),
        r.footer is Some ==> (r.footer->0 is ClearCompleted) == (tasks_of(
            tasks@,
            Part::Done,
        ).len() > 0),
        r.footer matches Some(Footer::Running(t)) ==> t@ == text::decimal_text(
            tasks_of(tasks@, Part::Running).len() as int,
        ) + " active"@,
{
    let tab: &str = drawer.tab.as_str();
    let active_count: usize = count_tasks(&tasks, Part::Active);
    let done_count: usize = count_tasks(&tasks, Part::Done);
    let running_count: usize = count_tasks(&tasks, Part::Running);
    let error_count: usize = count_errors(&messages);
    let badge: usize = active_count + error_count;
    let total: usize = tasks.len() + messages.len();
    let footer: Option<Footer> = if total == 0 {
        None
    } else if done_count > 0 {
        Some(Footer::ClearCompleted)
    } else {
        Some(
            Footer::Running(
                text::joined(text::decimal_u64(running_count as u64).as_str(), " active"),
            ),
        )
    };
    let sections: Vec<Section> = self::sections(tab, tasks, messages);
    ActivityView {
        open: drawer.open,
        bell_icon: if badge > 0 {
            "ph-bell-ringing"
        } else {
            "ph-bell"
        },
        badge: badge_text(badge),
        all: render_tab("all", "All", total, tab),
        active: render_tab("active", "Active", badge, tab),
        done: render_tab("done", "Done", done_count, tab),
        summary: if (text::same(tab, "all") || text::same(tab, "active")) && running_count > 0 {
            Some(summary_of(running_count, progress_avg))
        } else {
            None
        },
        show_labels: sections.len() > 1,
        empty: if sections.len() == 0 {
            Some(empty_copy(tab))
        } else {
            None
        },
        sections,
        footer,
    }
}

// ---- laws ----

proof fn lemma_rows_of_some(tasks: Seq<TaskProgress>)
    requires
        tasks.len() > 0,
    ensures
        progress::folded(order::ordered(tasks)).len() > 0,
{
    order::law_ordering_keeps_items(tasks);
    progress::law_grouping_keeps_every_task(order::ordered(tasks));
}

/// No section is empty, so the drawer says that there is nothing to show exactly where no
/// section has a row.
pub proof fn law_sections_are_never_empty(
    sections: Seq<Section>,
    tab: Seq<char>,
    tasks: Seq<TaskProgress>,
    messages: Seq<NotificationMessage>,
    i: int,
)
    requires
        sections_show(sections, planned(tab, tasks, messages)),
        0 <= i < sections.len(),
    ensures
        sections[i].count > 0,
{
    let plans = planned(tab, tasks, messages);
    assert(section_shows(sections[i], plans[i]));
    assert(plans[i].tasks.len() > 0 || plans[i].messages.len() > 0);
    if plans[i].tasks.len() > 0 {
        lemma_rows_of_some(plans[i].tasks);
    }
}

/// Clearing what has ended empties the tab "Done" and leaves the badge as it was.
pub proof fn law_clearing_empties_done(
    tasks: Seq<TaskProgress>,
    messages: Seq<NotificationMessage>,
)
    ensures
        planned("done"@, notify::unfinished(tasks), messages).len() == 0,
        badge_count(notify::unfinished(tasks), messages) == badge_count(tasks, messages),
{
    reveal_strlit("active");
    reveal_strlit("done");
    assert("active"@.len() != "done"@.len());
    lemma_unfinished(tasks);
}

proof fn lemma_unfinished(tasks: Seq<TaskProgress>)
    ensures
        tasks_of(notify::unfinished(tasks), Part::Done).len() == 0,
        tasks_of(notify::unfinished(tasks), Part::Active) == tasks_of(tasks, Part::Active),
    decreases tasks.len(),
{
    let keep = |t: TaskProgress| !progress::done(t.status@);
    let ended = |t: TaskProgress| belongs(t, Part::Done);
    let active = |t: TaskProgress| belongs(t, Part::Active);
    if tasks.len() == 0 {
        assert(tasks.filter(keep) =~= Seq::empty());
        assert(tasks.filter(active) =~= Seq::empty());
        assert(tasks.filter(keep).filter(ended) =~= Seq::empty());
        assert(tasks.filter(keep).filter(active) =~= Seq::empty());
    } else {
        let rest = tasks.drop_last();
        let last = tasks.last();
        lemma_unfinished(rest);
        assert(rest.push(last) =~= tasks);
        rest.lemma_filter_push(last, keep);
        rest.lemma_filter_push(last, active);
        rest.filter(keep).lemma_filter_push(last, ended);
        rest.filter(keep).lemma_filter_push(last, active);
        progress::law_active_is_not_done(last.status@);
    }
}

/// A task that has ended is shown under "Done", and one that is queued or running under
/// "Active", for as long as the client keeps it.
pub proof fn law_tasks_are_shown_under_their_tab(
    tasks: Seq<TaskProgress>,
    messages: Seq<NotificationMessage>,
    task: TaskProgress,
)
    requires
        tasks.contains(task),
    ensures
        progress::done(task.status@) ==> {
            let plans = planned("done"@, tasks, messages);
            plans.len() == 1 && plans[0].tasks.contains(task)
        },
        progress::active(task.status@) ==> {
            let plans = planned("active"@, tasks, messages);
            plans.len() > 0 && plans[0].tasks.contains(task)
        },
{
    reveal_strlit("active");
    reveal_strlit("done");
    assert("active"@.len() != "done"@.len());
    broadcast use vstd::seq_lib::group_filter_ensures;

    let i = choose|i: int| 0 <= i < tasks.len() && tasks[i] == task;
    let ended = |t: TaskProgress| belongs(t, Part::Done);
    let active = |t: TaskProgress| belongs(t, Part::Active);
    if progress::done(task.status@) {
        assert(ended(tasks[i]));
        assert(tasks.filter(ended).contains(tasks[i]));
    }
    if progress::active(task.status@) {
        assert(active(tasks[i]));
        assert(tasks.filter(active).contains(tasks[i]));
    }
}

} // verus!
