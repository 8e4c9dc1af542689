//! What upkeep of yt-dlp does, told of what goes into it and what comes out.

use crate::notification_center::LabelView;
use crate::notify::NotificationState;
use crate::text;
use crate::ytdlp;
use crate::ytdlp::{
    AutoUpdateColumn, SettingsRow, StoredSettings, ToolRun, YtDlpSettings, YtDlpSettingsUpdate,
};
use crate::ytdlp_settings;
use crate::ytdlp_settings::{ServerCall, UpdateResult, YtDlpPanel, YtDlpPanelView};
use vstd::prelude::*;

verus! {

/// The managed binary is run where there is one. Of all texts "nightly" alone is the nightly
/// channel, and every other is the stable one; yt-dlp is told nothing else.
pub proof fn law_channel_is_stable_unless_nightly(
    managed: Option<String>,
    binary: String,
    channel: &str,
    told: &'static str,
    arguments: Vec<&'static str>,
    asked: Vec<&'static str>,
)
    requires
        call_ensures(ytdlp::ytdlp_binary, (managed,), binary),
        call_ensures(ytdlp::normalize_channel, (channel,), told),
        call_ensures(ytdlp::update_arguments, (channel,), arguments),
        call_ensures(ytdlp::version_arguments, (), asked),
    ensures
        managed matches Some(path) ==> binary@ == path@,
        managed is None ==> binary@ == "yt-dlp"@,
        told@ == "nightly"@ <==> channel@ == "nightly"@,
        told@ == "stable"@ <==> channel@ != "nightly"@,
        arguments@.len() == 2 && arguments@[0]@ == "--update-to"@ && arguments@[1]@ == told@,
        asked@.len() == 1 && asked@[0]@ == "--version"@,
{
    reveal_strlit("nightly");
    reveal_strlit("stable");
    assert("nightly"@.len() == 7 && "stable"@.len() == 6);
}

/// Settings that are written are read back, from either database: the switch as it was set, the
/// channel as yt-dlp is told it. Without a row, or a value in it, updating is on and the channel
/// stable.
pub proof fn law_settings_are_read_as_written(
    update: YtDlpSettingsUpdate,
    written: StoredSettings,
    row: Option<SettingsRow>,
    settings: YtDlpSettings,
)
    requires
        call_ensures(ytdlp::set_settings, (&update,), written),
        call_ensures(ytdlp::get_settings, (row,), settings),
    ensures
        written.auto_update == update.auto_update,
        update.auto_update ==> written.auto_update_number == 1,
        !update.auto_update ==> written.auto_update_number == 0,
        written.channel@ == "nightly"@ <==> update.channel@ == "nightly"@,
        written.channel@ == "nightly"@ || written.channel@ == "stable"@,
        row matches Some(found) ==> {
            &&& found.auto_update == AutoUpdateColumn::Postgres(Some(written.auto_update))
                || found.auto_update == AutoUpdateColumn::MySql(Some(written.auto_update_number))
                ==> settings.auto_update == update.auto_update
            &&& found.auto_update matches AutoUpdateColumn::Postgres(Some(flag))
                ==> settings.auto_update == flag
            &&& found.auto_update matches AutoUpdateColumn::MySql(Some(number))
                ==> settings.auto_update == (number == 1)
            &&& found.auto_update == AutoUpdateColumn::Postgres(None) || found.auto_update
                == AutoUpdateColumn::MySql(None) ==> settings.auto_update
            &&& found.channel matches Some(c) ==> settings.channel@ == c@
            &&& found.channel is None ==> settings.channel@ == "stable"@
            &&& settings.last_updated == found.last_updated
            &&& settings.last_result == found.last_result
        },
        row is None ==> settings.auto_update && settings.channel@ == "stable"@
            && settings.last_updated is None && settings.last_result is None,
{
    reveal_strlit("nightly");
    reveal_strlit("stable");
    assert("nightly"@.len() == 7 && "stable"@.len() == 6);
}

/// Whether a text is what the binary printed, without the white space around it.
pub open spec fn is_output(told: Seq<char>, bytes: Seq<u8>) -> bool {
    exists|from: int, to: int| #[trigger]
        is_cut(ytdlp::lossy_text(bytes), from, to) && told == ytdlp::lossy_text(bytes).subrange(
            from,
            to,
        )
}

/// Whether a part of a text is all of it but for white space at its ends, and has none there.
pub open spec fn is_cut(whole: Seq<char>, from: int, to: int) -> bool {
    &&& 0 <= from <= to <= whole.len()
    &&& forall|i: int| 0 <= i < from ==> text::is_space(#[trigger] whole[i])
    &&& forall|i: int| to <= i < whole.len() ==> text::is_space(#[trigger] whole[i])
    &&& from < to ==> !text::is_space(whole[from]) && !text::is_space(whole[to - 1])
}

proof fn lemma_leading(whole: Seq<char>) -> (from: int)
    ensures
        0 <= from <= whole.len(),
        text::without_leading_space(whole) == whole.skip(from),
        forall|i: int| 0 <= i < from ==> text::is_space(#[trigger] whole[i]),
        from < whole.len() ==> !text::is_space(whole[from]),
    decreases whole.len(),
{
    if whole.len() > 0 && text::is_space(whole[0]) {
        let rest = whole.skip(1);
        let k = lemma_leading(rest);
        assert(rest.skip(k) =~= whole.skip(k + 1));
        assert forall|i: int| 0 <= i < k + 1 implies text::is_space(#[trigger] whole[i]) by {
            if i > 0 {
                assert(rest[i - 1] == whole[i]);
            }
        }
        if k < rest.len() {
            assert(rest[k] == whole[k + 1]);
        }
        k + 1
    } else {
        assert(whole.skip(0) =~= whole);
        0
    }
}

proof fn lemma_trailing(whole: Seq<char>) -> (to: int)
    ensures
        0 <= to <= whole.len(),
        text::without_trailing_space(whole) == whole.take(to),
        forall|i: int| to <= i < whole.len() ==> text::is_space(#[trigger] whole[i]),
        to > 0 ==> !text::is_space(whole[to - 1]),
    decreases whole.len(),
{
    if whole.len() > 0 && text::is_space(whole.last()) {
        let rest = whole.drop_last();
        let k = lemma_trailing(rest);
        assert(rest.take(k) =~= whole.take(k));
        assert forall|i: int| k <= i < whole.len() implies text::is_space(#[trigger] whole[i]) by {
            if i < rest.len() {
                assert(rest[i] == whole[i]);
            }
        }
        k
    } else {
        assert(whole.take(whole.len() as int) =~= whole);
        whole.len() as int
    }
}

proof fn lemma_output(bytes: Seq<u8>)
    ensures
        is_output(ytdlp::printed(bytes), bytes),
{
    let whole = ytdlp::lossy_text(bytes);
    let from = lemma_leading(whole);
    let rest = whole.skip(from);
    let k = lemma_trailing(rest);
    let to = from + k;
    assert(rest.take(k) =~= whole.subrange(from, to));
    assert forall|i: int| to <= i < whole.len() implies text::is_space(#[trigger] whole[i]) by {
        assert(rest[i - from] == whole[i]);
    }
    if from < to {
        assert(rest[k - 1] == whole[to - 1]);
    }
    assert(is_cut(whole, from, to));
}

/// The version is what a run that went well printed; one that did not, or that could not begin,
/// gives the error it told of.
pub proof fn law_version_is_what_was_printed(bin: &str, run: ToolRun, r: Result<String, String>)
    requires
        call_ensures(ytdlp::current_version, (bin, &run), r),
    ensures
        r is Ok <==> (run matches ToolRun::Ended { success, .. } && success),
        run matches ToolRun::Ended { success: true, stdout, .. } ==> is_output(r->Ok_0@, stdout@),
        run matches ToolRun::Ended { success: false, stderr, .. } ==> exists|told: Seq<char>|
            #[trigger] is_output(told, stderr@) && r->Err_0@ == "yt-dlp --version failed: "@ + told,
        run matches ToolRun::NotStarted { error }
            ==> r->Err_0@ == "failed to execute yt-dlp ("@ + bin@
            + "): "@ + error@,
{
    if let ToolRun::Ended { stdout, stderr, .. } = run {
        lemma_output(stdout@);
        lemma_output(stderr@);
    }
}

/// An update goes well exactly if the binary updated itself and then told its version, which is what
/// it comes to; otherwise it comes to what went wrong first.
pub proof fn law_update_comes_to_the_new_version(
    bin: &str,
    update: ToolRun,
    version: ToolRun,
    r: Result<String, String>,
    why: Option<String>,
    told: Result<String, String>,
)
    requires
        call_ensures(ytdlp::run_update, (bin, &update, &version), r),
        call_ensures(ytdlp::failed_update, (bin, &update), why),
        call_ensures(ytdlp::current_version, (bin, &version), told),
    ensures
        why is None <==> (update matches ToolRun::Ended { success, .. } && success),
        update matches ToolRun::Ended { success: false, stderr, .. } ==> exists|said: Seq<char>|
            #[trigger] is_output(said, stderr@) && why->0@ == "yt-dlp update failed: "@ + said,
        update matches ToolRun::NotStarted { error }
            ==> why->0@ == "failed to execute yt-dlp ("@ + bin@
            + "): "@ + error@,
        r is Ok <==> why is None && told is Ok,
        r is Ok ==> r->Ok_0@ == told->Ok_0@,
        why is Some ==> r->Err_0@ == why->0@,
        why is None && told is Err ==> r->Err_0@ == "yt-dlp updated but --version failed: "@
            + told->Err_0@,
{
    if let ToolRun::Ended { stderr, .. } = update {
        lemma_output(stderr@);
    }
}

/// An update follows the channel of the settings, and is recorded by the version it came to and the
/// channel it followed, or by why it failed; the result is handed on as it is.
pub proof fn law_updates_are_recorded(
    settings: Result<YtDlpSettings, String>,
    follows: String,
    result: Result<String, String>,
    channel: &str,
    told: &'static str,
    r: (Result<String, String>, String),
)
    requires
        call_ensures(ytdlp::channel_to_follow, (settings,), follows),
        call_ensures(ytdlp::normalize_channel, (channel,), told),
        call_ensures(ytdlp::update_and_record, (result, channel), r),
    ensures
        settings matches Ok(s) ==> follows@ == s.channel@,
        settings is Err ==> follows@ == "stable"@,
        r.0 == result,
        result matches Ok(version) ==> r.1@ == "Updated to "@ + version@ + " ("@ + told@
            + " channel)"@,
        result matches Err(error) ==> r.1@ == "Update failed: "@ + error@,
{
}

// ---- the panel ----

/// The panel takes over what the server answers, and shows itself from then on; without an answer it
/// stays as it is. Turning the switch twice changes nothing, and choosing a channel chooses that.
pub proof fn law_panel_takes_over_the_settings(
    loaded: &mut YtDlpPanel,
    answer: Option<(YtDlpSettings, Option<String>)>,
    once: &mut YtDlpPanel,
    twice: &mut YtDlpPanel,
    chosen: &mut YtDlpPanel,
    channel: String,
)
    requires
        call_ensures(YtDlpPanel::loaded, (loaded, answer), ()),
        call_ensures(YtDlpPanel::toggle_auto, (once,), ()),
        *old(twice) == *final(once),
        call_ensures(YtDlpPanel::toggle_auto, (twice,), ()),
        call_ensures(YtDlpPanel::choose_channel, (chosen, channel), ()),
    ensures
        answer is None ==> *final(loaded) == *old(loaded),
        answer matches Some((settings, version)) ==> {
            &&& final(loaded).is_admin
            &&& final(loaded).version == version
            &&& final(loaded).auto_update == settings.auto_update
            &&& settings.channel@.len() > 0 ==> final(loaded).channel@ == settings.channel@
            &&& settings.channel@.len() == 0 ==> final(loaded).channel@ == "stable"@
            &&& final(loaded).last_updated == settings.last_updated
            &&& final(loaded).last_result == settings.last_result
            &&& final(loaded).saving == old(loaded).saving
            &&& final(loaded).updating == old(loaded).updating
            &&& final(loaded).refresh == old(loaded).refresh
        },
        final(once).auto_update != old(once).auto_update,
        *old(once) == (YtDlpPanel { auto_update: old(once).auto_update, ..*final(once) }),
        *final(twice) == *old(once),
        final(chosen).channel == channel,
        *old(chosen) == (YtDlpPanel { channel: old(chosen).channel, ..*final(chosen) }),
{
}

/// Saving sends what the panel shows to the server that is known, by the key that is known, and
/// updating asks that server; each is under way from then on.
pub proof fn law_panel_sends_what_it_shows(
    saved: &mut YtDlpPanel,
    updated: &mut YtDlpPanel,
    notifications: &mut NotificationState,
    server_name: Option<String>,
    api_key: Option<String>,
    started: String,
    sent: Option<(ServerCall, YtDlpSettingsUpdate)>,
    asked: Option<ServerCall>,
)
    requires
        call_ensures(YtDlpPanel::save, (saved, &server_name, &api_key), sent),
        call_ensures(
            YtDlpPanel::update_now,
            (updated, notifications, &server_name, &api_key, started),
            asked,
        ),
    ensures
        sent is Some <==> server_name is Some,
        sent matches Some((call, update)) ==> call.server_name@ == server_name->0@ && call.api_key
            == api_key && update.auto_update == old(saved).auto_update
                && update.channel@ == old(saved).channel@,
        final(saved).saving,
        *old(saved) == (YtDlpPanel { saving: old(saved).saving, ..*final(saved) }),
        asked is Some <==> server_name is Some,
        asked matches Some(call) ==> call.server_name@ == server_name->0@
            && call.api_key == api_key,
        final(updated).updating,
        *old(updated) == (YtDlpPanel { updating: old(updated).updating, ..*final(updated) }),
        final(notifications).info_message == Some(started),
        final(notifications).error_message == old(notifications).error_message,
        final(notifications).active_tasks == old(notifications).active_tasks,
        final(notifications).messages == old(notifications).messages,
{
}

/// Once saving or updating has ended it is no longer under way. What went well is said as news and
/// has the settings asked for anew; what went wrong is said as an error, under what it was that
/// failed.
pub proof fn law_panel_says_how_it_ended(
    saved: &mut YtDlpPanel,
    on_saving: &mut NotificationState,
    result: Result<(), String>,
    done: String,
    failed: &str,
    updated: &mut YtDlpPanel,
    on_updating: &mut NotificationState,
    outcome: Result<UpdateResult, String>,
)
    requires
        result is Ok ==> old(saved).refresh < u32::MAX,
        outcome is Ok ==> old(updated).refresh < u32::MAX,
        call_ensures(YtDlpPanel::save_ended, (saved, on_saving, result, done, failed), ()),
        call_ensures(YtDlpPanel::update_ended, (updated, on_updating, outcome, failed), ()),
    ensures
        !final(saved).saving,
        result is Ok ==> final(saved).refresh == old(saved).refresh + 1,
        result is Err ==> final(saved).refresh == old(saved).refresh,
        *old(saved) == (YtDlpPanel {
            saving: old(saved).saving,
            refresh: old(saved).refresh,
            ..*final(saved)
        }),
        result is Ok ==> final(on_saving).info_message == Some(done)
            && final(on_saving).error_message == old(on_saving).error_message,
        result matches Err(e) ==> text::held(final(on_saving).error_message) == Some(
            failed@ + ": "@ + e@,
        ) && final(on_saving).info_message == old(on_saving).info_message,
        final(on_saving).active_tasks == old(on_saving).active_tasks,
        final(on_saving).messages == old(on_saving).messages,
        !final(updated).updating,
        outcome is Ok ==> final(updated).refresh == old(updated).refresh + 1,
        outcome is Err ==> final(updated).refresh == old(updated).refresh,
        *old(updated) == (YtDlpPanel {
            updating: old(updated).updating,
            refresh: old(updated).refresh,
            ..*final(updated)
        }),
        outcome matches Ok(u) ==> (u.success ==> final(on_updating).info_message == Some(u.detail)
            && final(on_updating).error_message == old(on_updating).error_message),
        outcome matches Ok(u) ==> (!u.success ==> final(on_updating).error_message == Some(u.detail)
            && final(on_updating).info_message == old(on_updating).info_message),
        outcome matches Err(e) ==> text::held(final(on_updating).error_message) == Some(
            failed@ + ": "@ + e@,
        ) && final(on_updating).info_message == old(on_updating).info_message,
        final(on_updating).active_tasks == old(on_updating).active_tasks,
        final(on_updating).messages == old(on_updating).messages,
{
}

/// Administrators alone see the panel. It shows the version, or that none is known; the channel and
/// the switch as they are; when it was last updated and what came of that; and what is under way
/// cannot be begun again.
pub proof fn law_panel_shows_what_it_holds(panel: YtDlpPanel, view: Option<YtDlpPanelView>)
    requires
        call_ensures(ytdlp_settings::ytdlp_settings, (&panel,), view),
    ensures
        view is Some <==> panel.is_admin,
        view matches Some(v) ==> {
            &&& panel.version matches Some(t) ==> v.version@ == (LabelView::Text { shown: t@ })
            &&& panel.version is None ==> v.version@ == (LabelView::Key {
                name: "ytdlp_settings.version_unknown"@,
            })
            &&& v.last_update is Some <==> panel.last_updated is Some
            &&& v.last_update matches Some(last) ==> last.0@ == panel.last_updated->0@
            &&& v.last_update matches Some(last) ==> (panel.last_result matches Some(t) ==> last.1@
                == t@)
            &&& v.last_update matches Some(last) ==> (panel.last_result is None ==> last.1@.len()
                == 0)
            &&& v.channel@ == panel.channel@
            &&& v.stable_selected <==> panel.channel@ == "stable"@
            &&& v.nightly_selected <==> panel.channel@ == "nightly"@
            &&& v.auto_update == panel.auto_update
            &&& v.update_disabled == panel.updating
            &&& v.save_disabled == panel.saving
            &&& panel.updating ==> v.update_label@ == "ytdlp_settings.updating"@
            &&& !panel.updating ==> v.update_label@ == "ytdlp_settings.update_now"@
            &&& panel.saving ==> v.save_label@ == "ytdlp_settings.saving"@
            &&& !panel.saving ==> v.save_label@ == "ytdlp_settings.save"@
        },
{
}

/// After an update that went well the version is what the binary tells; where it tells none, that
/// is said.
pub proof fn law_updated_binary_tells_its_version(
    bin: &str,
    run: ToolRun,
    r: Result<String, String>,
    told: Result<String, String>,
)
    requires
        call_ensures(ytdlp::verified_version, (bin, &run), r),
        call_ensures(ytdlp::current_version, (bin, &run), told),
    ensures
        r is Ok <==> told is Ok,
        r is Ok ==> r->Ok_0@ == told->Ok_0@,
        r is Err ==> r->Err_0@ == "yt-dlp updated but --version failed: "@ + told->Err_0@,
{
}

/// At first the panel is hidden, knows no version, follows the stable channel by itself, and does
/// nothing; and so do settings that nobody made.
pub proof fn law_panel_begins_hidden(
    panel: YtDlpPanel,
    view: Option<YtDlpPanelView>,
    settings: YtDlpSettings,
)
    requires
        call_ensures(YtDlpPanel::new, (), panel),
        call_ensures(ytdlp_settings::ytdlp_settings, (&panel,), view),
        call_ensures(YtDlpSettings::default, (), settings),
    ensures
        view is None,
        panel.version is None && panel.last_updated is None && panel.last_result is None,
        panel.auto_update && panel.channel@ == "stable"@,
        !panel.saving && !panel.updating && panel.refresh == 0,
        settings.auto_update && settings.channel@ == "stable"@ && settings.last_updated is None
            && settings.last_result is None,
{
}

} // verus!
