//! The panel by which administrators manage yt-dlp: its version, the channel it follows,
//! whether it updates itself, and updating it at once.

use crate::notification_center::{Label, LabelView};
use crate::notify::NotificationState;
use crate::text;
use crate::ytdlp::{YtDlpSettings, YtDlpSettingsUpdate};
use vstd::prelude::*;

verus! {

/// The state of the panel.
#[derive(Clone, Debug, PartialEq)]
pub struct YtDlpPanel {
    pub is_admin: bool,
    pub version: Option<String>,
    pub auto_update: bool,
    pub channel: String,
    pub last_updated: Option<String>,
    pub last_result: Option<String>,
    pub saving: bool,
    pub updating: bool,
    /// How often the settings were asked for anew.
    pub refresh: u32,
}

/// A call to the server.
#[derive(Clone, Debug, PartialEq)]
pub struct ServerCall {
    pub server_name: String,
    pub api_key: Option<String>,
}

/// What became of an update.
#[derive(Clone, Debug, PartialEq)]
pub struct UpdateResult {
    pub success: bool,
    pub detail: String,
}

/// The channel that settings name, or the stable one if they name none.
pub open spec fn named_channel(settings: YtDlpSettings) -> Seq<char> {
    if settings.channel@.len() == 0 {
        "stable"@
    } else {
        settings.channel@
    }
}

/// An error below a heading.
pub open spec fn error_text(heading: Seq<char>, error: Seq<char>) -> Seq<char> {
    heading + ": "@ + error
}

impl YtDlpPanel {
    /// A panel of which nothing is known yet.
    pub fn new() -> (r: Self)
        ensures
            !r.is_admin,
            r.version is None,
            r.auto_update,
            r.channel@ == "stable"@,
            r.last_updated is None,
            r.last_result is None,
            !r.saving,
            !r.updating,
            r.refresh == 0,
    {
        YtDlpPanel {
            is_admin: false,
            version: None,
            auto_update: true,
            channel: "stable".to_string(),
            last_updated: None,
            last_result: None,
            saving: false,
            updating: false,
            refresh: 0,
        }
    }

    /// Takes what the server answered when asked for the settings. It answers administrators
    /// only, so an answer tells that the user is one; without an answer nothing changes.
    pub fn loaded(&mut self, answer: Option<(YtDlpSettings, Option<String>)>)
        ensures
            answer is None ==> *final(self) == *old(self),
            answer matches Some((settings, version)) ==> {
                &&& final(self).is_admin
                &&& final(self).version == version
                &&& final(self).auto_update == settings.auto_update
                &&& final(self).channel@ == named_channel(settings)
                &&& final(self).last_updated == settings.last_updated
                &&& final(self).last_result == settings.last_result
                &&& final(self).saving == old(self).saving
                &&& final(self).updating == old(self).updating
                &&& final(self).refresh == old(self).refresh
            },
    {
        if let Some((settings, version)) = answer {
            self.auto_update = settings.auto_update;
            self.channel = if settings.channel.as_str().is_empty() {
                "stable".to_string()
            } else {
                settings.channel
            };
            self.last_updated = settings.last_updated;
            self.last_result = settings.last_result;
            self.version = version;
            self.is_admin = true;
        }
    }

    /// Turns updating by itself on or off.
    pub fn toggle_auto(&mut self)
        ensures
            *final(self) == (YtDlpPanel { auto_update: !old(self).auto_update, ..*old(self) }),
    {
        self.auto_update = !self.auto_update;
    }

    /// Chooses a channel.
    pub fn choose_channel(&mut self, channel: String)
        ensures
            *final(self) == (YtDlpPanel { channel, ..*old(self) }),
    {
        self.channel = channel;
    }

    /// Begins to save the settings, as far as a server is known.
    pub fn save(&mut self, server_name: &Option<String>, api_key: &Option<String>) -> (r: Option<
        (ServerCall, YtDlpSettingsUpdate),
    >)
        ensures
            *final(self) == (YtDlpPanel { saving: true, ..*old(self) }),
            r is Some == server_name is Some,
            r matches Some((call, update)) ==> {
                &&& call == (ServerCall { server_name: server_name->0, api_key: *api_key })
                &&& update == (YtDlpSettingsUpdate {
                    auto_update: old(self).auto_update,
                    channel: old(self).channel,
                })
            },
    {
        self.saving = true;
        match server_name {
            Some(server_name) => Some(
                (
                    ServerCall { server_name: server_name.clone(), api_key: api_key.clone() },
                    YtDlpSettingsUpdate {
                        auto_update: self.auto_update,
                        channel: self.channel.clone(),
                    },
                ),
            ),
            None => None,
        }
    }

    /// Ends saving the settings: tells whether it went well, and if so asks for them anew.
    /// `saved` and `failed` are what is said then.
    pub fn save_ended(
        &mut self,
        notifications: &mut NotificationState,
        result: Result<(), String>,
        saved: String,
        failed: &str,
    )
        requires
            result is Ok ==> old(self).refresh < u32::MAX,
        ensures
            *final(self) == (YtDlpPanel {
                saving: false,
                refresh: if result is Ok {
                    (old(self).refresh + 1) as u32
                } else {
                    old(self).refresh
                },
                ..*old(self)
            }),
            result is Ok ==> *final(notifications) == (NotificationState {
                info_message: Some(saved),
                ..*old(notifications)
            }),
            result matches Err(e) ==> {
                &&& *final(notifications) == (NotificationState {
                    error_message: final(notifications).error_message,
                    ..*old(notifications)
                })
                &&& text::held(final(notifications).error_message) == Some(
                    error_text(failed@, e@),
                )
            },
    {
        match result {
            Ok(()) => {
                notifications.info_message = Some(saved);
                self.refresh = self.refresh + 1;
            },
            Err(e) => {
                notifications.error_message = Some(headed(failed, e.as_str()));
            },
        }
        self.saving = false;
    }

    /// Begins to update yt-dlp, as far as a server is known. `started` is what is said then.
    pub fn update_now(
        &mut self,
        notifications: &mut NotificationState,
        server_name: &Option<String>,
        api_key: &Option<String>,
        started: String,
    ) -> (r: Option<ServerCall>)
        ensures
            *final(self) == (YtDlpPanel { updating: true, ..*old(self) }),
            *final(notifications) == (NotificationState {
                info_message: Some(started),
                ..*old(notifications)
            }),
            r == match *server_name {
                Some(server_name) => Some(ServerCall { server_name, api_key: *api_key }),
                None => None,
            },
    {
        self.updating = true;
        notifications.info_message = Some(started);
        match server_name {
            Some(server_name) => Some(
                ServerCall { server_name: server_name.clone(), api_key: api_key.clone() },
            ),
            None => None,
        }
    }

    /// Ends updating yt-dlp: tells what the server said of it, and asks for the settings anew
    /// if it said anything. `failed` is what is said where it did not.
    pub fn update_ended(
        &mut self,
        notifications: &mut NotificationState,
        result: Result<UpdateResult, String>,
        failed: &str,
    )
        requires
            result is Ok ==> old(self).refresh < u32::MAX,
        ensures
            *final(self) == (YtDlpPanel {
                updating: false,
                refresh: if result is Ok {
                    (old(self).refresh + 1) as u32
                } else {
                    old(self).refresh
                },
                ..*old(self)
            }),
            result matches Ok(update) ==> *final(notifications) == if update.success {
                NotificationState { info_message: Some(update.detail), ..*old(notifications) }
            } else {
                NotificationState { error_message: Some(update.detail), ..*old(notifications) }
            },
            result matches Err(e) ==> {
                &&& *final(notifications) == (NotificationState {
                    error_message: final(notifications).error_message,
                    ..*old(notifications)
                })
                &&& text::held(final(notifications).error_message) == Some(
                    error_text(failed@, e@),
                )
            },
    {
        match result {
            Ok(update) => {
                if update.success {
                    notifications.info_message = Some(update.detail);
                } else {
                    notifications.error_message = Some(update.detail);
                }
                self.refresh = self.refresh + 1;
            },
            Err(e) => {
                notifications.error_message = Some(headed(failed, e.as_str()));
            },
        }
        self.updating = false;
    }
}

fn headed(heading: &str, error: &str) -> (r: String)
    ensures
        r@ == error_text(heading@, error@),
{
    let mut r: String = text::joined(heading, ": ");
    r.append(error);
    r
}

/// The panel as it appears.
#[derive(Debug, PartialEq)]
pub struct YtDlpPanelView {
    pub version: Label,
    /// When yt-dlp was last updated, and what came of it.
    pub last_update: Option<(String, String)>,
    pub channel: String,
    pub stable_selected: bool,
    pub nightly_selected: bool,
    pub auto_update: bool,
    pub update_disabled: bool,
    pub update_label: &'static str,
    pub save_disabled: bool,
    pub save_label: &'static str,
}

/// Whether the panel appears as it should.
pub open spec fn panel_shows(view: YtDlpPanelView, panel: YtDlpPanel) -> bool {
    &&& view.version@ == match panel.version {
        Some(v) => LabelView::Text { shown: v@ },
        None => LabelView::Key { name: "ytdlp_settings.version_unknown"@ },
    }
    &&& view.last_update is Some == panel.last_updated is Some
    &&& view.last_update matches Some(last) ==> last.0@ == panel.last_updated->0@ && last.1@
        == match panel.last_result {
        Some(t) => t@,
        None => Seq::empty(),
    }
    &&& view.channel == panel.channel
    &&& view.stable_selected == (panel.channel@ == "stable"@)
    &&& view.nightly_selected == (panel.channel@ == "nightly"@)
    &&& view.auto_update == panel.auto_update
    &&& view.update_disabled == panel.updating
    &&& view.update_label@ == if panel.updating {
        "ytdlp_settings.updating"@
    } else {
        "ytdlp_settings.update_now"@
    }
    &&& view.save_disabled == panel.saving
    &&& view.save_label@ == if panel.saving {
        "ytdlp_settings.saving"@
    } else {
        "ytdlp_settings.save"@
    }
}

/// The panel as it appears; to those who are no administrators it does not.
pub fn ytdlp_settings(panel: &YtDlpPanel) -> (r: Option<YtDlpPanelView>)
    ensures
        r is Some == panel.is_admin,
        r is Some ==> panel_shows(r->0, *panel),
{
    if !panel.is_admin {
        return None;
    }
    Some(
        YtDlpPanelView {
            version: match &panel.version {
                Some(v) => Label::Text(v.clone()),
                None => Label::Key("ytdlp_settings.version_unknown"),
            },
            last_update: match &panel.last_updated {
                Some(when) => Some(
                    (
                        when.clone(),
                        match &panel.last_result {
                            Some(t) => t.clone(),
                            None => String::new(),
                        },
                    ),
                ),
                None => None,
            },
            channel: panel.channel.clone(),
            stable_selected: text::same(panel.channel.as_str(), "stable"),
            nightly_selected: text::same(panel.channel.as_str(), "nightly"),
            auto_update: panel.auto_update,
            update_disabled: panel.updating,
            update_label: if panel.updating {
                "ytdlp_settings.updating"
            } else {
                "ytdlp_settings.update_now"
            },
            save_disabled: panel.saving,
            save_label: if panel.saving {
                "ytdlp_settings.saving"
            } else {
                "ytdlp_settings.save"
            },
        },
    )
}

} // verus!
