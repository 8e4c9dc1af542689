//! Upkeep of the yt-dlp binary, which updates itself: daily, at startup and on demand.
//!
//! YouTube breaks whenever Google changes its internals, and the fix is always a newer
//! yt-dlp. The `nightly` channel is the escape hatch: fixes usually land there the same day.

use crate::text;
use vstd::prelude::*;

verus! {

/// The binary to run: the managed copy, or else the one on the search path.
pub fn ytdlp_binary(managed: Option<String>) -> (r: String)
    ensures
        r@ == match managed {
            Some(path) => path@,
            None => "yt-dlp"@,
        },
{
    match managed {
        Some(path) => path,
        None => "yt-dlp".to_string(),
    }
}

/// The channel that yt-dlp is told: `nightly`, or else `stable`.
pub open spec fn channel_text(channel: Seq<char>) -> Seq<char> {
    if channel == "nightly"@ {
        "nightly"@
    } else {
        "stable"@
    }
}

/// Makes any text a channel that yt-dlp accepts.
pub fn normalize_channel(channel: &str) -> (r: &'static str)
    ensures
        r@ == channel_text(channel@),
{
    if text::same(channel, "nightly") {
        "nightly"
    } else {
        "stable"
    }
}

/// A channel that was made acceptable stays as it is, and is one of two.
pub proof fn law_channels_are_settled(channel: Seq<char>)
    ensures
        channel_text(channel_text(channel)) == channel_text(channel),
        channel_text(channel) == "stable"@ || channel_text(channel) == "nightly"@,
{
}

/// How yt-dlp is kept up to date.
#[derive(Clone, Debug, PartialEq)]
pub struct YtDlpSettings {
    pub auto_update: bool,
    /// `stable` or `nightly`.
    pub channel: String,
    pub last_updated: Option<String>,
    pub last_result: Option<String>,
}

impl Default for YtDlpSettings {
    fn default() -> (r: Self)
        ensures
            r.auto_update,
            r.channel@ == "stable"@,
            r.last_updated is None,
            r.last_result is None,
    {
        YtDlpSettings {
            auto_update: true,
            channel: "stable".to_string(),
            last_updated: None,
            last_result: None,
        }
    }
}

/// What an administrator may change.
#[derive(Clone, Debug, PartialEq)]
pub struct YtDlpSettingsUpdate {
    pub auto_update: bool,
    pub channel: String,
}

/// The column that says whether yt-dlp updates itself: a boolean in one database, a number
/// in the other.
#[derive(Clone, Copy, Debug, PartialEq, Eq)]
pub enum AutoUpdateColumn {
    Postgres(Option<bool>),
    MySql(Option<i32>),
}

impl AutoUpdateColumn {
    /// Whether the column stands for yes; one without a value does.
    pub open spec fn on(self) -> bool {
        match self {
            AutoUpdateColumn::Postgres(flag) => flag != Some(false),
            AutoUpdateColumn::MySql(number) => number is None || number == Some(1i32),
        }
    }
}

/// The stored settings, as far as their columns could be read.
#[derive(Clone, Debug, PartialEq)]
pub struct SettingsRow {
    pub auto_update: AutoUpdateColumn,
    pub channel: Option<String>,
    pub last_updated: Option<String>,
    pub last_result: Option<String>,
}

/// The channel that a row names, or the stable one.
pub open spec fn row_channel(row: SettingsRow) -> Seq<char> {
    match row.channel {
        Some(c) => c@,
        None => "stable"@,
    }
}

/// The settings of a stored row; the default ones where there is no row, and for each column
/// without a value.
pub fn get_settings(row: Option<SettingsRow>) -> (r: YtDlpSettings)
    ensures
        match row {
            Some(row) => {
                &&& r.auto_update == row.auto_update.on()
                &&& r.channel@ == row_channel(row)
                &&& r.last_updated == row.last_updated
                &&& r.last_result == row.last_result
            },
            None => r.auto_update && r.channel@ == "stable"@ && r.last_updated is None
                && r.last_result is None,
        },
{
    match row {
        Some(row) => YtDlpSettings {
            auto_update: match row.auto_update {
                AutoUpdateColumn::Postgres(flag) => flag.unwrap_or(true),
                AutoUpdateColumn::MySql(number) => number.unwrap_or(1) == 1,
            },
            channel: match row.channel {
                Some(c) => c,
                None => "stable".to_string(),
            },
            last_updated: row.last_updated,
            last_result: row.last_result,
        },
        None => YtDlpSettings::default(),
    }
}

/// What is written to the database when settings change.
#[derive(Clone, Copy, Debug, PartialEq, Eq)]
pub struct StoredSettings {
    pub auto_update: bool,
    /// The same as a number.
    pub auto_update_number: i32,
    pub channel: &'static str,
}

/// Whether values are those to write for changed settings.
pub open spec fn stands_for(stored: StoredSettings, update: YtDlpSettingsUpdate) -> bool {
    &&& stored.auto_update == update.auto_update
    &&& stored.auto_update_number == if update.auto_update {
        1int
    } else {
        0
    }
    &&& stored.channel@ == channel_text(update.channel@)
}

/// The values to write for changed settings: the channel is always one that yt-dlp accepts.
pub fn set_settings(update: &YtDlpSettingsUpdate) -> (r: StoredSettings)
    ensures
        stands_for(r, *update),
{
    StoredSettings {
        auto_update: update.auto_update,
        auto_update_number: if update.auto_update {
            1
        } else {
            0
        },
        channel: normalize_channel(update.channel.as_str()),
    }
}

/// Whether a row holds what was written to it, in either database.
pub open spec fn row_of(stored: StoredSettings, row: SettingsRow) -> bool {
    &&& row.auto_update == AutoUpdateColumn::Postgres(Some(stored.auto_update)) || row.auto_update
        == AutoUpdateColumn::MySql(Some(stored.auto_update_number))
    &&& row.channel matches Some(c) && c@ == stored.channel@
}

/// Settings that were written are read back: the switch as it was set, the channel as it was
/// made acceptable.
pub proof fn law_written_settings_read_back(
    update: YtDlpSettingsUpdate,
    stored: StoredSettings,
    row: SettingsRow,
)
    requires
        stands_for(stored, update),
        row_of(stored, row),
    ensures
        row.auto_update.on() == update.auto_update,
        row_channel(row) == channel_text(update.channel@),
{
}

// ---- running the binary ----

/// What became of a run of the binary.
#[derive(Clone, Debug, PartialEq)]
pub enum ToolRun {
    /// It could not be started.
    NotStarted { error: String },
    /// It ran to its end.
    Ended { success: bool, stdout: Vec<u8>, stderr: Vec<u8> },
}

/// The text that `String::from_utf8_lossy` makes of bytes.
pub uninterp spec fn lossy_text(bytes: Seq<u8>) -> Seq<char>;

/// `String::from_utf8_lossy`: bytes that are UTF-8 are decoded; what is not is replaced.
#[verifier::external_body]
fn lossy(bytes: &[u8]) -> (r: String)
    ensures
        r@ == lossy_text(bytes@),
        vstd::utf8::valid_utf8(bytes@) ==> r@ == vstd::utf8::decode_utf8(bytes@),
{
    String::from_utf8_lossy(bytes).into_owned()
}

/// What the binary printed, without white space around it.
pub open spec fn printed(bytes: Seq<u8>) -> Seq<char> {
    text::trimmed(lossy_text(bytes))
}

fn output(bytes: &Vec<u8>) -> (r: String)
    ensures
        r@ == printed(bytes@),
{
    let whole: String = lossy(bytes.as_slice());
    text::trim(whole.as_str())
}

/// What is told of a binary that could not be started.
pub open spec fn not_started_text(bin: Seq<char>, error: Seq<char>) -> Seq<char> {
    "failed to execute yt-dlp ("@ + bin + "): "@ + error
}

/// The text of a result, or that of its error.
pub open spec fn outcome(result: Result<String, String>) -> Result<Seq<char>, Seq<char>> {
    match result {
        Ok(t) => Ok(t@),
        Err(e) => Err(e@),
    }
}

/// The version that a run of `yt-dlp --version` tells.
pub open spec fn version_told(bin: Seq<char>, run: ToolRun) -> Result<Seq<char>, Seq<char>> {
    match run {
        ToolRun::NotStarted { error } => Err(not_started_text(bin, error@)),
        ToolRun::Ended { success, stdout, stderr } => if success {
            Ok(printed(stdout@))
        } else {
            Err("yt-dlp --version failed: "@ + printed(stderr@))
        },
    }
}

fn not_started(bin: &str, error: &str) -> (r: String)
    ensures
        r@ == not_started_text(bin@, error@),
{
    let mut r: String = text::joined("failed to execute yt-dlp (", bin);
    r.append("): ");
    r.append(error);
    r
}

/// The present version, out of a run of the binary with [`version_arguments`].
pub fn current_version(bin: &str, run: &ToolRun) -> (r: Result<String, String>)
    ensures
        outcome(r) == version_told(bin@, *run),
{
    match run {
        ToolRun::NotStarted { error } => Err(not_started(bin, error.as_str())),
        ToolRun::Ended { success, stdout, stderr } => if *success {
            Ok(output(stdout))
        } else {
            let told: String = output(stderr);
            Err(text::joined("yt-dlp --version failed: ", told.as_str()))
        },
    }
}

/// The arguments that make the binary tell its version.
pub fn version_arguments() -> (r: Vec<&'static str>)
    ensures
        r@.len() == 1,
        r@[0]@ == "--version"@,
{
    let mut r: Vec<&'static str> = Vec::new();
    r.push("--version");
    r
}

/// The arguments that make the binary update itself to a channel.
pub fn update_arguments(channel: &str) -> (r: Vec<&'static str>)
    ensures
        r@.len() == 2,
        r@[0]@ == "--update-to"@,
        r@[1]@ == channel_text(channel@),
{
    let mut r: Vec<&'static str> = Vec::new();
    r.push("--update-to");
    r.push(normalize_channel(channel));
    r
}

/// What an update run tells: nothing where it went well, else why it did not.
pub open spec fn update_error(bin: Seq<char>, run: ToolRun) -> Option<Seq<char>> {
    match run {
        ToolRun::NotStarted { error } => Some(not_started_text(bin, error@)),
        ToolRun::Ended { success, stdout, stderr } => if success {
            None
        } else {
            Some("yt-dlp update failed: "@ + printed(stderr@))
        },
    }
}

/// Why an update failed, out of a run of the binary with [`update_arguments`].
pub fn failed_update(bin: &str, run: &ToolRun) -> (r: Option<String>)
    ensures
        text::held(r) == update_error(bin@, *run),
{
    match run {
        ToolRun::NotStarted { error } => Some(not_started(bin, error.as_str())),
        ToolRun::Ended { success, stdout, stderr } => if *success {
            None
        } else {
            let told: String = output(stderr);
            Some(text::joined("yt-dlp update failed: ", told.as_str()))
        },
    }
}

/// What an update comes to: the new version, or why there is none. The version is asked for
/// only after an update that went well.
pub open spec fn update_told(bin: Seq<char>, update: ToolRun, version: ToolRun) -> Result<
    Seq<char>,
    Seq<char>,
> {
    match update_error(bin, update) {
        Some(error) => Err(error),
        None => match version_told(bin, version) {
            Ok(v) => Ok(v),
            Err(e) => Err("yt-dlp updated but --version failed: "@ + e),
        },
    }
}

/// What an update comes to, out of its run and the run that verifies it.
pub fn run_update(bin: &str, update: &ToolRun, version: &ToolRun) -> (r: Result<String, String>)
    ensures
        outcome(r) == update_told(bin@, *update, *version),
{
    match failed_update(bin, update) {
        Some(error) => Err(error),
        None => verified_version(bin, version),
    }
}

/// The version after an update that went well.
pub fn verified_version(bin: &str, version: &ToolRun) -> (r: Result<String, String>)
    ensures
        outcome(r) == match version_told(bin@, *version) {
            Ok(v) => Ok::<Seq<char>, Seq<char>>(v),
            Err(e) => Err("yt-dlp updated but --version failed: "@ + e),
        },
{
    match current_version(bin, version) {
        Ok(v) => Ok(v),
        Err(e) => Err(text::joined("yt-dlp updated but --version failed: ", e.as_str())),
    }
}

/// The channel to update to: that of the settings, the default one where they could not be
/// read.
pub fn channel_to_follow(settings: Result<YtDlpSettings, String>) -> (r: String)
    ensures
        r@ == match settings {
            Ok(s) => s.channel@,
            Err(_) => "stable"@,
        },
{
    match settings {
        Ok(s) => s.channel,
        Err(_) => YtDlpSettings::default().channel,
    }
}

/// What is recorded of an update.
pub open spec fn record_text(result: Result<Seq<char>, Seq<char>>, channel: Seq<char>) -> Seq<
    char,
> {
    match result {
        Ok(version) => "Updated to "@ + version + " ("@ + channel_text(channel) + " channel)"@,
        Err(error) => "Update failed: "@ + error,
    }
}

/// Ends an update to a channel: its result, and what is recorded of it.
pub fn update_and_record(result: Result<String, String>, channel: &str) -> (r: (
    Result<String, String>,
    String,
))
    ensures
        r.0 == result,
        r.1@ == record_text(outcome(result), channel@),
{
    let record: String = match &result {
        Ok(version) => {
            let mut r: String = text::joined("Updated to ", version.as_str());
            r.append(" (");
            r.append(normalize_channel(channel));
            r.append(" channel)");
            r
        },
        Err(error) => text::joined("Update failed: ", error.as_str()),
    };
    (result, record)
}

} // verus!
