//! The settings record: its defaults, how a stored copy is taken up, which
//! paths it resolves to, and the report of what changed.

use vstd::prelude::*;
use crate::dirs::{resolve_or_fallback, Access, ResolvedDir};
use crate::table::{render_table, row_views, table};
use crate::text::{owned, same};

verus! {

/// Where the pieces of an installation live and which tools handle them.
#[derive(Debug, Clone)]
pub struct Settings {
    /// Base URL of the mirror that releases are fetched from.
    pub default_mirror: String,
    /// Directory for downloaded archives.
    pub cache_dir: String,
    /// Directory of the root filesystem.
    pub rootfs_dir: String,
    /// The sandbox handler, `proot` or `bwrap`.
    pub cmd_rootfs: String,
    /// The release channel, `latest-stable` or `edge`.
    pub release: String,
    /// Directory for build results; empty for the working directory.
    pub output_dir: String,
}

/// A `Settings` record with its texts as character sequences.
pub struct SettingsView {
    pub default_mirror: Seq<char>,
    pub cache_dir: Seq<char>,
    pub rootfs_dir: Seq<char>,
    pub cmd_rootfs: Seq<char>,
    pub release: Seq<char>,
    pub output_dir: Seq<char>,
}

impl View for Settings {
    type V = SettingsView;

    open spec fn view(&self) -> SettingsView {
        SettingsView {
            default_mirror: self.default_mirror@,
            cache_dir: self.cache_dir@,
            rootfs_dir: self.rootfs_dir@,
            cmd_rootfs: self.cmd_rootfs@,
            release: self.release@,
            output_dir: self.output_dir@,
        }
    }
}

/// The view of a settings record that may be absent.
pub open spec fn opt_settings(s: Option<Settings>) -> Option<SettingsView> {
    match s {
        Some(settings) => Some(settings@),
        None => None,
    }
}

pub const DEFAULT_MIRROR: &'static str = "https://dl-cdn.alpinelinux.org/alpine/";

pub const DEFAULT_HANDLER: &'static str = "proot";

pub const DEFAULT_RELEASE: &'static str = "latest-stable";

/// The cache directory below a home directory.
pub const CACHE_SUFFIX: &'static str = "/.cache/ALPack";

/// The rootfs directory below a home directory.
pub const ROOTFS_SUFFIX: &'static str = "/.ALPack";

/// The settings file below a home directory.
pub const CONFIG_SUFFIX: &'static str = "/.config/ALPack/config.toml";

/// The settings of a user who has chosen nothing, with home directory `home`.
pub open spec fn defaults(home: Seq<char>) -> SettingsView {
    SettingsView {
        default_mirror: DEFAULT_MIRROR@,
        cache_dir: home + CACHE_SUFFIX@,
        rootfs_dir: home + ROOTFS_SUFFIX@,
        cmd_rootfs: DEFAULT_HANDLER@,
        release: DEFAULT_RELEASE@,
        output_dir: Seq::empty(),
    }
}

pub fn default_mirror() -> (r: String)
    ensures
        r@ == DEFAULT_MIRROR@,
{
    owned(DEFAULT_MIRROR)
}

pub fn default_cache(home: &str) -> (r: String)
    ensures
        r@ == home@ + CACHE_SUFFIX@,
{
    owned(home).concat(CACHE_SUFFIX)
}

pub fn default_rootfs(home: &str) -> (r: String)
    ensures
        r@ == home@ + ROOTFS_SUFFIX@,
{
    owned(home).concat(ROOTFS_SUFFIX)
}

pub fn default_cmd_rootfs() -> (r: String)
    ensures
        r@ == DEFAULT_HANDLER@,
{
    owned(DEFAULT_HANDLER)
}

pub fn default_release() -> (r: String)
    ensures
        r@ == DEFAULT_RELEASE@,
{
    owned(DEFAULT_RELEASE)
}

pub fn default_output() -> (r: String)
    ensures
        r@ == Seq::<char>::empty(),
{
    String::new()
}

/// The path of the settings file of the user whose home directory is `home`.
pub fn config_path(home: &str) -> (r: String)
    ensures
        r@ == home@ + CONFIG_SUFFIX@,
{
    owned(home).concat(CONFIG_SUFFIX)
}

/// What was found where the settings are stored.
#[derive(Debug)]
pub enum StoredConfig {
    /// There is no file.
    Missing,
    /// There is a file and it could not be read.
    Unreadable,
    /// The file's text, and the record that the reader of the storage
    /// format made of it, if it could make one.
    Read { text: String, parsed: Option<Settings> },
}

/// Why defaults were used in place of the stored settings.
#[derive(Debug, Clone, Copy, PartialEq, Eq, Structural)]
pub enum LoadNotice {
    NotFound,
    Unreadable,
    Empty,
    Unparsable,
}

/// Settings ready for use, and what the caller owes the user and the disk.
#[derive(Debug)]
pub struct Loaded {
    pub settings: Settings,
    /// A warning to show, where the stored copy could not be used.
    pub notice: Option<LoadNotice>,
    /// Whether `settings` is to be written to storage now.
    pub persist: bool,
}

/// The start of every warning: the word in bold yellow.
pub const WARNING: &'static str = "\x1b[1;33mWarning\x1b[0m: ";

impl LoadNotice {
    /// What is said after the word "Warning"; for `Unreadable` the system's
    /// own description of the failure follows it.
    pub open spec fn wording(self) -> Seq<char> {
        match self {
            LoadNotice::NotFound => "Config file not found, creating a new one..."@,
            LoadNotice::Unreadable => "Failed to get metadata for config file: "@,
            LoadNotice::Empty => "config file is empty. Using default settings."@,
            LoadNotice::Unparsable => "Failed to parse config file. Using default settings."@,
        }
    }

    /// The warning to show. `detail` is the system's description of the
    /// failure; it is used for `Unreadable` only.
    pub fn message(&self, detail: &str) -> (r: String)
        ensures
            r@ == WARNING@ + self.wording() + (if *self == LoadNotice::Unreadable {
                detail@
            } else {
                Seq::empty()
            }),
    {
        let mut out = owned(WARNING);
        match self {
            LoadNotice::NotFound => {
                out.append("Config file not found, creating a new one...");
            },
            LoadNotice::Unreadable => {
                out.append("Failed to get metadata for config file: ");
                out.append(detail);
            },
            LoadNotice::Empty => {
                out.append("config file is empty. Using default settings.");
            },
            LoadNotice::Unparsable => {
                out.append("Failed to parse config file. Using default settings.");
            },
        }
        assert(out@ =~= WARNING@ + self.wording() + (if *self == LoadNotice::Unreadable {
            detail@
        } else {
            Seq::empty()
        }));
        out
    }
}

/// What loading yields for a file with this text: the stored record where
/// the text is not empty and could be read as one, else the defaults
/// together with the reason.
pub open spec fn loaded(home: Seq<char>, text: Seq<char>, parsed: Option<SettingsView>) -> (
    SettingsView,
    Option<LoadNotice>,
) {
    if text.len() == 0 {
        (defaults(home), Some(LoadNotice::Empty))
    } else {
        match parsed {
            Some(s) => (s, None),
            None => (defaults(home), Some(LoadNotice::Unparsable)),
        }
    }
}

/// What the report shows for an output directory that is not set.
pub const UNSET_OUTPUT: &'static str = "Current Directory or Home FallBack";

/// Bold red, for the value that is replaced.
pub const OLD_COLOUR: &'static str = "\x1b[1;31m";

/// Bold green, for the value that replaces it.
pub const NEW_COLOUR: &'static str = "\x1b[1;32m";

/// Back to the terminal's own colours.
pub const RESET_COLOUR: &'static str = "\x1b[0m";

/// The arrow between the old value and the new one.
pub const ARROW: &'static str = " -> ";

/// An output directory as the report shows it.
pub open spec fn shown_output(dir: Seq<char>) -> Seq<char> {
    if dir.len() == 0 {
        UNSET_OUTPUT@
    } else {
        dir
    }
}

/// A value as the report shows it beside its stored counterpart: the value
/// alone where both agree, else the stored one in red, an arrow and the new
/// one in green.
pub open spec fn change(old: Seq<char>, new: Seq<char>) -> Seq<char> {
    if old != new {
        OLD_COLOUR@ + old + RESET_COLOUR@ + ARROW@ + NEW_COLOUR@ + new + RESET_COLOUR@
    } else {
        new
    }
}

/// The rows of the report, one for each field in the order of the record.
/// Without a stored record each row shows the value in memory as it is.
pub open spec fn report_rows(mem: SettingsView, disk: Option<SettingsView>) -> Seq<
    (Seq<char>, Seq<char>),
> {
    match disk {
        Some(d) => seq![
            ("default_mirror"@, change(d.default_mirror, mem.default_mirror)),
            ("cache_dir"@, change(d.cache_dir, mem.cache_dir)),
            ("rootfs_dir"@, change(d.rootfs_dir, mem.rootfs_dir)),
            ("cmd_rootfs"@, change(d.cmd_rootfs, mem.cmd_rootfs)),
            ("release"@, change(d.release, mem.release)),
            ("output_dir"@, change(shown_output(d.output_dir), shown_output(mem.output_dir))),
        ],
        None => seq![
            ("default_mirror"@, mem.default_mirror),
            ("cache_dir"@, mem.cache_dir),
            ("rootfs_dir"@, mem.rootfs_dir),
            ("cmd_rootfs"@, mem.cmd_rootfs),
            ("release"@, mem.release),
            ("output_dir"@, mem.output_dir),
        ],
    }
}

/// The report of what differs between the settings in memory and the
/// stored ones, as a table.
pub open spec fn report(mem: SettingsView, disk: Option<SettingsView>) -> Seq<char> {
    table(report_rows(mem, disk))
}

/// The view of a borrowed settings record that may be absent.
pub open spec fn opt_settings_ref(s: Option<&Settings>) -> Option<SettingsView> {
    match s {
        Some(settings) => Some(settings@),
        None => None,
    }
}

/// An output directory as the report shows it.
fn output_cell(dir: &str) -> (r: String)
    ensures
        r@ == shown_output(dir@),
{
    if dir.unicode_len() == 0 {
        owned(UNSET_OUTPUT)
    } else {
        owned(dir)
    }
}

/// A value as the report shows it beside its stored counterpart.
fn change_cell(old: &str, new: &str) -> (r: String)
    ensures
        r@ == change(old@, new@),
{
    if same(old, new) {
        owned(new)
    } else {
        let mut out = owned(OLD_COLOUR);
        out.append(old);
        out.append(RESET_COLOUR);
        out.append(ARROW);
        out.append(NEW_COLOUR);
        out.append(new);
        out.append(RESET_COLOUR);
        out
    }
}

/// A file that is not empty and could be read as a record is taken as it
/// is, field for field: nothing is warned of and nothing is written back.
pub proof fn lemma_read_record_is_kept(home: Seq<char>, text: Seq<char>, stored: SettingsView)
    requires
        text.len() > 0,
    ensures
        loaded(home, text, Some(stored)) == (stored, None::<LoadNotice>),
{
}

impl Settings {
    /// The settings of a user who has chosen nothing.
    pub fn default(home: &str) -> (r: Settings)
        ensures
            r@ == defaults(home@),
    {
        Settings {
            default_mirror: default_mirror(),
            cache_dir: default_cache(home),
            rootfs_dir: default_rootfs(home),
            cmd_rootfs: default_cmd_rootfs(),
            release: default_release(),
            output_dir: default_output(),
        }
    }

    /// Takes up the stored settings, or falls back to the defaults.
    ///
    /// This never fails. The stored record is used where the file exists,
    /// is not empty and could be read as a record. In every other case the
    /// result holds the defaults for `home`, names the reason, and asks for
    /// the defaults to be stored.
    pub fn load_or_create(home: &str, found: StoredConfig) -> (r: Loaded)
        ensures
            match found {
                StoredConfig::Missing => {
                    &&& r.settings@ == defaults(home@)
                    &&& r.notice == Some(LoadNotice::NotFound)
                },
                StoredConfig::Unreadable => {
                    &&& r.settings@ == defaults(home@)
                    &&& r.notice == Some(LoadNotice::Unreadable)
                },
                StoredConfig::Read { text, parsed } => {
                    &&& r.settings@ == loaded(home@, text@, opt_settings(parsed)).0
                    &&& r.notice == loaded(home@, text@, opt_settings(parsed)).1
                },
            },
            r.persist == r.notice is Some,
    {
        match found {
            StoredConfig::Missing => Loaded {
                settings: Settings::default(home),
                notice: Some(LoadNotice::NotFound),
                persist: true,
            },
            StoredConfig::Unreadable => Loaded {
                settings: Settings::default(home),
                notice: Some(LoadNotice::Unreadable),
                persist: true,
            },
            StoredConfig::Read { text, parsed } => {
                if text.as_str().unicode_len() == 0 {
                    Loaded {
                        settings: Settings::default(home),
                        notice: Some(LoadNotice::Empty),
                        persist: true,
                    }
                } else {
                    match parsed {
                        Some(settings) => Loaded { settings, notice: None, persist: false },
                        None => Loaded {
                            settings: Settings::default(home),
                            notice: Some(LoadNotice::Unparsable),
                            persist: true,
                        },
                    }
                }
            },
        }
    }

    /// Reports, field by field, what differs between these settings and
    /// the stored ones. A field that differs is shown as `old -> new`; any
    /// other field, and every field where nothing is stored, by its value.
    pub fn show_config_changes(&self, on_disk: Option<&Settings>) -> (r: String)
        ensures
            r@ == report(self@, opt_settings_ref(on_disk)),
    {
        let mut rows: Vec<(String, String)> = Vec::new();
        match on_disk {
            Some(d) => {
                rows.push(
                    (
                        owned("default_mirror"),
                        change_cell(d.default_mirror.as_str(), self.default_mirror.as_str()),
                    ),
                );
                rows.push(
                    (owned("cache_dir"), change_cell(d.cache_dir.as_str(), self.cache_dir.as_str())),
                );
                rows.push(
                    (
                        owned("rootfs_dir"),
                        change_cell(d.rootfs_dir.as_str(), self.rootfs_dir.as_str()),
                    ),
                );
                rows.push(
                    (
                        owned("cmd_rootfs"),
                        change_cell(d.cmd_rootfs.as_str(), self.cmd_rootfs.as_str()),
                    ),
                );
                rows.push(
                    (owned("release"), change_cell(d.release.as_str(), self.release.as_str())),
                );
                let old_output = output_cell(d.output_dir.as_str());
                let new_output = output_cell(self.output_dir.as_str());
                rows.push(
                    (owned("output_dir"), change_cell(old_output.as_str(), new_output.as_str())),
                );
            },
            None => {
                rows.push((owned("default_mirror"), self.default_mirror.clone()));
                rows.push((owned("cache_dir"), self.cache_dir.clone()));
                rows.push((owned("rootfs_dir"), self.rootfs_dir.clone()));
                rows.push((owned("cmd_rootfs"), self.cmd_rootfs.clone()));
                rows.push((owned("release"), self.release.clone()));
                rows.push((owned("output_dir"), self.output_dir.clone()));
            },
        }
        assert(row_views(rows@) =~= report_rows(self@, opt_settings_ref(on_disk)));
        render_table(&rows)
    }

    /// The directory that results are written to: the working directory
    /// `current` where it can be listed, the home directory where listing it
    /// was denied, and none where listing failed otherwise.
    pub fn set_output_dir(current: String, listing: Access, home: &str) -> (r: Option<ResolvedDir>)
        ensures
            match listing {
                Access::Granted => r is Some && r->Some_0.path@ == current@
                    && !r->Some_0.used_fallback,
                Access::Denied => r is Some && r->Some_0.path@ == home@ && r->Some_0.used_fallback,
                Access::Failed => r is None,
            },
    {
        resolve_or_fallback(current, home, listing)
    }

    /// The rootfs directory in force: the override from the environment
    /// where there is one, else the rootfs directory of these settings.
    pub open spec fn rootfs_in_force(&self, env_rootfs: Option<String>) -> Seq<char> {
        match env_rootfs {
            Some(dir) => dir@,
            None => self.rootfs_dir@,
        }
    }

    /// The cache directory in force: the override from the environment
    /// where there is one, else the cache directory of these settings.
    pub open spec fn cache_in_force(&self, env_cache: Option<String>) -> Seq<char> {
        match env_cache {
            Some(dir) => dir@,
            None => self.cache_dir@,
        }
    }

    /// The rootfs directory in force: the override from the environment
    /// where there is one, else the directory of these settings.
    pub fn set_rootfs(&self, env_rootfs: Option<String>) -> (r: String)
        ensures
            r@ == self.rootfs_in_force(env_rootfs),
    {
        match env_rootfs {
            Some(dir) => dir,
            None => self.rootfs_dir.clone(),
        }
    }

    /// The cache directory in force: the override from the environment
    /// where there is one, else the cache directory of these settings.
    pub fn set_cache_dir(&self, env_cache: Option<String>) -> (r: String)
        ensures
            r@ == self.cache_in_force(env_cache),
    {
        match env_cache {
            Some(dir) => dir,
            None => self.cache_dir.clone(),
        }
    }
}

} // verus!
