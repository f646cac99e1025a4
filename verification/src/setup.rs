//! The `setup` subcommand: its options, the check of the target directory,
//! and the start of the provisioning pipeline.

use vstd::prelude::*;
use crate::dirs::DirFallback;
use crate::error::{UsageError, UsageErrorView};
use crate::extract::{Extraction, ExtractStage};
use crate::fetch::{Download, FetchStage};
use crate::mirror::{chosen, index_url, Mirror, EDGE};
use crate::provision::{Provision, SetupAction, SetupStage};
use crate::settings::{Settings, WARNING};
use crate::text::{opt_text, owned, same, starts_with, texts};
use crate::utils::{_parse_key_value, key_value};
use crate::version::{key_of_captures, opt_key, VersionKey, VERSION_PATTERN};

verus! {

/// A request to provision a rootfs.
#[derive(Debug)]
pub struct Setup {
    /// The name the program was started under.
    pub name: String,
    /// The options.
    pub remaining_args: Vec<String>,
    /// The rootfs directory in force, which serves as fallback for
    /// directories that are denied; known once `run` has been called.
    pub def_rootfs: Option<String>,
}

/// What the options of `setup` come to.
#[derive(Debug)]
pub struct SetupOptions {
    /// The mirror to use in place of the configured one.
    pub use_mirror: Option<String>,
    pub cache_dir: String,
    pub rootfs_dir: String,
    /// Keep no cache: download to a temporary directory and remove it.
    pub no_cache: bool,
    /// Provision even where the target directory exists.
    pub reinstall: bool,
    /// Use the edge channel.
    pub edge: bool,
    /// Leave out the toolchain.
    pub minimal: bool,
}

/// `SetupOptions` with its texts as character sequences.
pub struct SetupOptionsView {
    pub use_mirror: Option<Seq<char>>,
    pub cache_dir: Seq<char>,
    pub rootfs_dir: Seq<char>,
    pub no_cache: bool,
    pub reinstall: bool,
    pub edge: bool,
    pub minimal: bool,
}

impl View for SetupOptions {
    type V = SetupOptionsView;

    open spec fn view(&self) -> SetupOptionsView {
        SetupOptionsView {
            use_mirror: opt_text(self.use_mirror),
            cache_dir: self.cache_dir@,
            rootfs_dir: self.rootfs_dir@,
            no_cache: self.no_cache,
            reinstall: self.reinstall,
            edge: self.edge,
            minimal: self.minimal,
        }
    }
}

/// The subcommand that errors are reported under.
pub const SETUP: &'static str = "setup";

/// The cache directory of a run that keeps no cache.
pub const TEMPORARY_CACHE: &'static str = "/tmp/ALPack_cache";

/// A switch among the options.
#[derive(Debug, Clone, Copy, PartialEq, Eq, Structural)]
pub enum Switch {
    NoCache,
    Reinstall,
    Edge,
    Minimal,
}

/// What an option with a value sets.
#[derive(Debug, Clone, Copy, PartialEq, Eq, Structural)]
pub enum Slot {
    Mirror,
    Cache,
    Rootfs,
}

/// What an argument asks for.
#[derive(Debug, Clone, Copy, PartialEq, Eq, Structural)]
pub enum Meaning {
    /// Turn the switch on.
    On(Switch),
    /// Set the slot to the value behind the equals sign.
    Inline(Slot),
    /// Set the slot to the argument that follows.
    Spaced(Slot),
    /// Nothing that is known.
    Unknown,
}

/// What the argument `arg` asks for.
pub open spec fn meaning(arg: Seq<char>) -> Meaning {
    if arg == "--no-cache"@ {
        Meaning::On(Switch::NoCache)
    } else if arg == "-r"@ || arg == "--reinstall"@ {
        Meaning::On(Switch::Reinstall)
    } else if arg == "--edge"@ {
        Meaning::On(Switch::Edge)
    } else if arg == "--minimal"@ {
        Meaning::On(Switch::Minimal)
    } else if "--mirror="@.is_prefix_of(arg) {
        Meaning::Inline(Slot::Mirror)
    } else if arg == "--mirror"@ {
        Meaning::Spaced(Slot::Mirror)
    } else if "--cache="@.is_prefix_of(arg) {
        Meaning::Inline(Slot::Cache)
    } else if arg == "--cache"@ {
        Meaning::Spaced(Slot::Cache)
    } else if "--rootfs="@.is_prefix_of(arg) {
        Meaning::Inline(Slot::Rootfs)
    } else if arg == "-R"@ || arg == "--rootfs"@ {
        Meaning::Spaced(Slot::Rootfs)
    } else {
        Meaning::Unknown
    }
}

/// The kind of value that a slot takes, as error messages name it.
pub open spec fn value_kind(slot: Slot) -> Seq<char> {
    match slot {
        Slot::Mirror => "url"@,
        _ => "directory"@,
    }
}

/// The options with the switch turned on.
pub open spec fn with_switch(o: SetupOptionsView, switch: Switch) -> SetupOptionsView {
    match switch {
        Switch::NoCache => SetupOptionsView { no_cache: true, ..o },
        Switch::Reinstall => SetupOptionsView { reinstall: true, ..o },
        Switch::Edge => SetupOptionsView { edge: true, ..o },
        Switch::Minimal => SetupOptionsView { minimal: true, ..o },
    }
}

/// The options with the slot set to `value`.
pub open spec fn with_slot(o: SetupOptionsView, slot: Slot, value: Seq<char>) -> SetupOptionsView {
    match slot {
        Slot::Mirror => SetupOptionsView { use_mirror: Some(value), ..o },
        Slot::Cache => SetupOptionsView { cache_dir: value, ..o },
        Slot::Rootfs => SetupOptionsView { rootfs_dir: value, ..o },
    }
}

/// The argument at index `i`, or the empty text where the list ends before.
pub open spec fn arg_or_empty(args: Seq<Seq<char>>, i: int) -> Seq<char> {
    if 0 <= i < args.len() {
        args[i]
    } else {
        Seq::empty()
    }
}

/// The options after the arguments from index `i` on were applied to `o`,
/// from left to right; or the first error met on the way.
pub open spec fn applied(args: Seq<Seq<char>>, i: int, o: SetupOptionsView) -> Result<
    SetupOptionsView,
    UsageErrorView,
>
    decreases args.len() - i,
{
    if i < 0 || i >= args.len() {
        Ok(o)
    } else {
        match meaning(args[i]) {
            Meaning::On(switch) => applied(args, i + 1, with_switch(o, switch)),
            Meaning::Inline(slot) => match key_value(SETUP@, value_kind(slot), args[i], None) {
                Ok(value) => applied(args, i + 1, with_slot(o, slot, value)),
                Err(e) => Err(e),
            },
            Meaning::Spaced(slot) => match key_value(
                SETUP@,
                value_kind(slot),
                args[i],
                Some(arg_or_empty(args, i + 1)),
            ) {
                Ok(value) => applied(args, i + 2, with_slot(o, slot, value)),
                Err(e) => Err(e),
            },
            Meaning::Unknown => Err(UsageErrorView::InvalidArgument { sub: SETUP@, arg: args[i] }),
        }
    }
}

/// The options before any argument is applied.
pub open spec fn initial_options(cache_dir: Seq<char>, rootfs_dir: Seq<char>) -> SetupOptionsView {
    SetupOptionsView {
        use_mirror: None,
        cache_dir,
        rootfs_dir,
        no_cache: false,
        reinstall: false,
        edge: false,
        minimal: false,
    }
}

/// Reads what an argument asks for.
fn parse(arg: &str) -> (r: Meaning)
    ensures
        r == meaning(arg@),
{
    if same(arg, "--no-cache") {
        Meaning::On(Switch::NoCache)
    } else if same(arg, "-r") || same(arg, "--reinstall") {
        Meaning::On(Switch::Reinstall)
    } else if same(arg, "--edge") {
        Meaning::On(Switch::Edge)
    } else if same(arg, "--minimal") {
        Meaning::On(Switch::Minimal)
    } else if starts_with(arg, "--mirror=") {
        Meaning::Inline(Slot::Mirror)
    } else if same(arg, "--mirror") {
        Meaning::Spaced(Slot::Mirror)
    } else if starts_with(arg, "--cache=") {
        Meaning::Inline(Slot::Cache)
    } else if same(arg, "--cache") {
        Meaning::Spaced(Slot::Cache)
    } else if starts_with(arg, "--rootfs=") {
        Meaning::Inline(Slot::Rootfs)
    } else if same(arg, "-R") || same(arg, "--rootfs") {
        Meaning::Spaced(Slot::Rootfs)
    } else {
        Meaning::Unknown
    }
}

/// The kind of value that a slot takes.
fn kind_of(slot: Slot) -> (r: &'static str)
    ensures
        r@ == value_kind(slot),
{
    match slot {
        Slot::Mirror => "url",
        _ => "directory",
    }
}

/// Turns the switch on.
fn set_switch(opts: &mut SetupOptions, switch: Switch)
    ensures
        final(opts)@ == with_switch(old(opts)@, switch),
{
    match switch {
        Switch::NoCache => {
            opts.no_cache = true;
        },
        Switch::Reinstall => {
            opts.reinstall = true;
        },
        Switch::Edge => {
            opts.edge = true;
        },
        Switch::Minimal => {
            opts.minimal = true;
        },
    }
}

/// Sets the slot to `value`.
fn set_slot(opts: &mut SetupOptions, slot: Slot, value: String)
    ensures
        final(opts)@ == with_slot(old(opts)@, slot, value@),
{
    match slot {
        Slot::Mirror => {
            opts.use_mirror = Some(value);
        },
        Slot::Cache => {
            opts.cache_dir = value;
        },
        Slot::Rootfs => {
            opts.rootfs_dir = value;
        },
    }
}

/// How far the check of a target directory has come.
#[derive(Debug, Clone, Copy, PartialEq, Eq, Structural)]
pub enum CheckStage {
    /// Is the target a directory?
    Target,
    /// Does the parent exist, and is it not read-only?
    Parent,
    /// Can a file be created in the parent?
    Write,
    /// Can that file be removed again?
    Remove,
    /// Is the fallback a directory?
    Fallback,
    /// The target may be provisioned.
    Accepted,
    /// A rootfs is there already.
    Rejected,
    /// The probe file could not be removed.
    Failed,
}

/// What the caller is to find out next, or the verdict.
#[derive(Debug, Clone, Copy, PartialEq, Eq, Structural)]
pub enum CheckAction {
    /// Tell whether the parent directory exists and is not read-only.
    ProbeParent,
    /// Try to create the probe file in the parent; tell whether it worked.
    TryWrite,
    /// Remove the probe file; tell whether it worked.
    RemoveProbe,
    /// Tell whether the fallback is a directory.
    ProbeFallback,
    /// Warn that the parent cannot be written to, then tell whether the
    /// fallback is a directory.
    WarnAndProbeFallback,
    /// The target may be provisioned.
    Accept,
    /// A rootfs is there already; reinstalling must be asked for.
    Reject,
    /// The check itself failed.
    Abort,
}

/// The check of a target directory under way. The first thing to find out
/// is whether `target` is a directory.
#[derive(Debug)]
pub struct TargetCheck {
    pub target: String,
    /// The parent directory of the target, where it has one.
    pub parent: Option<String>,
    pub fallback: String,
    pub stage: CheckStage,
}

/// The name of the file that probes a directory for write access.
pub const PROBE_FILE: &'static str = ".permission_test";

/// The transition of the check: from a stage and an answer to the next
/// stage and what to do. The target is refused where it is a directory,
/// and where the parent cannot take it and the fallback is a directory.
pub open spec fn check_next(stage: CheckStage, has_parent: bool, answer: bool) -> (
    CheckStage,
    CheckAction,
) {
    match stage {
        CheckStage::Target => if answer {
            (CheckStage::Rejected, CheckAction::Reject)
        } else if has_parent {
            (CheckStage::Parent, CheckAction::ProbeParent)
        } else {
            (CheckStage::Fallback, CheckAction::ProbeFallback)
        },
        CheckStage::Parent => if answer {
            (CheckStage::Write, CheckAction::TryWrite)
        } else {
            (CheckStage::Fallback, CheckAction::ProbeFallback)
        },
        CheckStage::Write => if answer {
            (CheckStage::Remove, CheckAction::RemoveProbe)
        } else {
            (CheckStage::Fallback, CheckAction::WarnAndProbeFallback)
        },
        CheckStage::Remove => if answer {
            (CheckStage::Accepted, CheckAction::Accept)
        } else {
            (CheckStage::Failed, CheckAction::Abort)
        },
        CheckStage::Fallback => if answer {
            (CheckStage::Rejected, CheckAction::Reject)
        } else {
            (CheckStage::Accepted, CheckAction::Accept)
        },
        CheckStage::Accepted => (CheckStage::Accepted, CheckAction::Accept),
        CheckStage::Rejected => (CheckStage::Rejected, CheckAction::Reject),
        CheckStage::Failed => (CheckStage::Failed, CheckAction::Abort),
    }
}

/// A target that is a directory is refused at once, whatever else holds.
pub proof fn lemma_existing_target_refused(has_parent: bool)
    ensures
        check_next(CheckStage::Target, has_parent, true) == (
            CheckStage::Rejected,
            CheckAction::Reject,
        ),
{
}

/// A verdict stands: no answer changes it.
pub proof fn lemma_verdict_stands(stage: CheckStage, has_parent: bool, answer: bool)
    requires
        stage == CheckStage::Accepted || stage == CheckStage::Rejected || stage
            == CheckStage::Failed,
    ensures
        check_next(stage, has_parent, answer).0 == stage,
{
}

/// What is said of a target that is provisioned already.
pub open spec fn already_available_text(target: Seq<char>) -> Seq<char> {
    "Rootfs directory "@ + target + " is already available.\nUse [-r|--reinstall] to reinstall it."@
}

/// What is said, after the word "Warning", of a parent that cannot be
/// written to.
pub open spec fn write_denied_wording(target: Seq<char>) -> Seq<char> {
    "Write access denied for '"@ + target + "'. Falling back to the default location..."@
}

impl TargetCheck {
    /// The message for a target that was refused.
    pub fn already_available(&self) -> (r: String)
        ensures
            r@ == already_available_text(self.target@),
    {
        let mut out = owned("Rootfs directory ");
        out.append(self.target.as_str());
        out.append(" is already available.\nUse [-r|--reinstall] to reinstall it.");
        out
    }

    /// The warning for a parent that cannot be written to.
    pub fn write_denied_warning(&self) -> (r: String)
        ensures
            r@ == WARNING@ + write_denied_wording(self.target@),
    {
        let mut out = owned(WARNING);
        out.append("Write access denied for '");
        out.append(self.target.as_str());
        out.append("'. Falling back to the default location...");
        out
    }

    /// Takes the answer to what was asked last and says what is next.
    pub fn step(&mut self, answer: bool) -> (r: CheckAction)
        ensures
            final(self).target == old(self).target,
            final(self).parent == old(self).parent,
            final(self).fallback == old(self).fallback,
            (final(self).stage, r) == check_next(
                old(self).stage,
                old(self).parent is Some,
                answer,
            ),
    {
        let has_parent = self.parent.is_some();
        let (stage, action) = match self.stage {
            CheckStage::Target => if answer {
                (CheckStage::Rejected, CheckAction::Reject)
            } else if has_parent {
                (CheckStage::Parent, CheckAction::ProbeParent)
            } else {
                (CheckStage::Fallback, CheckAction::ProbeFallback)
            },
            CheckStage::Parent => if answer {
                (CheckStage::Write, CheckAction::TryWrite)
            } else {
                (CheckStage::Fallback, CheckAction::ProbeFallback)
            },
            CheckStage::Write => if answer {
                (CheckStage::Remove, CheckAction::RemoveProbe)
            } else {
                (CheckStage::Fallback, CheckAction::WarnAndProbeFallback)
            },
            CheckStage::Remove => if answer {
                (CheckStage::Accepted, CheckAction::Accept)
            } else {
                (CheckStage::Failed, CheckAction::Abort)
            },
            CheckStage::Fallback => if answer {
                (CheckStage::Rejected, CheckAction::Reject)
            } else {
                (CheckStage::Accepted, CheckAction::Accept)
            },
            CheckStage::Accepted => (CheckStage::Accepted, CheckAction::Accept),
            CheckStage::Rejected => (CheckStage::Rejected, CheckAction::Reject),
            CheckStage::Failed => (CheckStage::Failed, CheckAction::Abort),
        };
        self.stage = stage;
        action
    }
}

/// The cache directory of a run: the temporary one where no cache is
/// kept, else the one the options name.
pub open spec fn effective_cache(o: SetupOptionsView) -> Seq<char> {
    if o.no_cache {
        TEMPORARY_CACHE@
    } else {
        o.cache_dir
    }
}

/// The mirror of a run: the one the options name, if they name one, else
/// the configured default.
pub open spec fn effective_mirror(o: SetupOptionsView, sett: Settings) -> Seq<char> {
    if chosen(o.use_mirror) {
        o.use_mirror->Some_0
    } else {
        sett.default_mirror@
    }
}

/// The release channel of a run: edge where the options ask for it, else
/// the configured one.
pub open spec fn effective_release(o: SetupOptionsView, sett: Settings) -> Seq<char> {
    if o.edge {
        EDGE@
    } else {
        sett.release@
    }
}

impl Setup {
    pub fn new(name: String, remaining_args: Vec<String>) -> (r: Setup)
        ensures
            r.name == name,
            r.remaining_args == remaining_args,
            r.def_rootfs is None,
    {
        Setup { name, remaining_args, def_rootfs: None }
    }

    /// Reads the options, from left to right, starting from the given
    /// directories. The first option that is unknown or lacks its value
    /// ends the reading with an error.
    pub fn options(&self, cache_dir: String, rootfs_dir: String) -> (r: Result<
        SetupOptions,
        UsageError,
    >)
        ensures
            match applied(texts(self.remaining_args@), 0, initial_options(cache_dir@, rootfs_dir@)) {
                Ok(o) => r is Ok && r->Ok_0@ == o,
                Err(e) => r is Err && r->Err_0@ == e,
            },
    {
        let ghost args = texts(self.remaining_args@);
        let ghost start = initial_options(cache_dir@, rootfs_dir@);
        let n = self.remaining_args.len();
        let mut opts = SetupOptions {
            use_mirror: None,
            cache_dir,
            rootfs_dir,
            no_cache: false,
            reinstall: false,
            edge: false,
            minimal: false,
        };
        let mut i: usize = 0;
        while i < n
            invariant
                i <= n,
                n == self.remaining_args@.len(),
                args == texts(self.remaining_args@),
                start == initial_options(cache_dir@, rootfs_dir@),
                applied(args, 0, start) == applied(args, i as int, opts@),
            decreases n - i,
        {
            let arg = self.remaining_args[i].clone();
            match parse(arg.as_str()) {
                Meaning::On(switch) => {
                    set_switch(&mut opts, switch);
                    i = i + 1;
                },
                Meaning::Inline(slot) => {
                    match _parse_key_value(SETUP, kind_of(slot), arg, None) {
                        Ok(found) => {
                            match found {
                                Some(value) => {
                                    set_slot(&mut opts, slot, value);
                                },
                                None => {},
                            }
                            i = i + 1;
                        },
                        Err(e) => {
                            return Err(e);
                        },
                    }
                },
                Meaning::Spaced(slot) => {
                    let next = if i + 1 < n {
                        self.remaining_args[i + 1].clone()
                    } else {
                        String::new()
                    };
                    match _parse_key_value(SETUP, kind_of(slot), arg, Some(next)) {
                        Ok(found) => {
                            match found {
                                Some(value) => {
                                    set_slot(&mut opts, slot, value);
                                },
                                None => {},
                            }
                            i = i + 2;
                        },
                        Err(e) => {
                            return Err(e);
                        },
                    }
                },
                Meaning::Unknown => {
                    return Err(UsageError::InvalidArgument { sub: owned(SETUP), arg });
                },
            }
        }
        Ok(opts)
    }

    /// Prepares the provisioning run for the architecture `arch`.
    ///
    /// The rootfs directory in force (`env_rootfs`, else the configured
    /// one) is remembered as the fallback directory. The options are read,
    /// starting from the cache directory in force (`env_cache`, else the
    /// configured cache directory) and that rootfs directory. Mirror and
    /// channel are settled and the address of the index is composed. The
    /// pipeline that is returned is at its first stage: the check of the
    /// target, or the fetch of the index where reinstalling was asked for.
    pub fn run(
        &mut self,
        sett: &Settings,
        env_rootfs: Option<String>,
        env_cache: Option<String>,
        arch: &str,
    ) -> (r: Result<Provision, UsageError>)
        ensures
            final(self).name == old(self).name,
            final(self).remaining_args == old(self).remaining_args,
            opt_text(final(self).def_rootfs) == Some(sett.rootfs_in_force(env_rootfs)),
            match applied(
                texts(old(self).remaining_args@),
                0,
                initial_options(sett.cache_in_force(env_cache), sett.rootfs_in_force(env_rootfs)),
            ) {
                Ok(o) => {
                    &&& r is Ok
                    &&& r->Ok_0.name@ == old(self).name@
                    &&& r->Ok_0.arch@ == arch@
                    &&& r->Ok_0.no_cache == o.no_cache
                    &&& r->Ok_0.minimal == o.minimal
                    &&& r->Ok_0.reinstall == o.reinstall
                    &&& r->Ok_0.cache_dir@ == effective_cache(o)
                    &&& r->Ok_0.rootfs_dir@ == o.rootfs_dir
                    &&& r->Ok_0.def_rootfs@ == sett.rootfs_in_force(env_rootfs)
                    &&& opt_text(r->Ok_0.mirror.mirror) == Some(effective_mirror(o, *sett))
                    &&& opt_text(r->Ok_0.mirror.release) == Some(effective_release(o, *sett))
                    &&& r->Ok_0.index_url@ == index_url(
                        effective_mirror(o, *sett),
                        effective_release(o, *sett),
                        arch@,
                    )
                    &&& r->Ok_0.entry is None
                    &&& r->Ok_0.archive_dir@.len() == 0
                    &&& r->Ok_0.dest_rootfs@.len() == 0
                    &&& r->Ok_0.stage == (if o.reinstall {
                        SetupStage::Index
                    } else {
                        SetupStage::Validate
                    })
                },
                Err(e) => r is Err && r->Err_0@ == e,
            },
    {
        let cache_dir = sett.set_cache_dir(env_cache);
        let rootfs_dir = sett.set_rootfs(env_rootfs);
        self.def_rootfs = Some(rootfs_dir.clone());
        let opts = match self.options(cache_dir, rootfs_dir.clone()) {
            Ok(o) => o,
            Err(e) => {
                return Err(e);
            },
        };
        let cache = if opts.no_cache {
            owned(TEMPORARY_CACHE)
        } else {
            opts.cache_dir
        };
        let release = if opts.edge {
            Some(owned(EDGE))
        } else {
            None
        };
        proof {
            reveal_strlit("edge");
        }
        let mut mirror = Mirror::new(opts.use_mirror, release);
        mirror.run(sett);
        let url = mirror.get_mirror(arch);
        Ok(
            Provision {
                name: self.name.clone(),
                arch: owned(arch),
                no_cache: opts.no_cache,
                minimal: opts.minimal,
                reinstall: opts.reinstall,
                cache_dir: cache,
                rootfs_dir: opts.rootfs_dir,
                def_rootfs: rootfs_dir,
                mirror,
                index_url: url,
                stage: if opts.reinstall {
                    SetupStage::Index
                } else {
                    SetupStage::Validate
                },
                entry: None,
                archive_dir: String::new(),
                dest_rootfs: String::new(),
            },
        )
    }

    /// Starts the download of `url` into the file `filename` of the
    /// directory `dest`; the rootfs directory in force is the fallback.
    pub fn download_file(&self, url: String, dest: String, filename: String) -> (r: Download)
        requires
            self.def_rootfs is Some,
        ensures
            r.url@ == url@,
            r.filename@ == filename@,
            r.dir.target@ == dest@,
            r.dir.fallback@ == self.def_rootfs->Some_0@,
            !r.dir.on_fallback,
            r.stage == FetchStage::Directory,
            r.total == 0,
    {
        match &self.def_rootfs {
            Some(fallback) => Download::new(url, dest, fallback.clone(), filename),
            None => Download::new(url, dest, String::new(), filename),
        }
    }

    /// Starts the extraction of the archive `file_path` into the directory
    /// `destination`; the rootfs directory in force is the fallback.
    pub fn extract_tar_gz(&self, file_path: String, destination: String) -> (r: Extraction)
        requires
            self.def_rootfs is Some,
        ensures
            r.archive@ == file_path@,
            r.dir.target@ == destination@,
            r.dir.fallback@ == self.def_rootfs->Some_0@,
            !r.dir.on_fallback,
            r.stage == ExtractStage::Directory,
            r.data@.len() == 0,
    {
        match &self.def_rootfs {
            Some(fallback) => Extraction::new(file_path, destination, fallback.clone()),
            None => Extraction::new(file_path, destination, String::new()),
        }
    }

    /// Reads a version string into its key; `None` for a text that is no
    /// version.
    pub fn parse_version_key(&self, link_contain_version: &str) -> (r: Option<VersionKey>)
        ensures
            opt_key(r) == key_of_captures(
                crate::pattern::regex_captures(VERSION_PATTERN@, link_contain_version@),
            ),
    {
        crate::version::parse_version_key(link_contain_version)
    }

    /// Starts settling on the directory `target`; the rootfs directory in
    /// force is the fallback.
    pub fn create_dir_with_fallback(&self, target: String) -> (r: DirFallback)
        requires
            self.def_rootfs is Some,
        ensures
            r.target@ == target@,
            r.fallback@ == self.def_rootfs->Some_0@,
            !r.on_fallback,
    {
        match &self.def_rootfs {
            Some(fallback) => DirFallback::new(target, fallback.clone()),
            None => DirFallback::new(target, String::new()),
        }
    }

    /// Starts the check whether `target`, whose parent directory is
    /// `parent`, may be provisioned; the rootfs directory in force is the
    /// fallback.
    pub fn test_valid_directory(&self, target: &str, parent: Option<String>) -> (r: TargetCheck)
        requires
            self.def_rootfs is Some,
        ensures
            r.target@ == target@,
            r.parent == parent,
            r.fallback@ == self.def_rootfs->Some_0@,
            r.stage == CheckStage::Target,
    {
        let fallback = match &self.def_rootfs {
            Some(dir) => dir.clone(),
            None => String::new(),
        };
        TargetCheck { target: owned(target), parent, fallback, stage: CheckStage::Target }
    }
}

} // verus!
