//! The provisioning pipeline.
//!
//! The stages follow one another: check the target, fetch the index,
//! select the latest archive, download it, extract it, remove a temporary
//! cache, write the repository list, refresh the package index, install the
//! toolchain. The library decides and the caller acts: `Provision::step`
//! takes the report of what the last action came to and answers with the
//! next action. The first failure ends the run.

use vstd::prelude::*;
use crate::index::{
    index_verdict, opt_candidate, select_latest, CandidateEntry, CandidateView, IndexError,
};
use crate::mirror::{repository_text, Mirror};
use crate::text::{join_path, opt_text, owned, path_below};

verus! {

/// The stages of the pipeline. The stage names what the caller is busy
/// with.
#[derive(Debug, Clone, Copy, PartialEq, Eq, Structural)]
pub enum SetupStage {
    Validate,
    Index,
    Download,
    Extract,
    Cleanup,
    Manifest,
    Update,
    Toolchain,
    Done,
    Failed,
}

/// Why a run was given up.
#[derive(Debug, Clone, Copy, PartialEq, Eq, Structural)]
pub enum SetupError {
    /// The target holds a rootfs already and reinstalling was not asked for.
    AlreadyProvisioned,
    /// The index offers no archive for the architecture.
    NoImage,
    /// The index could not be searched.
    Index(IndexError),
    /// The action of this stage failed.
    Step(SetupStage),
    /// The caller reported something that the stage does not wait for.
    OutOfTurn,
}

/// What the caller is to do next.
#[derive(Debug, Clone, Copy, PartialEq, Eq, Structural)]
pub enum SetupAction {
    /// Check whether the directory `rootfs_dir` may be provisioned.
    ValidateTarget,
    /// Fetch the page at `index_url`.
    FetchIndex,
    /// Download `archive_url()` into the file `archive_name()` of the
    /// directory `cache_dir`.
    Download,
    /// Extract the archive `archive_path()` into the directory `rootfs_dir`.
    Extract,
    /// Remove the directory `cache_dir` with all that is in it.
    RemoveCache,
    /// Write `repositories()` to the file `repositories_path()`.
    WriteRepositories,
    /// Run `UPDATE_COMMAND` inside `dest_rootfs`.
    UpdateIndex,
    /// Run `TOOLCHAIN_COMMAND` inside `dest_rootfs`.
    InstallToolchain,
    /// Nothing more: the rootfs is ready.
    Finish,
    /// Nothing more: the run failed.
    Abort(SetupError),
}

/// What the caller reports.
#[derive(Debug)]
pub enum SetupEvent {
    /// The check of the target is over; `true` where it may be provisioned.
    Validated(bool),
    /// The text of the index page.
    Index(String),
    /// The archive is in this directory.
    Downloaded(String),
    /// The tree is in this directory.
    Extracted(String),
    /// The action of the stage, which yields nothing, is done.
    Completed,
    /// The action of the stage failed.
    Failed,
}

/// The command that refreshes the package index.
pub const UPDATE_COMMAND: &'static str = "apk update";

/// The command that installs the toolchain.
pub const TOOLCHAIN_COMMAND: &'static str = "apk add alpine-sdk autoconf automake cmake go";

/// Where the repository list lives inside a rootfs.
pub const REPOSITORIES_FILE: &'static str = "etc/apk/repositories";

/// What is said when the index offers no archive.
pub const NO_IMAGE: &'static str = "No alpine-minirootfs files found";

/// A provisioning run.
#[derive(Debug)]
pub struct Provision {
    /// The name the program was started under.
    pub name: String,
    pub arch: String,
    pub no_cache: bool,
    pub minimal: bool,
    pub reinstall: bool,
    pub cache_dir: String,
    pub rootfs_dir: String,
    /// The fallback for directories that are denied.
    pub def_rootfs: String,
    pub mirror: Mirror,
    pub index_url: String,
    pub stage: SetupStage,
    /// The archive that was selected, once the index was searched.
    pub entry: Option<CandidateEntry>,
    /// The directory that holds the archive, once it was downloaded.
    pub archive_dir: String,
    /// The directory that holds the tree, once it was extracted.
    pub dest_rootfs: String,
}

/// What steps change of a run.
pub struct Progress {
    pub stage: SetupStage,
    pub entry: Option<CandidateView>,
    pub archive_dir: Seq<char>,
    pub dest_rootfs: Seq<char>,
}

/// Where the pipeline goes after the tree was extracted, or after the
/// temporary cache was removed.
pub open spec fn after_extract(cleanup: bool) -> (SetupStage, SetupAction) {
    if cleanup {
        (SetupStage::Cleanup, SetupAction::RemoveCache)
    } else {
        (SetupStage::Manifest, SetupAction::WriteRepositories)
    }
}

/// Where the pipeline goes after the package index was refreshed.
pub open spec fn after_update(minimal: bool) -> (SetupStage, SetupAction) {
    if minimal {
        (SetupStage::Done, SetupAction::Finish)
    } else {
        (SetupStage::Toolchain, SetupAction::InstallToolchain)
    }
}

/// The progress that stays as it is, at another stage.
pub open spec fn at_stage(p: Progress, stage: SetupStage) -> Progress {
    Progress { stage, ..p }
}

/// The transition of the pipeline for the architecture `arch`: from the
/// progress so far and a report to the progress afterwards and the next
/// action.
pub open spec fn setup_next(
    p: Progress,
    arch: Seq<char>,
    no_cache: bool,
    minimal: bool,
    event: SetupEvent,
) -> (Progress, SetupAction) {
    match (p.stage, event) {
        (SetupStage::Done, _) => (p, SetupAction::Finish),
        (SetupStage::Failed, _) => (p, SetupAction::Abort(SetupError::OutOfTurn)),
        (stage, SetupEvent::Failed) => (
            at_stage(p, SetupStage::Failed),
            SetupAction::Abort(SetupError::Step(stage)),
        ),
        (SetupStage::Validate, SetupEvent::Validated(free)) => if free {
            (at_stage(p, SetupStage::Index), SetupAction::FetchIndex)
        } else {
            (at_stage(p, SetupStage::Failed), SetupAction::Abort(SetupError::AlreadyProvisioned))
        },
        (SetupStage::Index, SetupEvent::Index(html)) => match index_verdict(html@, arch) {
            Ok(Some(entry)) => (
                Progress { stage: SetupStage::Download, entry: Some(entry), ..p },
                SetupAction::Download,
            ),
            Ok(None) => (at_stage(p, SetupStage::Failed), SetupAction::Abort(SetupError::NoImage)),
            Err(e) => (at_stage(p, SetupStage::Failed), SetupAction::Abort(SetupError::Index(e))),
        },
        (SetupStage::Download, SetupEvent::Downloaded(dir)) => (
            Progress { stage: SetupStage::Extract, archive_dir: dir@, ..p },
            SetupAction::Extract,
        ),
        (SetupStage::Extract, SetupEvent::Extracted(dir)) => (
            Progress { stage: after_extract(no_cache).0, dest_rootfs: dir@, ..p },
            after_extract(no_cache).1,
        ),
        (SetupStage::Cleanup, SetupEvent::Completed) => (
            at_stage(p, SetupStage::Manifest),
            SetupAction::WriteRepositories,
        ),
        (SetupStage::Manifest, SetupEvent::Completed) => (
            at_stage(p, SetupStage::Update),
            SetupAction::UpdateIndex,
        ),
        (SetupStage::Update, SetupEvent::Completed) => (
            at_stage(p, after_update(minimal).0),
            after_update(minimal).1,
        ),
        (SetupStage::Toolchain, SetupEvent::Completed) => (
            at_stage(p, SetupStage::Done),
            SetupAction::Finish,
        ),
        _ => (at_stage(p, SetupStage::Failed), SetupAction::Abort(SetupError::OutOfTurn)),
    }
}

/// An index without an archive for the architecture ends the run with the
/// error that says so: nothing is downloaded.
pub proof fn lemma_no_image_is_fatal(
    p: Progress,
    arch: Seq<char>,
    no_cache: bool,
    minimal: bool,
    html: String,
)
    requires
        p.stage == SetupStage::Index,
        index_verdict(html@, arch) == Ok::<Option<CandidateView>, IndexError>(None),
    ensures
        setup_next(p, arch, no_cache, minimal, SetupEvent::Index(html)).1 == SetupAction::Abort(
            SetupError::NoImage,
        ),
        setup_next(p, arch, no_cache, minimal, SetupEvent::Index(html)).0.stage
            == SetupStage::Failed,
{
}

/// A download is asked for in one situation only: the index was searched
/// and holds an archive; that archive is then the selected entry.
pub proof fn lemma_download_needs_image(
    p: Progress,
    arch: Seq<char>,
    no_cache: bool,
    minimal: bool,
    event: SetupEvent,
)
    requires
        setup_next(p, arch, no_cache, minimal, event).1 == SetupAction::Download,
    ensures
        p.stage == SetupStage::Index,
        event is Index,
        index_verdict(event->Index_0@, arch) matches Ok(Some(entry)) && setup_next(
            p,
            arch,
            no_cache,
            minimal,
            event,
        ).0.entry == Some(entry),
{
}

/// A run that keeps no cache removes the temporary cache as soon as the
/// tree is extracted, before anything is done inside the tree; a failure
/// to remove it ends the run like any other failure.
pub proof fn lemma_cleanup_follows_extraction(
    p: Progress,
    arch: Seq<char>,
    minimal: bool,
    dir: String,
)
    requires
        p.stage == SetupStage::Extract,
    ensures
        setup_next(p, arch, true, minimal, SetupEvent::Extracted(dir)).1
            == SetupAction::RemoveCache,
        setup_next(p, arch, false, minimal, SetupEvent::Extracted(dir)).1
            == SetupAction::WriteRepositories,
        setup_next(at_stage(p, SetupStage::Cleanup), arch, true, minimal, SetupEvent::Failed).1
            == SetupAction::Abort(SetupError::Step(SetupStage::Cleanup)),
{
}

/// A run that has failed stays failed, and a run that is done stays done:
/// no report leads to another action.
pub proof fn lemma_end_is_final(
    p: Progress,
    arch: Seq<char>,
    no_cache: bool,
    minimal: bool,
    event: SetupEvent,
)
    requires
        p.stage == SetupStage::Failed || p.stage == SetupStage::Done,
    ensures
        setup_next(p, arch, no_cache, minimal, event).0 == p,
        p.stage == SetupStage::Failed ==> setup_next(p, arch, no_cache, minimal, event).1
            is Abort,
        p.stage == SetupStage::Done ==> setup_next(p, arch, no_cache, minimal, event).1
            == SetupAction::Finish,
{
}

/// The first failure ends the run: whatever the stage, a failed action
/// leads to the failed stage.
pub proof fn lemma_failure_ends_run(p: Progress, arch: Seq<char>, no_cache: bool, minimal: bool)
    requires
        p.stage != SetupStage::Done,
    ensures
        setup_next(p, arch, no_cache, minimal, SetupEvent::Failed).1 is Abort,
        p.stage != SetupStage::Failed ==> setup_next(
            p,
            arch,
            no_cache,
            minimal,
            SetupEvent::Failed,
        ).0.stage == SetupStage::Failed,
{
}

impl Provision {
    /// What steps change of this run.
    pub open spec fn progress(&self) -> Progress {
        Progress {
            stage: self.stage,
            entry: opt_candidate(self.entry),
            archive_dir: self.archive_dir@,
            dest_rootfs: self.dest_rootfs@,
        }
    }

    /// Whether all that steps leave alone is the same in `self` and `other`.
    pub open spec fn same_run(&self, other: &Provision) -> bool {
        &&& self.name@ == other.name@
        &&& self.arch@ == other.arch@
        &&& self.no_cache == other.no_cache
        &&& self.minimal == other.minimal
        &&& self.reinstall == other.reinstall
        &&& self.cache_dir@ == other.cache_dir@
        &&& self.rootfs_dir@ == other.rootfs_dir@
        &&& self.def_rootfs@ == other.def_rootfs@
        &&& opt_text(self.mirror.mirror) == opt_text(other.mirror.mirror)
        &&& opt_text(self.mirror.release) == opt_text(other.mirror.release)
        &&& self.index_url@ == other.index_url@
    }

    /// The action that the run begins with.
    pub fn first(&self) -> (r: SetupAction)
        ensures
            r == (match self.stage {
                SetupStage::Validate => SetupAction::ValidateTarget,
                SetupStage::Index => SetupAction::FetchIndex,
                _ => SetupAction::Abort(SetupError::OutOfTurn),
            }),
    {
        match self.stage {
            SetupStage::Validate => SetupAction::ValidateTarget,
            SetupStage::Index => SetupAction::FetchIndex,
            _ => SetupAction::Abort(SetupError::OutOfTurn),
        }
    }

    /// Takes the caller's report and answers with the next action.
    pub fn step(&mut self, event: SetupEvent) -> (r: SetupAction)
        ensures
            final(self).same_run(old(self)),
            (final(self).progress(), r) == setup_next(
                old(self).progress(),
                old(self).arch@,
                old(self).no_cache,
                old(self).minimal,
                event,
            ),
    {
        match self.stage {
            SetupStage::Done => {
                return SetupAction::Finish;
            },
            SetupStage::Failed => {
                return SetupAction::Abort(SetupError::OutOfTurn);
            },
            _ => {},
        }
        let stage = self.stage;
        match (stage, event) {
            (_, SetupEvent::Failed) => {
                self.stage = SetupStage::Failed;
                SetupAction::Abort(SetupError::Step(stage))
            },
            (SetupStage::Validate, SetupEvent::Validated(free)) => {
                if free {
                    self.stage = SetupStage::Index;
                    SetupAction::FetchIndex
                } else {
                    self.stage = SetupStage::Failed;
                    SetupAction::Abort(SetupError::AlreadyProvisioned)
                }
            },
            (SetupStage::Index, SetupEvent::Index(html)) => {
                match select_latest(html.as_str(), self.arch.as_str()) {
                    Ok(Some(entry)) => {
                        self.entry = Some(entry);
                        self.stage = SetupStage::Download;
                        SetupAction::Download
                    },
                    Ok(None) => {
                        self.stage = SetupStage::Failed;
                        SetupAction::Abort(SetupError::NoImage)
                    },
                    Err(e) => {
                        self.stage = SetupStage::Failed;
                        SetupAction::Abort(SetupError::Index(e))
                    },
                }
            },
            (SetupStage::Download, SetupEvent::Downloaded(dir)) => {
                self.archive_dir = dir;
                self.stage = SetupStage::Extract;
                SetupAction::Extract
            },
            (SetupStage::Extract, SetupEvent::Extracted(dir)) => {
                self.dest_rootfs = dir;
                if self.no_cache {
                    self.stage = SetupStage::Cleanup;
                    SetupAction::RemoveCache
                } else {
                    self.stage = SetupStage::Manifest;
                    SetupAction::WriteRepositories
                }
            },
            (SetupStage::Cleanup, SetupEvent::Completed) => {
                self.stage = SetupStage::Manifest;
                SetupAction::WriteRepositories
            },
            (SetupStage::Manifest, SetupEvent::Completed) => {
                self.stage = SetupStage::Update;
                SetupAction::UpdateIndex
            },
            (SetupStage::Update, SetupEvent::Completed) => {
                if self.minimal {
                    self.stage = SetupStage::Done;
                    SetupAction::Finish
                } else {
                    self.stage = SetupStage::Toolchain;
                    SetupAction::InstallToolchain
                }
            },
            (SetupStage::Toolchain, SetupEvent::Completed) => {
                self.stage = SetupStage::Done;
                SetupAction::Finish
            },
            _ => {
                self.stage = SetupStage::Failed;
                SetupAction::Abort(SetupError::OutOfTurn)
            },
        }
    }

    /// The address of the selected archive: the index address followed by
    /// the link.
    pub fn archive_url(&self) -> (r: String)
        requires
            self.entry is Some,
        ensures
            r@ == self.index_url@ + self.entry->Some_0.href@,
    {
        let mut out = self.index_url.clone();
        match &self.entry {
            Some(entry) => {
                out.append(entry.href.as_str());
            },
            None => {},
        }
        out
    }

    /// The file name of the selected archive: its link.
    pub fn archive_name(&self) -> (r: String)
        requires
            self.entry is Some,
        ensures
            r@ == self.entry->Some_0.href@,
    {
        match &self.entry {
            Some(entry) => entry.href.clone(),
            None => String::new(),
        }
    }

    /// The path of the downloaded archive.
    pub fn archive_path(&self) -> (r: String)
        requires
            self.entry is Some,
        ensures
            r@ == self.archive_dir@ + "/"@ + self.entry->Some_0.href@,
    {
        let mut out = self.archive_dir.clone();
        out.append("/");
        match &self.entry {
            Some(entry) => {
                out.append(entry.href.as_str());
            },
            None => {},
        }
        out
    }

    /// The path of the repository list inside the extracted tree.
    pub fn repositories_path(&self) -> (r: String)
        ensures
            r@ == path_below(self.dest_rootfs@, REPOSITORIES_FILE@),
    {
        join_path(self.dest_rootfs.as_str(), REPOSITORIES_FILE)
    }

    /// The text of the repository list.
    pub fn repositories(&mut self) -> (r: String)
        requires
            old(self).mirror.mirror is Some,
            old(self).mirror.release is Some,
        ensures
            *final(self) == *old(self),
            r@ == repository_text(
                old(self).mirror.mirror->Some_0@,
                old(self).mirror.release->Some_0@,
            ),
    {
        self.mirror.get_repository()
    }
}

} // verus!
