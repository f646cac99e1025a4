//! Fetching a file into a directory, with the directory as a cache.
//!
//! The library decides and the caller acts: the caller performs the action
//! it is given (create a directory, look for a file, send a request, store
//! the body) and reports what happened; `Download::step` answers with the
//! next action. A file that is already there is never fetched again.

use vstd::prelude::*;
use crate::dirs::{dir_next, Access, DirFallback, DirStep};
use crate::number::{decimal, parse_decimal};
use crate::text::owned;

verus! {

/// How far a download has come.
#[derive(Debug, Clone, Copy, PartialEq, Eq, Structural)]
pub enum FetchStage {
    /// The destination directory is being settled.
    Directory,
    /// The directory stands; the file is being looked for in it.
    Lookup,
    /// The file is not there; the request is out.
    Request,
    /// The response announced its length; the body is being stored.
    Transfer,
    /// The file is in the directory.
    Done,
    /// The download was given up.
    Failed,
}

/// Why a download was given up.
#[derive(Debug, Clone, Copy, PartialEq, Eq, Structural)]
pub enum FetchError {
    /// No destination directory could be had.
    Directory,
    /// The request failed.
    Request,
    /// The response did not announce its length as a number.
    Length,
    /// The body could not be stored.
    Store,
    /// The caller reported something that the stage does not wait for.
    OutOfTurn,
}

/// What the caller is to do next.
#[derive(Debug, Clone, Copy, PartialEq, Eq, Structural)]
pub enum FetchAction {
    /// Warn that the wanted directory was denied, then create the
    /// directory `Download::dir.path()`.
    RetryDir,
    /// Tell whether the file `Download::save_file()` exists.
    CheckFile,
    /// Request `Download::url` and report the length header of the response.
    Get,
    /// Store the body of the response, `Download::total` bytes, in
    /// `Download::save_file()`.
    Store,
    /// Nothing more: the file is in `Download::save_dest()`.
    Finish,
    /// Nothing more: the download failed.
    Abort(FetchError),
}

/// What the caller reports.
#[derive(Debug)]
pub enum FetchEvent {
    /// How the attempt to create the directory went.
    Directory(Access),
    /// Whether the file exists.
    Exists(bool),
    /// The response came, with this value of its length header, if it has
    /// one that is text.
    Response(Option<String>),
    /// The request failed.
    RequestFailed,
    /// The body is stored.
    Stored,
    /// Storing the body failed.
    StoreFailed,
}

/// A download under way. The first thing to do is to create the directory
/// `dir.path()` and to report how that went.
#[derive(Debug)]
pub struct Download {
    pub url: String,
    pub filename: String,
    pub dir: DirFallback,
    pub stage: FetchStage,
    /// The announced length of the body in bytes, once it is known.
    pub total: u64,
}

/// The length that a response announces, where its header is a number that
/// fits in 64 bits.
pub open spec fn announced_length(header: Option<String>) -> Option<nat> {
    match header {
        Some(text) => decimal(text@, u64::MAX as nat),
        None => None,
    }
}

/// The path of the file `filename` in the directory `dir`.
pub open spec fn save_path(dir: Seq<char>, filename: Seq<char>) -> Seq<char> {
    dir + "/"@ + filename
}

/// The transition of a download: from a stage, the side of the directory
/// resolution and a report to the next stage, the side afterwards and the
/// next action.
pub open spec fn fetch_next(stage: FetchStage, on_fallback: bool, event: FetchEvent) -> (
    FetchStage,
    bool,
    FetchAction,
) {
    match (stage, event) {
        (FetchStage::Directory, FetchEvent::Directory(outcome)) => {
            let (side, step) = dir_next(on_fallback, outcome);
            match step {
                DirStep::Resolved => (FetchStage::Lookup, side, FetchAction::CheckFile),
                DirStep::Retry => (FetchStage::Directory, side, FetchAction::RetryDir),
                DirStep::Failed => (
                    FetchStage::Failed,
                    side,
                    FetchAction::Abort(FetchError::Directory),
                ),
            }
        },
        (FetchStage::Lookup, FetchEvent::Exists(true)) => (
            FetchStage::Done,
            on_fallback,
            FetchAction::Finish,
        ),
        (FetchStage::Lookup, FetchEvent::Exists(false)) => (
            FetchStage::Request,
            on_fallback,
            FetchAction::Get,
        ),
        (FetchStage::Request, FetchEvent::Response(header)) => if announced_length(header)
            is Some {
            (FetchStage::Transfer, on_fallback, FetchAction::Store)
        } else {
            (FetchStage::Failed, on_fallback, FetchAction::Abort(FetchError::Length))
        },
        (FetchStage::Request, FetchEvent::RequestFailed) => (
            FetchStage::Failed,
            on_fallback,
            FetchAction::Abort(FetchError::Request),
        ),
        (FetchStage::Transfer, FetchEvent::Stored) => (
            FetchStage::Done,
            on_fallback,
            FetchAction::Finish,
        ),
        (FetchStage::Transfer, FetchEvent::StoreFailed) => (
            FetchStage::Failed,
            on_fallback,
            FetchAction::Abort(FetchError::Store),
        ),
        _ => (FetchStage::Failed, on_fallback, FetchAction::Abort(FetchError::OutOfTurn)),
    }
}

/// A file that is found in the directory ends the download with success,
/// at once: no request is made for it.
pub proof fn lemma_cache_hit_is_success(on_fallback: bool)
    ensures
        fetch_next(FetchStage::Lookup, on_fallback, FetchEvent::Exists(true)) == (
            FetchStage::Done,
            on_fallback,
            FetchAction::Finish,
        ),
{
}

/// A request is made in one situation only: the directory was looked into
/// and the file is not there.
pub proof fn lemma_request_only_on_miss(stage: FetchStage, on_fallback: bool, event: FetchEvent)
    requires
        fetch_next(stage, on_fallback, event).2 == FetchAction::Get,
    ensures
        stage == FetchStage::Lookup,
        event == FetchEvent::Exists(false),
{
}

impl Download {
    /// Starts the download of `url` into the file `filename` of the
    /// directory `dest`, or of `fallback` where `dest` is denied.
    pub fn new(url: String, dest: String, fallback: String, filename: String) -> (r: Download)
        ensures
            r.url@ == url@,
            r.filename@ == filename@,
            r.dir.target@ == dest@,
            r.dir.fallback@ == fallback@,
            !r.dir.on_fallback,
            r.stage == FetchStage::Directory,
            r.total == 0,
    {
        Download {
            url,
            filename,
            dir: DirFallback::new(dest, fallback),
            stage: FetchStage::Directory,
            total: 0,
        }
    }

    /// The directory that holds the file; settled once the stage is past
    /// `Directory`.
    pub fn save_dest(&self) -> (r: String)
        ensures
            r@ == self.dir.current(),
    {
        owned(self.dir.path())
    }

    /// The path of the file.
    pub fn save_file(&self) -> (r: String)
        ensures
            r@ == save_path(self.dir.current(), self.filename@),
    {
        let mut out = owned(self.dir.path());
        out.append("/");
        out.append(self.filename.as_str());
        out
    }

    /// Takes the caller's report and answers with the next action.
    pub fn step(&mut self, event: FetchEvent) -> (r: FetchAction)
        ensures
            final(self).url@ == old(self).url@,
            final(self).filename@ == old(self).filename@,
            final(self).dir.target@ == old(self).dir.target@,
            final(self).dir.fallback@ == old(self).dir.fallback@,
            (final(self).stage, final(self).dir.on_fallback, r) == fetch_next(
                old(self).stage,
                old(self).dir.on_fallback,
                event,
            ),
            r == FetchAction::Store ==> (event matches FetchEvent::Response(header)
                && announced_length(header) == Some(final(self).total as nat)),
            r != FetchAction::Store ==> final(self).total == old(self).total,
    {
        match (self.stage, event) {
            (FetchStage::Directory, FetchEvent::Directory(outcome)) => {
                match self.dir.step(outcome) {
                    DirStep::Resolved => {
                        self.stage = FetchStage::Lookup;
                        FetchAction::CheckFile
                    },
                    DirStep::Retry => FetchAction::RetryDir,
                    DirStep::Failed => {
                        self.stage = FetchStage::Failed;
                        FetchAction::Abort(FetchError::Directory)
                    },
                }
            },
            (FetchStage::Lookup, FetchEvent::Exists(found)) => {
                if found {
                    self.stage = FetchStage::Done;
                    FetchAction::Finish
                } else {
                    self.stage = FetchStage::Request;
                    FetchAction::Get
                }
            },
            (FetchStage::Request, FetchEvent::Response(header)) => {
                let length = match &header {
                    Some(text) => parse_decimal(text.as_str(), u64::MAX),
                    None => None,
                };
                match length {
                    Some(total) => {
                        self.total = total;
                        self.stage = FetchStage::Transfer;
                        FetchAction::Store
                    },
                    None => {
                        self.stage = FetchStage::Failed;
                        FetchAction::Abort(FetchError::Length)
                    },
                }
            },
            (FetchStage::Request, FetchEvent::RequestFailed) => {
                self.stage = FetchStage::Failed;
                FetchAction::Abort(FetchError::Request)
            },
            (FetchStage::Transfer, FetchEvent::Stored) => {
                self.stage = FetchStage::Done;
                FetchAction::Finish
            },
            (FetchStage::Transfer, FetchEvent::StoreFailed) => {
                self.stage = FetchStage::Failed;
                FetchAction::Abort(FetchError::Store)
            },
            _ => {
                self.stage = FetchStage::Failed;
                FetchAction::Abort(FetchError::OutOfTurn)
            },
        }
    }
}

} // verus!
