//! Unpacking a compressed archive into a directory.
//!
//! The caller settles the directory and reads the archive; the library
//! takes off the gzip layer, in memory and in one piece; the caller unpacks
//! the tar layer that is handed back. `Extraction::step` leads through it.

use std::io::Read;
use vstd::prelude::*;
use crate::dirs::{dir_next, Access, DirFallback, DirStep};
use crate::text::owned;

verus! {

/// How far an extraction has come.
#[derive(Debug, Clone, Copy, PartialEq, Eq, Structural)]
pub enum ExtractStage {
    /// The destination directory is being settled.
    Directory,
    /// The directory stands; the archive is being read.
    Read,
    /// The archive is decompressed; its entries are being unpacked.
    Unpack,
    /// The entries are in the directory.
    Done,
    /// The extraction was given up.
    Failed,
}

/// Why an extraction was given up.
#[derive(Debug, Clone, Copy, PartialEq, Eq, Structural)]
pub enum ExtractError {
    /// No destination directory could be had.
    Directory,
    /// The archive could not be read.
    Read,
    /// The archive is no gzip stream.
    Corrupt,
    /// The entries could not be unpacked.
    Unpack,
    /// The caller reported something that the stage does not wait for.
    OutOfTurn,
}

/// What the caller is to do next.
#[derive(Debug, Clone, Copy, PartialEq, Eq, Structural)]
pub enum ExtractAction {
    /// Warn that the wanted directory was denied, then create the
    /// directory `Extraction::dir.path()`.
    RetryDir,
    /// Read the file `Extraction::archive` and report its bytes.
    ReadArchive,
    /// Unpack the tar stream `Extraction::data` into the directory
    /// `Extraction::dir.path()`.
    Unpack,
    /// Nothing more: the tree is in `Extraction::save_dest()`.
    Finish,
    /// Nothing more: the extraction failed.
    Abort(ExtractError),
}

/// What the caller reports.
#[derive(Debug)]
pub enum ExtractEvent {
    /// How the attempt to create the directory went.
    Directory(Access),
    /// The bytes of the archive.
    Archive(Vec<u8>),
    /// The archive could not be read.
    ReadFailed,
    /// The entries are unpacked.
    Unpacked,
    /// Unpacking failed.
    UnpackFailed,
}

/// An extraction under way. The first thing to do is to create the
/// directory `dir.path()` and to report how that went.
#[derive(Debug)]
pub struct Extraction {
    pub archive: String,
    pub dir: DirFallback,
    pub stage: ExtractStage,
    /// The decompressed archive, once the stage is `Unpack`.
    pub data: Vec<u8>,
}

/// What the `flate2` crate reads from a gzip decoder over `data` until its
/// end, or `None` where that reading fails.
pub uninterp spec fn gzip_decoded(data: Seq<u8>) -> Option<Seq<u8>>;

/// The view of bytes that may be absent.
pub open spec fn opt_bytes(bytes: Option<Vec<u8>>) -> Option<Seq<u8>> {
    match bytes {
        Some(b) => Some(b@),
        None => None,
    }
}

/// Decompresses `data` with `flate2::read::GzDecoder`, read to its end.
///
/// Trusted: the result is what `gzip_decoded` names; an error of the
/// decoder gives `None`.
#[verifier::external_body]
pub(crate) fn gunzip(data: &Vec<u8>) -> (r: Option<Vec<u8>>)
    ensures
        opt_bytes(r) == gzip_decoded(data@),
{
    let mut out: Vec<u8> = Vec::new();
    match flate2::read::GzDecoder::new(data.as_slice()).read_to_end(&mut out) {
        Ok(_) => Some(out),
        Err(_) => None,
    }
}

/// The transition of an extraction: from a stage, the side of the
/// directory resolution and a report to the next stage, the side
/// afterwards and the next action.
pub open spec fn extract_next(stage: ExtractStage, on_fallback: bool, event: ExtractEvent) -> (
    ExtractStage,
    bool,
    ExtractAction,
) {
    match (stage, event) {
        (ExtractStage::Directory, ExtractEvent::Directory(outcome)) => {
            let (side, step) = dir_next(on_fallback, outcome);
            match step {
                DirStep::Resolved => (ExtractStage::Read, side, ExtractAction::ReadArchive),
                DirStep::Retry => (ExtractStage::Directory, side, ExtractAction::RetryDir),
                DirStep::Failed => (
                    ExtractStage::Failed,
                    side,
                    ExtractAction::Abort(ExtractError::Directory),
                ),
            }
        },
        (ExtractStage::Read, ExtractEvent::Archive(bytes)) => if gzip_decoded(bytes@) is Some {
            (ExtractStage::Unpack, on_fallback, ExtractAction::Unpack)
        } else {
            (ExtractStage::Failed, on_fallback, ExtractAction::Abort(ExtractError::Corrupt))
        },
        (ExtractStage::Read, ExtractEvent::ReadFailed) => (
            ExtractStage::Failed,
            on_fallback,
            ExtractAction::Abort(ExtractError::Read),
        ),
        (ExtractStage::Unpack, ExtractEvent::Unpacked) => (
            ExtractStage::Done,
            on_fallback,
            ExtractAction::Finish,
        ),
        (ExtractStage::Unpack, ExtractEvent::UnpackFailed) => (
            ExtractStage::Failed,
            on_fallback,
            ExtractAction::Abort(ExtractError::Unpack),
        ),
        _ => (ExtractStage::Failed, on_fallback, ExtractAction::Abort(ExtractError::OutOfTurn)),
    }
}

impl Extraction {
    /// Starts the extraction of the file `archive` into the directory
    /// `dest`, or into `fallback` where `dest` is denied.
    pub fn new(archive: String, dest: String, fallback: String) -> (r: Extraction)
        ensures
            r.archive@ == archive@,
            r.dir.target@ == dest@,
            r.dir.fallback@ == fallback@,
            !r.dir.on_fallback,
            r.stage == ExtractStage::Directory,
            r.data@.len() == 0,
    {
        Extraction {
            archive,
            dir: DirFallback::new(dest, fallback),
            stage: ExtractStage::Directory,
            data: Vec::new(),
        }
    }

    /// The directory that holds the tree; settled once the stage is past
    /// `Directory`.
    pub fn save_dest(&self) -> (r: String)
        ensures
            r@ == self.dir.current(),
    {
        owned(self.dir.path())
    }

    /// Takes the caller's report and answers with the next action.
    pub fn step(&mut self, event: ExtractEvent) -> (r: ExtractAction)
        ensures
            final(self).archive@ == old(self).archive@,
            final(self).dir.target@ == old(self).dir.target@,
            final(self).dir.fallback@ == old(self).dir.fallback@,
            (final(self).stage, final(self).dir.on_fallback, r) == extract_next(
                old(self).stage,
                old(self).dir.on_fallback,
                event,
            ),
            r == ExtractAction::Unpack ==> (event matches ExtractEvent::Archive(bytes)
                && gzip_decoded(bytes@) == Some(final(self).data@)),
            r != ExtractAction::Unpack ==> final(self).data@ == old(self).data@,
    {
        match (self.stage, event) {
            (ExtractStage::Directory, ExtractEvent::Directory(outcome)) => {
                match self.dir.step(outcome) {
                    DirStep::Resolved => {
                        self.stage = ExtractStage::Read;
                        ExtractAction::ReadArchive
                    },
                    DirStep::Retry => ExtractAction::RetryDir,
                    DirStep::Failed => {
                        self.stage = ExtractStage::Failed;
                        ExtractAction::Abort(ExtractError::Directory)
                    },
                }
            },
            (ExtractStage::Read, ExtractEvent::Archive(bytes)) => {
                match gunzip(&bytes) {
                    Some(data) => {
                        self.data = data;
                        self.stage = ExtractStage::Unpack;
                        ExtractAction::Unpack
                    },
                    None => {
                        self.stage = ExtractStage::Failed;
                        ExtractAction::Abort(ExtractError::Corrupt)
                    },
                }
            },
            (ExtractStage::Read, ExtractEvent::ReadFailed) => {
                self.stage = ExtractStage::Failed;
                ExtractAction::Abort(ExtractError::Read)
            },
            (ExtractStage::Unpack, ExtractEvent::Unpacked) => {
                self.stage = ExtractStage::Done;
                ExtractAction::Finish
            },
            (ExtractStage::Unpack, ExtractEvent::UnpackFailed) => {
                self.stage = ExtractStage::Failed;
                ExtractAction::Abort(ExtractError::Unpack)
            },
            _ => {
                self.stage = ExtractStage::Failed;
                ExtractAction::Abort(ExtractError::OutOfTurn)
            },
        }
    }
}

} // verus!
