//! Small services shared by the subcommands: option values, the target
//! architecture, and the framed notices shown to the user.

use vstd::prelude::*;
use crate::dirs::DirFallback;
use crate::error::{UsageError, UsageErrorView};
use crate::fetch::{Download, FetchStage};
use crate::text::{
    after_first, byte_len, byte_length, opt_text, owned, repeat, repeated, rest_after, same,
};

verus! {

/// The value that an option carries: the argument that follows it where the
/// caller supplies one, else what stands behind the first equals sign of
/// `arg`.
pub open spec fn option_value(arg: Seq<char>, next_args: Option<Seq<char>>) -> Seq<char> {
    match next_args {
        Some(next) => next,
        None => after_first(arg, '='),
    }
}

/// The reading of an option of subcommand `sub`: its value, or, where the
/// value is empty, the error that names the option and the kind of value
/// `val` that was expected.
pub open spec fn key_value(
    sub: Seq<char>,
    val: Seq<char>,
    arg: Seq<char>,
    next_args: Option<Seq<char>>,
) -> Result<Seq<char>, UsageErrorView> {
    let value = option_value(arg, next_args);
    if value.len() > 0 {
        Ok(value)
    } else {
        Err(UsageErrorView::MissingValue { sub, arg, val, spaced: next_args is Some })
    }
}

/// Reads the value of an option written as `--key=value` (no `next_args`) or
/// as `--key value` (`next_args` holds the argument after the option).
///
/// An empty value is an error that names the subcommand `sub`, the option
/// and the kind of value `val` that was expected. A value that is returned
/// is always present.
pub fn _parse_key_value(sub: &str, val: &str, arg: String, next_args: Option<String>) -> (r: Result<
    Option<String>,
    UsageError,
>)
    ensures
        match r {
            Ok(found) => found is Some && key_value(sub@, val@, arg@, opt_text(next_args)) == Ok::<
                Seq<char>,
                UsageErrorView,
            >(found->Some_0@),
            Err(e) => key_value(sub@, val@, arg@, opt_text(next_args)) == Err::<
                Seq<char>,
                UsageErrorView,
            >(e@),
        },
{
    let spaced = next_args.is_some();
    let value = match next_args {
        Some(next) => next,
        None => rest_after(arg.as_str(), '='),
    };
    if value.as_str().unicode_len() == 0 {
        return Err(UsageError::MissingValue { sub: owned(sub), arg, val: owned(val), spaced });
    }
    Ok(Some(value))
}

/// The architecture to provision for: the program's own override where it
/// is set, else the general one, else the architecture of this build.
pub fn get_arch(alpack_arch: Option<String>, arch: Option<String>, native: &str) -> (r: String)
    ensures
        r@ == (match (alpack_arch, arch) {
            (Some(a), _) => a@,
            (None, Some(b)) => b@,
            (None, None) => native@,
        }),
{
    match alpack_arch {
        Some(a) => a,
        None => match arch {
            Some(b) => b,
            None => owned(native),
        },
    }
}

/// The width of a command box where none is asked for.
pub const BOX_WIDTH: usize = 50;

/// The width of the separator line.
pub const SEPARATOR_WIDTH: usize = 60;

/// The horizontal stroke of boxes and separators.
pub const STROKE: &'static str = "═";

/// The upper edge of a box of `width` cells.
pub open spec fn box_top(width: nat) -> Seq<char> {
    "╔"@ + repeated(STROKE@, (width - 2) as nat) + "╗"@
}

/// The line of a box of `width` cells that holds `name`. The room after
/// `name` is measured by the bytes of `name`.
pub open spec fn box_middle(name: Seq<char>, width: nat) -> Seq<char> {
    "║ "@ + name + repeated(" "@, (width - 3 - byte_len(name)) as nat) + "║"@
}

/// The lower edge of a box of `width` cells.
pub open spec fn box_bottom(width: nat) -> Seq<char> {
    "╚"@ + repeated(STROKE@, (width - 2) as nat) + "╝"@
}

/// A box of `width` cells around `name`, each of its three lines indented
/// by `indent` blanks.
pub open spec fn cmd_box(name: Seq<char>, indent: nat, width: nat) -> Seq<char> {
    let margin = repeated(" "@, indent);
    margin + box_top(width) + "\n"@ + margin + box_middle(name, width) + "\n"@ + margin
        + box_bottom(width)
}

/// `left`, then `fill`, then `right`.
fn framed(left: &str, fill: &str, right: &str) -> (r: String)
    ensures
        r@ == left@ + fill@ + right@,
{
    let mut out = owned(left);
    out.append(fill);
    out.append(right);
    out
}

/// The line that frames notices.
pub open spec fn separator() -> Seq<char> {
    repeated(STROKE@, SEPARATOR_WIDTH as nat)
}

/// Draws a box around the command line `name`, `size` cells wide (50 where
/// no size is given) and indented by `repeat` blanks (not at all where no
/// number is given). The command line must fit: its bytes, the two borders
/// and one blank.
pub fn get_cmd_box(name: String, repeat: Option<usize>, size: Option<usize>) -> (r: String)
    requires
        byte_len(name@) + 3 <= (match size {
            Some(w) => w,
            None => BOX_WIDTH,
        }),
    ensures
        r@ == cmd_box(
            name@,
            (match repeat {
                Some(n) => n,
                None => 0,
            }) as nat,
            (match size {
                Some(w) => w,
                None => BOX_WIDTH,
            }) as nat,
        ),
{
    let width: usize = match size {
        Some(w) => w,
        None => BOX_WIDTH,
    };
    let rep: usize = match repeat {
        Some(n) => n,
        None => 0,
    };
    let used = byte_length(name.as_str());
    let margin = self::repeat(" ", rep);
    let strokes = self::repeat(STROKE, width - 2);
    let blanks = self::repeat(" ", width - 3 - used);
    let top = framed("╔", strokes.as_str(), "╗");
    let mut middle = owned("║ ");
    middle.append(name.as_str());
    middle.append(blanks.as_str());
    middle.append("║");
    let bottom = framed("╚", strokes.as_str(), "╝");
    let mut out = String::new();
    out.append(margin.as_str());
    out.append(top.as_str());
    out.append("\n");
    out.append(margin.as_str());
    out.append(middle.as_str());
    out.append("\n");
    out.append(margin.as_str());
    out.append(bottom.as_str());
    out
}

/// The line that frames notices: sixty strokes.
pub fn separator_line() -> (r: String)
    ensures
        r@ == separator(),
{
    self::repeat(STROKE, SEPARATOR_WIDTH)
}

/// The command line `$ <cmd> <verb>` that notices suggest.
pub open spec fn suggestion(cmd: Seq<char>, verb: Seq<char>) -> Seq<char> {
    "$ "@ + cmd + " "@ + verb
}

/// The command line `$ <cmd> <verb>` that notices suggest.
pub fn suggest(cmd: &str, verb: &str) -> (r: String)
    ensures
        r@ == suggestion(cmd@, verb@),
{
    let mut out = owned("$ ");
    out.append(cmd);
    out.append(" ");
    out.append(verb);
    out
}

/// The notice that closes a successful setup.
pub open spec fn finish_text(cmd: Seq<char>) -> Seq<char> {
    separator() + "\n  Installation completed successfully!\n\n  To start the environment, run:\n"@
        + cmd_box(suggestion(cmd, "run"@), 2, BOX_WIDTH as nat) + "\n"@ + separator()
}

/// The notice that closes a successful setup: how to start the
/// environment with the program `cmd`.
pub fn finish_msg_setup(cmd: String) -> (r: String)
    requires
        byte_len(suggestion(cmd@, "run"@)) + 3 <= BOX_WIDTH,
    ensures
        r@ == finish_text(cmd@),
{
    let frame = get_cmd_box(suggest(cmd.as_str(), "run"), Some(2), None);
    let line = separator_line();
    let mut out = String::new();
    out.append(line.as_str());
    out.append("\n  Installation completed successfully!\n\n  To start the environment, run:\n");
    out.append(frame.as_str());
    out.append("\n");
    out.append(line.as_str());
    out
}

/// The notice for a rootfs that is not where it is expected.
pub open spec fn missing_rootfs_text(cmd: Seq<char>, path: Seq<char>) -> Seq<char> {
    separator() + "\n  Error: rootfs directory not found.\n\n  Expected location:\n    -> "@ + path
        + "\n\n  Please run the following command to set it up:\n"@ + cmd_box(
        suggestion(cmd, "setup"@),
        2,
        BOX_WIDTH as nat,
    ) + "\n"@ + separator()
}

/// Accepts a rootfs that is a directory (`is_dir`); for any other it
/// returns the notice that tells where the rootfs was expected and how to
/// set it up with the program `cmd`.
pub fn check_rootfs_exists(cmd: String, path: String, is_dir: bool) -> (r: Result<(), String>)
    requires
        !is_dir ==> byte_len(suggestion(cmd@, "setup"@)) + 3 <= BOX_WIDTH,
    ensures
        is_dir ==> r is Ok,
        !is_dir ==> r is Err && r->Err_0@ == missing_rootfs_text(cmd@, path@),
{
    if is_dir {
        return Ok(());
    }
    let frame = get_cmd_box(suggest(cmd.as_str(), "setup"), Some(2), None);
    let line = separator_line();
    let mut out = String::new();
    out.append(line.as_str());
    out.append("\n  Error: rootfs directory not found.\n\n  Expected location:\n    -> ");
    out.append(path.as_str());
    out.append("\n\n  Please run the following command to set it up:\n");
    out.append(frame.as_str());
    out.append("\n");
    out.append(line.as_str());
    Err(out)
}

/// The sandbox handler that runs without privileges.
pub const PROOT: &'static str = "proot";

/// The sandbox handler built on namespaces.
pub const BWRAP: &'static str = "bwrap";

pub const PROOT_URL: &'static str =
    "https://github.com/LinuxDicasPro/StaticHub/releases/download/proot/proot";

pub const BWRAP_URL: &'static str =
    "https://github.com/LinuxDicasPro/StaticHub/releases/download/bwrap/bwrap";

/// The architecture for which handler binaries are offered.
pub const X86_64: &'static str = "x86_64";

/// Where the binary of a sandbox handler can be fetched from; only `proot`
/// and `bwrap` are offered.
pub open spec fn handler_url(cmd: Seq<char>) -> Option<Seq<char>> {
    if cmd == PROOT@ {
        Some(PROOT_URL@)
    } else if cmd == BWRAP@ {
        Some(BWRAP_URL@)
    } else {
        None
    }
}

/// Where the binary of the sandbox handler `cmd` can be fetched from.
pub fn binary_url(cmd: &str) -> (r: Option<&'static str>)
    ensures
        match r {
            Some(url) => handler_url(cmd@) == Some(url@),
            None => handler_url(cmd@) is None,
        },
{
    if same(cmd, PROOT) {
        Some(PROOT_URL)
    } else if same(cmd, BWRAP) {
        Some(BWRAP_URL)
    } else {
        None
    }
}

/// Whether `arch` is the architecture for which binaries are offered.
pub fn is_x86_64(arch: &str) -> (r: bool)
    ensures
        r == (arch@ == X86_64@),
{
    same(arch, X86_64)
}

/// The directory for the user's own binaries: `.local/bin` below the home
/// directory, or below the working directory where no home is known.
pub fn local_bin_dir(home: Option<String>) -> (r: String)
    ensures
        r@ == (match home {
            Some(h) => h@,
            None => "."@,
        }) + "/.local/bin"@,
{
    let base = match home {
        Some(h) => h,
        None => owned("."),
    };
    base.concat("/.local/bin")
}

/// What is to be done to have a sandbox handler at hand.
#[derive(Debug)]
pub enum HandlerPlan {
    /// The handler is installed at this path.
    Use(String),
    /// Fetch the handler from `url` into the file `name` of the directory
    /// `dir`, creating `dir` first, and make it executable.
    Download { url: String, dir: String, name: String },
    /// The handler is not installed and no binary is offered for this
    /// architecture; the text says so.
    Unsupported(String),
    /// The handler is not installed and is none that binaries are offered
    /// of.
    Invalid,
}

/// A `HandlerPlan` with its texts as character sequences.
pub enum HandlerPlanView {
    Use(Seq<char>),
    Download { url: Seq<char>, dir: Seq<char>, name: Seq<char> },
    Unsupported(Seq<char>),
    Invalid,
}

impl View for HandlerPlan {
    type V = HandlerPlanView;

    open spec fn view(&self) -> HandlerPlanView {
        match self {
            HandlerPlan::Use(path) => HandlerPlanView::Use(path@),
            HandlerPlan::Download { url, dir, name } => HandlerPlanView::Download {
                url: url@,
                dir: dir@,
                name: name@,
            },
            HandlerPlan::Unsupported(text) => HandlerPlanView::Unsupported(text@),
            HandlerPlan::Invalid => HandlerPlanView::Invalid,
        }
    }
}

/// What is said of a handler that cannot be had on this architecture.
pub open spec fn unsupported_text(cmd: Seq<char>) -> Seq<char> {
    cmd + " not found in the system and no binary is available for this architecture"@
}

/// The plan for the handler `cmd`: the installed one where the search path
/// has it (`installed`), else the one in the user's own directory where it
/// exists there (`local_path`, `local_exists`), else a download into that
/// directory (`local_dir`), which is offered for x86_64 and for known
/// handlers only.
pub open spec fn handler_plan(
    cmd: Seq<char>,
    installed: Option<Seq<char>>,
    local_dir: Seq<char>,
    local_path: Seq<char>,
    local_exists: bool,
    arch: Seq<char>,
) -> HandlerPlanView {
    match installed {
        Some(path) => HandlerPlanView::Use(path),
        None => if local_exists {
            HandlerPlanView::Use(local_path)
        } else if arch != X86_64@ {
            HandlerPlanView::Unsupported(unsupported_text(cmd))
        } else {
            match handler_url(cmd) {
                Some(url) => HandlerPlanView::Download { url, dir: local_dir, name: cmd },
                None => HandlerPlanView::Invalid,
            }
        },
    }
}

/// Decides how to come by the sandbox handler `cmd_rootfs`.
pub fn verify_and_download_rootfs_command(
    cmd_rootfs: &str,
    installed: Option<String>,
    local_dir: String,
    local_path: String,
    local_exists: bool,
    arch: &str,
) -> (r: HandlerPlan)
    ensures
        r@ == handler_plan(
            cmd_rootfs@,
            opt_text(installed),
            local_dir@,
            local_path@,
            local_exists,
            arch@,
        ),
{
    match installed {
        Some(path) => {
            return HandlerPlan::Use(path);
        },
        None => {},
    }
    if local_exists {
        return HandlerPlan::Use(local_path);
    }
    if !is_x86_64(arch) {
        let text = owned(cmd_rootfs).concat(
            " not found in the system and no binary is available for this architecture",
        );
        return HandlerPlan::Unsupported(text);
    }
    match binary_url(cmd_rootfs) {
        Some(url) => HandlerPlan::Download {
            url: owned(url),
            dir: local_dir,
            name: owned(cmd_rootfs),
        },
        None => HandlerPlan::Invalid,
    }
}

/// Starts settling on the directory `target`, with `fallback` in reserve
/// for the case that permission is denied. The first attempt is for
/// `target`.
pub fn create_dir_with_fallback(target: String, fallback: String) -> (r: DirFallback)
    ensures
        r.target@ == target@,
        r.fallback@ == fallback@,
        !r.on_fallback,
{
    DirFallback::new(target, fallback)
}

/// Starts the download of `url` into the file `filename` of the directory
/// `dest`, with `fallback` in reserve for the case that `dest` is denied.
pub fn download_file(url: String, dest: String, fallback: String, filename: String) -> (r: Download)
    ensures
        r.url@ == url@,
        r.filename@ == filename@,
        r.dir.target@ == dest@,
        r.dir.fallback@ == fallback@,
        !r.dir.on_fallback,
        r.stage == FetchStage::Directory,
        r.total == 0,
{
    Download::new(url, dest, fallback, filename)
}

} // verus!
