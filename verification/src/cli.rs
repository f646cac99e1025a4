//! From the command line to the subcommand it asks for.

use vstd::prelude::*;
use crate::apk::Apk;
use crate::config::Config;
use crate::error::{UsageError, UsageErrorView};
use crate::setup::Setup;
use crate::text::{chars_of, opt_text, owned, same, starts_with, texts};

verus! {

/// What the program was asked to do.
#[derive(Debug)]
pub enum Invocation {
    /// Run the package manager.
    Apk(Apk),
    /// Manage the local aports tree, with these arguments.
    Aports(Vec<String>),
    /// Build packages, with these arguments.
    Builder(Vec<String>),
    /// Show or change the settings.
    Config(Config),
    /// Run a command inside the rootfs, with these arguments.
    Run(Vec<String>),
    /// Provision a rootfs.
    Setup(Setup),
    /// Show the help text.
    Help,
    /// Show the version.
    Version,
}

/// The option that names the rootfs, with its equals sign.
pub const ROOTFS_PREFIX: &'static str = "--rootfs=";

/// `s` without the copies of `prefix` that it begins with.
pub open spec fn without_leading(s: Seq<char>, prefix: Seq<char>) -> Seq<char>
    decreases s.len(),
{
    if prefix.len() > 0 && prefix.is_prefix_of(s) {
        without_leading(s.skip(prefix.len() as int), prefix)
    } else {
        s
    }
}

/// What a scan of the arguments of `apk` has found.
pub struct ApkScan {
    pub rootfs: Option<Seq<char>>,
    pub subcommand: Option<Seq<char>>,
    pub subargs: Seq<Seq<char>>,
}

/// The scan of the arguments from index `i` on, continuing from `found`.
/// The rootfs option takes the argument that follows it, or clears the
/// rootfs where none follows; the first other argument is the command, and
/// the rest are its arguments.
pub open spec fn scanned(args: Seq<Seq<char>>, i: int, found: ApkScan) -> ApkScan
    decreases args.len() - i,
{
    if i < 0 || i >= args.len() {
        found
    } else if args[i] == "--rootfs"@ || args[i] == "-R"@ {
        if i + 1 < args.len() {
            scanned(args, i + 2, ApkScan { rootfs: Some(args[i + 1]), ..found })
        } else {
            ApkScan { rootfs: None, ..found }
        }
    } else if ROOTFS_PREFIX@.is_prefix_of(args[i]) {
        scanned(
            args,
            i + 1,
            ApkScan { rootfs: Some(without_leading(args[i], ROOTFS_PREFIX@)), ..found },
        )
    } else if found.subcommand is None {
        scanned(args, i + 1, ApkScan { subcommand: Some(args[i]), ..found })
    } else {
        scanned(args, i + 1, ApkScan { subargs: found.subargs.push(args[i]), ..found })
    }
}

/// A scan that has found nothing yet.
pub open spec fn nothing_found() -> ApkScan {
    ApkScan { rootfs: None, subcommand: None, subargs: Seq::empty() }
}

/// Whether `command` is one of the short forms that go to the package
/// manager directly.
pub open spec fn is_package_command(command: Seq<char>) -> bool {
    command == "add"@ || command == "del"@ || command == "install"@ || command == "remove"@
        || command == "-s"@ || command == "search"@ || command == "update"@ || command
        == "fix"@ || command == "-u"@
}

/// `s` without the copies of `prefix` that it begins with.
pub fn strip_leading(s: &str, prefix: &str) -> (r: String)
    ensures
        r@ == without_leading(s@, prefix@),
{
    let text = chars_of(s);
    let head = chars_of(prefix);
    let n = text.len();
    let m = head.len();
    if m == 0 {
        return owned(s);
    }
    let mut start: usize = 0;
    assert(s@.skip(0) =~= s@);
    loop
        invariant
            start <= n,
            n == text@.len(),
            m == head@.len(),
            m > 0,
            text@ == s@,
            head@ == prefix@,
            without_leading(s@, prefix@) == without_leading(s@.skip(start as int), prefix@),
        ensures
            start <= n,
            without_leading(s@, prefix@) == s@.skip(start as int),
        decreases n - start,
    {
        let ghost rest = s@.skip(start as int);
        if n - start < m {
            break ;
        }
        let mut j: usize = 0;
        while j < m && text[start + j] == head[j]
            invariant
                j <= m,
                start + m <= n,
                n == text@.len(),
                m == head@.len(),
                forall|k: int| 0 <= k < j ==> text@[start + k] == head@[k],
            decreases m - j,
        {
            j = j + 1;
        }
        if j < m {
            assert(!prefix@.is_prefix_of(rest));
            break ;
        }
        assert(prefix@ =~= rest.subrange(0, m as int));
        assert(rest.skip(m as int) =~= s@.skip(start + m));
        start = start + m;
    }
    let tail = s.substring_char(start, n);
    owned(tail)
}

/// Sorts the arguments of `apk` into rootfs, command and arguments.
fn scan_apk(cmd: String, args: &Vec<String>) -> (r: Apk)
    ensures
        r.name@ == cmd@,
        opt_text(r.rootfs) == scanned(texts(args@), 0, nothing_found()).rootfs,
        opt_text(r.command) == scanned(texts(args@), 0, nothing_found()).subcommand,
        texts(r.remaining_args@) == scanned(texts(args@), 0, nothing_found()).subargs,
{
    let ghost all = texts(args@);
    let n = args.len();
    let mut rootfs: Option<String> = None;
    let mut subcommand: Option<String> = None;
    let mut subargs: Vec<String> = Vec::new();
    let mut i: usize = 0;
    assert(texts(subargs@) =~= Seq::<Seq<char>>::empty());
    while i < n
        invariant
            i <= n,
            n == args@.len(),
            all == texts(args@),
            scanned(all, 0, nothing_found()) == scanned(
                all,
                i as int,
                ApkScan {
                    rootfs: opt_text(rootfs),
                    subcommand: opt_text(subcommand),
                    subargs: texts(subargs@),
                },
            ),
        decreases n - i,
    {
        let arg = args[i].clone();
        if same(arg.as_str(), "--rootfs") || same(arg.as_str(), "-R") {
            if i + 1 < n {
                rootfs = Some(args[i + 1].clone());
                i = i + 2;
            } else {
                rootfs = None;
                i = i + 1;
            }
        } else if starts_with(arg.as_str(), ROOTFS_PREFIX) {
            rootfs = Some(strip_leading(arg.as_str(), ROOTFS_PREFIX));
            i = i + 1;
        } else if subcommand.is_none() {
            subcommand = Some(arg);
            i = i + 1;
        } else {
            let ghost before = texts(subargs@);
            subargs.push(arg);
            assert(texts(subargs@) =~= before.push(arg@));
            i = i + 1;
        }
    }
    Apk::new(cmd, subcommand, subargs, rootfs)
}

/// Whether `command` is one of the short forms of the package manager.
fn package_command(command: &str) -> (r: bool)
    ensures
        r == is_package_command(command@),
{
    same(command, "add") || same(command, "del") || same(command, "install") || same(
        command,
        "remove",
    ) || same(command, "-s") || same(command, "search") || same(command, "update") || same(
        command,
        "fix",
    ) || same(command, "-u")
}

/// What follows the program's name in the first line, up to the usage line.
pub const HELP_INTRO: &'static str =
    " - Alpine Linux RootFS Packaging Tool\n\nALPack is a simple shell-based tool that allows you\nto create and manage Alpine Linux rootfs containers\neasily using proot or bubblewrap(bwrap).\n\nUsage:\n    ";

/// What follows the program's name in the usage line: the parameters, the options, the environment, up to the first example.
pub const HELP_BODY: &'static str =
    " <parameters> [options] [--] [ARGS...]\n\nAvailable parameters:\n        setup                   Initialize or configure the rootfs environment\n        run                     Execute command inside the rootfs\n        config                  Display or modify global configuration\n        aports                  Manage local aports repositories\n        builder                 Build utility for packages and images\n        apk                     Run the Alpine package manager (apk)\n        add | install <ARGS>    Install packages into the rootfs\n        del | remove <ARGS>     Remove packages from the rootfs\n    -s, search <ARGS>           Search for available packages\n    -u, update                  Update the package index and upgrade installed packages\n        fix                     Attempt to fix broken packages\n\nOptions for 'setup':\n        --no-cache              Disable caching during the operation\n    -r, --reinstall             Reinstall packages without forcing\n        --edge                  Use the edge (testing) repository\n        --minimal               Install only the minimal set of packages\n        --mirror <URL>          Use the specified mirror instead of the default one\n        --mirror=<URL>          Use the specified mirror instead of the default one (inline)\n        --cache <DIR>           Specify cache directory\n        --cache=<DIR>           Specify cache directory (inline)\n    -R, --rootfs <DIR>          Specify rootfs directory\n        --rootfs=<DIR>          Specify rootfs directory (inline)\n\nOptions for 'apk':\n    -R, --rootfs <DIR>          Specify rootfs directory\n        --rootfs=<DIR>          Specify rootfs directory (inline)\n\nOptions for 'aports':\n    -u, --update                Update the local aports repository to the latest version\n    -s, --search=<PKG>          Search for a package in the Alpine aports\n    -g, --get=<PKG>             Download the APKBUILD in the Alpine aports\n    -R, --rootfs <DIR>          Specify rootfs directory\n        --rootfs=<DIR>          Specify rootfs directory (inline)\n\nOptions for 'builder':\n    -a, --apkbuild <APKBUILD>   Use a specific APKBUILD file as input\n        --apkbuild=<APKBUILD>   Use a specific APKBUILD file as input (inline)\n    -R, --rootfs <DIR>          Specify rootfs directory\n        --rootfs=<DIR>          Specify rootfs directory (inline)\n\nOptions for 'run':\n    -0, --root                  Run with root privileges inside rootfs\n    -i, --ignore-extra-binds    Ignore additional bind mounts\n    -b, --bind-args <ARGS>      Additional bind arguments (can be inline or next argument)\n        --bind-args=<ARGS>      Additional bind arguments (inline)\n    -c, --command <CMD>         Command to execute inside rootfs (can be repeated)\n        --command=<CMD>         Command to execute (inline)\n    -R, --rootfs <DIR>          Specify rootfs directory\n        --rootfs=<DIR>          Specify rootfs directory (inline)\n\nOptions for 'config':\n        --use-proot             Use 'proot' as rootfs handler (default)\n        --use-bwrap             Use 'bwrap' as rootfs handler\n        --use-latest-stable     Use 'latest-stable' release (default)\n        --use-edge              Use 'edge' release\n        --cache-dir <DIR>       Set cache directory\n        --cache-dir=<DIR>       Set cache directory (inline)\n        --output-dir <DIR>      Set output directory (default current directory)\n        --output-dir=<DIR>      Set output directory (inline)\n        --rootfs-dir <DIR>      Set rootfs directory\n        --rootfs-dir=<DIR>      Set rootfs directory (inline)\n        --default-mirror <URL>  Set default Alpine mirror\n        --default-mirror=<URL>  Set default Alpine mirror (inline)\n\nGlobal Options:\n    -h, --help                  Show this help message\n    -V, --version               Show version\n\nEnvironment variables:\n    ALPACK_ARCH       Define the target architecture for rootfs (e.g., x86_64, aarch64)\n    ALPACK_ROOTFS     Specify the path to the root filesystem used by ALPack\n    ALPACK_CACHE      Specify the path to the cache directory used by ALPack\n\nExamples:\n    ";

/// The first example, after the program's name, up to the second.
pub const HELP_EXAMPLE_SETUP: &'static str =
    " setup --rootfs=/mnt/alpine --minimal --edge\n    ";

/// The second example, after the program's name, up to the third.
pub const HELP_EXAMPLE_APK: &'static str =
    " apk --rootfs=/mnt/alpine install curl\n    ";

/// The third example, after the program's name.
pub const HELP_EXAMPLE_RUN: &'static str =
    " run -R /mnt/alpine -0 -- fdisk -l\n";

/// The help text of the program started as `cmd`.
pub open spec fn help_text(cmd: Seq<char>) -> Seq<char> {
    cmd + HELP_INTRO@ + cmd + HELP_BODY@ + cmd + HELP_EXAMPLE_SETUP@ + cmd + HELP_EXAMPLE_APK@ + cmd
        + HELP_EXAMPLE_RUN@
}

/// The help text of the program started as `cmd`: what it is, its
/// parameters and options, and three examples.
pub fn print_help(cmd: &str) -> (r: String)
    ensures
        r@ == help_text(cmd@),
{
    let mut out = owned(cmd);
    out.append(HELP_INTRO);
    out.append(cmd);
    out.append(HELP_BODY);
    out.append(cmd);
    out.append(HELP_EXAMPLE_SETUP);
    out.append(cmd);
    out.append(HELP_EXAMPLE_APK);
    out.append(cmd);
    out.append(HELP_EXAMPLE_RUN);
    out
}

/// Decides what the program, started as `cmd`, was asked to do by its
/// first free argument `command` and the arguments after it.
///
/// Without a command the arguments go to `run`. A command that is not
/// known is an error of usage.
pub fn dispatch(cmd: String, command: Option<String>, remaining_args: Vec<String>) -> (r: Result<
    Invocation,
    UsageError,
>)
    ensures
        match command {
            None => r matches Ok(Invocation::Run(args)) && args == remaining_args,
            Some(c) => if c@ == "apk"@ {
                let found = scanned(texts(remaining_args@), 0, nothing_found());
                &&& r matches Ok(Invocation::Apk(apk))
                &&& apk.name@ == cmd@
                &&& opt_text(apk.rootfs) == found.rootfs
                &&& opt_text(apk.command) == found.subcommand
                &&& texts(apk.remaining_args@) == found.subargs
            } else if is_package_command(c@) {
                &&& r matches Ok(Invocation::Apk(apk))
                &&& apk.name@ == cmd@
                &&& apk.rootfs is None
                &&& opt_text(apk.command) == Some(c@)
                &&& apk.remaining_args == remaining_args
            } else if c@ == "aports"@ {
                r matches Ok(Invocation::Aports(args)) && args == remaining_args
            } else if c@ == "builder"@ {
                r matches Ok(Invocation::Builder(args)) && args == remaining_args
            } else if c@ == "config"@ {
                &&& r matches Ok(Invocation::Config(config))
                &&& config.name@ == cmd@
                &&& config.remaining_args == remaining_args
            } else if c@ == "run"@ {
                r matches Ok(Invocation::Run(args)) && args == remaining_args
            } else if c@ == "setup"@ {
                &&& r matches Ok(Invocation::Setup(setup))
                &&& setup.name@ == cmd@
                &&& setup.remaining_args == remaining_args
                &&& setup.def_rootfs is None
            } else if c@ == "-h"@ || c@ == "--help"@ {
                r matches Ok(Invocation::Help)
            } else if c@ == "-V"@ || c@ == "--version"@ {
                r matches Ok(Invocation::Version)
            } else {
                r matches Err(e) && e@ == (UsageErrorView::InvalidCommand { arg: c@ })
            },
        },
{
    let c = match command {
        Some(c) => c,
        None => {
            return Ok(Invocation::Run(remaining_args));
        },
    };
    if same(c.as_str(), "apk") {
        Ok(Invocation::Apk(scan_apk(cmd, &remaining_args)))
    } else if package_command(c.as_str()) {
        Ok(Invocation::Apk(Apk::new(cmd, Some(c), remaining_args, None)))
    } else if same(c.as_str(), "aports") {
        Ok(Invocation::Aports(remaining_args))
    } else if same(c.as_str(), "builder") {
        Ok(Invocation::Builder(remaining_args))
    } else if same(c.as_str(), "config") {
        Ok(Invocation::Config(Config::new(cmd, remaining_args)))
    } else if same(c.as_str(), "run") {
        Ok(Invocation::Run(remaining_args))
    } else if same(c.as_str(), "setup") {
        Ok(Invocation::Setup(Setup::new(cmd, remaining_args)))
    } else if same(c.as_str(), "-h") || same(c.as_str(), "--help") {
        Ok(Invocation::Help)
    } else if same(c.as_str(), "-V") || same(c.as_str(), "--version") {
        Ok(Invocation::Version)
    } else {
        Err(UsageError::InvalidCommand { arg: c })
    }
}

} // verus!
