//! The `apk` subcommand: from what the user asked for to the command line
//! that the package manager is run with inside the rootfs.

use vstd::prelude::*;
use crate::error::{UsageError, UsageErrorView};
use crate::mirror::chosen;
use crate::settings::Settings;
use crate::text::{join, joined, opt_text, owned, same, texts};

verus! {

/// A request to the package manager.
#[derive(Debug)]
pub struct Apk {
    /// The name the program was started under.
    pub name: String,
    /// What to do: `add`, `del`, `update`, ... or any command of `apk`.
    pub command: Option<String>,
    /// What to do it with.
    pub remaining_args: Vec<String>,
    /// The rootfs to do it in, where the user named one.
    pub rootfs: Option<String>,
}

/// A command to run inside a rootfs.
#[derive(Debug)]
pub struct CommandRequest {
    pub rootfs: String,
    pub command: String,
}

/// The package manager's command for what the user asked for. The short
/// forms stand for fixed commands; anything else is handed to `apk` as it
/// is.
pub open spec fn base_command(command: Seq<char>) -> Seq<char> {
    if command == "add"@ || command == "install"@ {
        "apk add"@
    } else if command == "del"@ || command == "remove"@ {
        "apk del"@
    } else if command == "-u"@ || command == "update"@ {
        "apk update; apk upgrade"@
    } else if command == "-s"@ || command == "search"@ {
        "apk search"@
    } else if command == "fix"@ {
        "apk fix"@
    } else {
        "apk "@ + command
    }
}

/// The command line: the command, a blank, and the arguments with blanks
/// between them.
pub open spec fn command_line(cmd: Seq<char>, args: Seq<Seq<char>>) -> Seq<char> {
    cmd + " "@ + joined(args, " "@)
}

/// The rootfs to work in: the one the user named, if any, else the one in
/// force by environment and settings.
pub open spec fn working_rootfs(
    named: Option<Seq<char>>,
    env_rootfs: Option<Seq<char>>,
    configured: Seq<char>,
) -> Seq<char> {
    if chosen(named) {
        named->Some_0
    } else {
        match env_rootfs {
            Some(dir) => dir,
            None => configured,
        }
    }
}

impl Apk {
    pub fn new(
        name: String,
        command: Option<String>,
        remaining_args: Vec<String>,
        rootfs: Option<String>,
    ) -> (r: Apk)
        ensures
            r.name == name,
            r.command == command,
            r.remaining_args == remaining_args,
            r.rootfs == rootfs,
    {
        Apk { name, command, remaining_args, rootfs }
    }

    /// Turns the request into the command to run. A request without
    /// command is an error of usage.
    pub fn run(&self, sett: &Settings, env_rootfs: Option<String>) -> (r: Result<
        CommandRequest,
        UsageError,
    >)
        ensures
            match self.command {
                Some(command) => {
                    &&& r is Ok
                    &&& r->Ok_0.rootfs@ == working_rootfs(
                        opt_text(self.rootfs),
                        opt_text(env_rootfs),
                        sett.rootfs_dir@,
                    )
                    &&& r->Ok_0.command@ == command_line(
                        base_command(command@),
                        texts(self.remaining_args@),
                    )
                },
                None => r is Err && r->Err_0@ == (UsageErrorView::NoCommand { sub: "apk"@ }),
            },
    {
        match &self.command {
            Some(command) => {
                let c = command.as_str();
                let base = if same(c, "add") || same(c, "install") {
                    owned("apk add")
                } else if same(c, "del") || same(c, "remove") {
                    owned("apk del")
                } else if same(c, "-u") || same(c, "update") {
                    owned("apk update; apk upgrade")
                } else if same(c, "-s") || same(c, "search") {
                    owned("apk search")
                } else if same(c, "fix") {
                    owned("apk fix")
                } else {
                    owned("apk ").concat(c)
                };
                Ok(self.run_apk(base.as_str(), sett, env_rootfs))
            },
            None => Err(UsageError::NoCommand { sub: owned("apk") }),
        }
    }

    /// The request to run `cmd` with the arguments of `self` in the rootfs
    /// that `self` works in.
    pub fn run_apk(&self, cmd: &str, sett: &Settings, env_rootfs: Option<String>) -> (r:
        CommandRequest)
        ensures
            r.rootfs@ == working_rootfs(
                opt_text(self.rootfs),
                opt_text(env_rootfs),
                sett.rootfs_dir@,
            ),
            r.command@ == command_line(cmd@, texts(self.remaining_args@)),
    {
        let named = match &self.rootfs {
            Some(dir) => dir.as_str().unicode_len() > 0,
            None => false,
        };
        let rootfs = if named {
            match &self.rootfs {
                Some(dir) => dir.clone(),
                None => String::new(),
            }
        } else {
            sett.set_rootfs(env_rootfs)
        };
        let args = join(&self.remaining_args, " ");
        let mut command = owned(cmd);
        command.append(" ");
        command.append(args.as_str());
        CommandRequest { rootfs, command }
    }
}

} // verus!
