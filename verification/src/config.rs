//! The `config` subcommand: options that change the settings.

use vstd::prelude::*;
use crate::error::{UsageError, UsageErrorView};
use crate::settings::{Settings, SettingsView};
use crate::text::{owned, same, starts_with, texts};
use crate::utils::{_parse_key_value, key_value};

verus! {

/// A request to show or change the settings.
#[derive(Debug)]
pub struct Config {
    /// The name the program was started under.
    pub name: String,
    /// The options.
    pub remaining_args: Vec<String>,
}

/// The subcommand that value errors are reported under.
pub const CONFIG: &'static str = "config";

/// The heading that unknown arguments are reported under.
pub const UNKNOWN_HEADING: &'static str = "aports";

/// Which field an option with a value changes.
#[derive(Debug, Clone, Copy, PartialEq, Eq, Structural)]
pub enum Field {
    CacheDir,
    RootfsDir,
    DefaultMirror,
}

/// What an argument asks for.
pub enum Meaning {
    /// Use this sandbox handler.
    Handler(Seq<char>),
    /// Use this release channel.
    Release(Seq<char>),
    /// Set the field to the value behind the equals sign.
    Inline(Field),
    /// Set the field to the argument that follows.
    Spaced(Field),
    /// Nothing that is known.
    Unknown,
}

/// What the argument `arg` asks for. Both the rootfs option and the output
/// option set the rootfs directory.
pub open spec fn meaning(arg: Seq<char>) -> Meaning {
    if arg == "--use-proot"@ {
        Meaning::Handler("proot"@)
    } else if arg == "--use-bwrap"@ {
        Meaning::Handler("bwrap"@)
    } else if arg == "--use-latest-stable"@ {
        Meaning::Release("latest-stable"@)
    } else if arg == "--use-edge"@ {
        Meaning::Release("edge"@)
    } else if "--cache-dir="@.is_prefix_of(arg) {
        Meaning::Inline(Field::CacheDir)
    } else if arg == "--cache-dir"@ {
        Meaning::Spaced(Field::CacheDir)
    } else if "--rootfs-dir="@.is_prefix_of(arg) {
        Meaning::Inline(Field::RootfsDir)
    } else if arg == "--rootfs-dir"@ {
        Meaning::Spaced(Field::RootfsDir)
    } else if "--output-dir="@.is_prefix_of(arg) {
        Meaning::Inline(Field::RootfsDir)
    } else if arg == "--output-dir"@ {
        Meaning::Spaced(Field::RootfsDir)
    } else if "--default-mirror="@.is_prefix_of(arg) {
        Meaning::Inline(Field::DefaultMirror)
    } else if arg == "--default-mirror"@ {
        Meaning::Spaced(Field::DefaultMirror)
    } else {
        Meaning::Unknown
    }
}

/// The kind of value that a field takes, as error messages name it.
pub open spec fn value_kind(field: Field) -> Seq<char> {
    match field {
        Field::DefaultMirror => "mirror"@,
        _ => "directory"@,
    }
}

/// The settings with `field` set to `value`.
pub open spec fn with_field(s: SettingsView, field: Field, value: Seq<char>) -> SettingsView {
    match field {
        Field::CacheDir => SettingsView { cache_dir: value, ..s },
        Field::RootfsDir => SettingsView { rootfs_dir: value, ..s },
        Field::DefaultMirror => SettingsView { default_mirror: value, ..s },
    }
}

/// The argument at index `i`, or the empty text where the list ends before.
pub open spec fn arg_or_empty(args: Seq<Seq<char>>, i: int) -> Seq<char> {
    if 0 <= i < args.len() {
        args[i]
    } else {
        Seq::empty()
    }
}

/// The settings after the arguments from index `i` on were applied to `s`,
/// from left to right; or the first error met on the way.
pub open spec fn applied(args: Seq<Seq<char>>, i: int, s: SettingsView) -> Result<
    SettingsView,
    UsageErrorView,
>
    decreases args.len() - i,
{
    if i < 0 || i >= args.len() {
        Ok(s)
    } else {
        match meaning(args[i]) {
            Meaning::Handler(h) => applied(args, i + 1, SettingsView { cmd_rootfs: h, ..s }),
            Meaning::Release(r) => applied(args, i + 1, SettingsView { release: r, ..s }),
            Meaning::Inline(field) => match key_value(CONFIG@, value_kind(field), args[i], None) {
                Ok(value) => applied(args, i + 1, with_field(s, field, value)),
                Err(e) => Err(e),
            },
            Meaning::Spaced(field) => match key_value(
                CONFIG@,
                value_kind(field),
                args[i],
                Some(arg_or_empty(args, i + 1)),
            ) {
                Ok(value) => applied(args, i + 2, with_field(s, field, value)),
                Err(e) => Err(e),
            },
            Meaning::Unknown => Err(
                UsageErrorView::InvalidArgument { sub: UNKNOWN_HEADING@, arg: args[i] },
            ),
        }
    }
}

/// The settings after a run, and whether they are to be stored.
#[derive(Debug)]
pub struct ConfigOutcome {
    pub settings: Settings,
    /// Whether the settings are to be written to storage: so wherever
    /// options were given.
    pub save: bool,
}

/// The meaning of an argument, for the executable side.
enum Parsed {
    Handler(String),
    Release(String),
    Inline(Field),
    Spaced(Field),
    Unknown,
}

impl Parsed {
    spec fn meaning(self) -> Meaning {
        match self {
            Parsed::Handler(h) => Meaning::Handler(h@),
            Parsed::Release(r) => Meaning::Release(r@),
            Parsed::Inline(f) => Meaning::Inline(f),
            Parsed::Spaced(f) => Meaning::Spaced(f),
            Parsed::Unknown => Meaning::Unknown,
        }
    }
}

/// Reads what an argument asks for.
fn parse(arg: &str) -> (r: Parsed)
    ensures
        r.meaning() == meaning(arg@),
{
    if same(arg, "--use-proot") {
        Parsed::Handler(owned("proot"))
    } else if same(arg, "--use-bwrap") {
        Parsed::Handler(owned("bwrap"))
    } else if same(arg, "--use-latest-stable") {
        Parsed::Release(owned("latest-stable"))
    } else if same(arg, "--use-edge") {
        Parsed::Release(owned("edge"))
    } else if starts_with(arg, "--cache-dir=") {
        Parsed::Inline(Field::CacheDir)
    } else if same(arg, "--cache-dir") {
        Parsed::Spaced(Field::CacheDir)
    } else if starts_with(arg, "--rootfs-dir=") {
        Parsed::Inline(Field::RootfsDir)
    } else if same(arg, "--rootfs-dir") {
        Parsed::Spaced(Field::RootfsDir)
    } else if starts_with(arg, "--output-dir=") {
        Parsed::Inline(Field::RootfsDir)
    } else if same(arg, "--output-dir") {
        Parsed::Spaced(Field::RootfsDir)
    } else if starts_with(arg, "--default-mirror=") {
        Parsed::Inline(Field::DefaultMirror)
    } else if same(arg, "--default-mirror") {
        Parsed::Spaced(Field::DefaultMirror)
    } else {
        Parsed::Unknown
    }
}

/// The kind of value that a field takes.
fn kind_of(field: Field) -> (r: &'static str)
    ensures
        r@ == value_kind(field),
{
    match field {
        Field::DefaultMirror => "mirror",
        _ => "directory",
    }
}

/// Sets `field` to `value`.
fn set_field(sett: &mut Settings, field: Field, value: String)
    ensures
        final(sett)@ == with_field(old(sett)@, field, value@),
{
    match field {
        Field::CacheDir => {
            sett.cache_dir = value;
        },
        Field::RootfsDir => {
            sett.rootfs_dir = value;
        },
        Field::DefaultMirror => {
            sett.default_mirror = value;
        },
    }
}

impl Config {
    pub fn new(name: String, remaining_args: Vec<String>) -> (r: Config)
        ensures
            r.name == name,
            r.remaining_args == remaining_args,
    {
        Config { name, remaining_args }
    }

    /// Applies the options to `sett`, from left to right. The first option
    /// that is unknown or lacks its value ends the run with an error.
    pub fn run(&self, sett: Settings) -> (r: Result<ConfigOutcome, UsageError>)
        ensures
            match applied(texts(self.remaining_args@), 0, sett@) {
                Ok(s) => {
                    &&& r is Ok
                    &&& r->Ok_0.settings@ == s
                    &&& r->Ok_0.save == (self.remaining_args@.len() > 0)
                },
                Err(e) => r is Err && r->Err_0@ == e,
            },
    {
        let ghost args = texts(self.remaining_args@);
                let n = self.remaining_args.len();
        let mut current = sett;
        let mut i: usize = 0;
        while i < n
            invariant
                i <= n,
                n == self.remaining_args@.len(),
                args == texts(self.remaining_args@),
                applied(args, 0, sett@) == applied(args, i as int, current@),
            decreases n - i,
        {
            let arg = self.remaining_args[i].clone();
            match parse(arg.as_str()) {
                Parsed::Handler(h) => {
                    current.cmd_rootfs = h;
                    i = i + 1;
                },
                Parsed::Release(r) => {
                    current.release = r;
                    i = i + 1;
                },
                Parsed::Inline(field) => {
                    match _parse_key_value(CONFIG, kind_of(field), arg, None) {
                        Ok(found) => {
                            match found {
                                Some(value) => {
                                    set_field(&mut current, field, value);
                                },
                                None => {},
                            }
                            i = i + 1;
                        },
                        Err(e) => {
                            return Err(e);
                        },
                    }
                },
                Parsed::Spaced(field) => {
                    let next = if i + 1 < n {
                        self.remaining_args[i + 1].clone()
                    } else {
                        String::new()
                    };
                    match _parse_key_value(CONFIG, kind_of(field), arg, Some(next)) {
                        Ok(found) => {
                            match found {
                                Some(value) => {
                                    set_field(&mut current, field, value);
                                },
                                None => {},
                            }
                            i = i + 2;
                        },
                        Err(e) => {
                            return Err(e);
                        },
                    }
                },
                Parsed::Unknown => {
                    return Err(
                        UsageError::InvalidArgument { sub: owned(UNKNOWN_HEADING), arg },
                    );
                },
            }
        }
        Ok(ConfigOutcome { settings: current, save: n > 0 })
    }
}

} // verus!
