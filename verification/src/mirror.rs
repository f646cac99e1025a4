//! From a mirror and a release channel to the address of the release index
//! and to the list of package repositories.

use vstd::prelude::*;
use crate::settings::Settings;
use crate::text::{join, joined, opt_text, owned, same, texts};

verus! {

/// The channel whose repositories include `testing`.
pub const EDGE: &'static str = "edge";

/// A mirror and a release channel, each of which may still be open.
#[derive(Debug)]
pub struct Mirror {
    pub mirror: Option<String>,
    pub release: Option<String>,
}

/// Whether a choice was made: it is present and not empty.
pub open spec fn chosen(choice: Option<Seq<char>>) -> bool {
    choice is Some && choice->Some_0.len() > 0
}

/// The address of the release index of `release` on `mirror` for `arch`.
pub open spec fn index_url(mirror: Seq<char>, release: Seq<char>, arch: Seq<char>) -> Seq<char> {
    mirror + release + "/releases/"@ + arch + "/"@
}

/// The repositories of `release` on `mirror`: `main` and `community`, and
/// `testing` as well on the edge channel.
pub open spec fn repository_lines(mirror: Seq<char>, release: Seq<char>) -> Seq<Seq<char>> {
    let base = mirror + release;
    if release == EDGE@ {
        seq![base + "/main"@, base + "/community"@, base + "/testing"@]
    } else {
        seq![base + "/main"@, base + "/community"@]
    }
}

/// The repository list as the text of a file: one repository per line.
pub open spec fn repository_text(mirror: Seq<char>, release: Seq<char>) -> Seq<char> {
    joined(repository_lines(mirror, release), seq!['\n'])
}

/// The edge channel has exactly the three repositories `main`, `community`
/// and `testing`; every other channel has exactly the first two.
pub proof fn lemma_repository_count(mirror: Seq<char>, release: Seq<char>)
    ensures
        release == EDGE@ ==> repository_lines(mirror, release).len() == 3,
        release != EDGE@ ==> repository_lines(mirror, release).len() == 2,
        repository_lines(mirror, release)[0] == mirror + release + "/main"@,
        repository_lines(mirror, release)[1] == mirror + release + "/community"@,
        release == EDGE@ ==> repository_lines(mirror, release)[2] == mirror + release + "/testing"@,
{
}

/// As long as neither the mirror nor the channel holds a line break, no
/// repository does, so that the text has exactly one line per repository.
pub proof fn lemma_repository_one_per_line(mirror: Seq<char>, release: Seq<char>, i: int)
    requires
        !mirror.contains('\n'),
        !release.contains('\n'),
        0 <= i < repository_lines(mirror, release).len(),
    ensures
        !repository_lines(mirror, release)[i].contains('\n'),
{
    reveal_strlit("/main");
    reveal_strlit("/community");
    reveal_strlit("/testing");
    let base = mirror + release;
    let line = repository_lines(mirror, release)[i];
    if line.contains('\n') {
        let k = choose|k: int| 0 <= k < line.len() && line[k] == '\n';
        assert(k >= base.len() ==> line.skip(base.len() as int)[k - base.len()] == '\n');
    }
}

impl Mirror {
    pub fn new(mirror: Option<String>, release: Option<String>) -> (r: Mirror)
        ensures
            r.mirror == mirror,
            r.release == release,
    {
        Mirror { mirror, release }
    }

    /// Fills what is still open from the settings: the mirror from the
    /// default mirror, the channel from the configured release. A choice
    /// that was made stays.
    pub fn run(&mut self, sett: &Settings)
        ensures
            opt_text(final(self).mirror) == (if chosen(opt_text(old(self).mirror)) {
                opt_text(old(self).mirror)
            } else {
                Some(sett.default_mirror@)
            }),
            opt_text(final(self).release) == (if chosen(opt_text(old(self).release)) {
                opt_text(old(self).release)
            } else {
                Some(sett.release@)
            }),
    {
        let keep_mirror = match &self.mirror {
            Some(m) => m.as_str().unicode_len() > 0,
            None => false,
        };
        if !keep_mirror {
            self.mirror = Some(sett.default_mirror.clone());
        }
        let keep_release = match &self.release {
            Some(r) => r.as_str().unicode_len() > 0,
            None => false,
        };
        if !keep_release {
            self.release = Some(sett.release.clone());
        }
    }

    /// The address of the release index for the architecture `arch`.
    pub fn get_mirror(&self, arch: &str) -> (r: String)
        requires
            self.mirror is Some,
            self.release is Some,
        ensures
            r@ == index_url(self.mirror->Some_0@, self.release->Some_0@, arch@),
    {
        let mut out = String::new();
        match &self.mirror {
            Some(m) => {
                out.append(m.as_str());
            },
            None => {},
        }
        match &self.release {
            Some(r) => {
                out.append(r.as_str());
            },
            None => {},
        }
        out.append("/releases/");
        out.append(arch);
        out.append("/");
        out
    }

    /// The repository list of the rootfs, one repository per line.
    pub fn get_repository(&mut self) -> (r: String)
        requires
            old(self).mirror is Some,
            old(self).release is Some,
        ensures
            *final(self) == *old(self),
            r@ == repository_text(old(self).mirror->Some_0@, old(self).release->Some_0@),
    {
        let mut base = String::new();
        let mut edge = false;
        match &self.mirror {
            Some(m) => {
                base.append(m.as_str());
            },
            None => {},
        }
        match &self.release {
            Some(r) => {
                base.append(r.as_str());
                edge = same(r.as_str(), EDGE);
            },
            None => {},
        }
        let mut lines: Vec<String> = Vec::new();
        lines.push(base.clone().concat("/main"));
        lines.push(base.clone().concat("/community"));
        if edge {
            lines.push(base.clone().concat("/testing"));
        }
        proof {
            reveal_strlit("\n");
            assert("\n"@ =~= seq!['\n']);
            assert(texts(lines@) =~= repository_lines(
                self.mirror->Some_0@,
                self.release->Some_0@,
            ));
        }
        join(&lines, "\n")
    }
}

} // verus!
