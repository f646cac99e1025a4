//! Release versions as orderable keys.
//!
//! A key is three numbers and a suffix. Keys are ordered by the numbers
//! first and by the suffix last, the suffix as text: character by character,
//! a shorter text before its extensions. A release without suffix therefore
//! comes before every suffixed release of the same numbers.

use vstd::prelude::*;
use crate::number::{decimal, parse_decimal};
use crate::pattern::{captures, regex_captures, Captured, CapturedView};
use crate::text::{chars_of, lemma_code_points_differ, opt_texts};

verus! {

/// The orderable form of a version such as `3.19.2` or `3.23.0_alpha20250612`.
#[derive(Debug)]
pub struct VersionKey {
    pub major: u32,
    pub minor: u32,
    pub patch: u32,
    pub suffix: String,
}

/// A `VersionKey` as mathematics sees it.
pub struct VersionKeyView {
    pub major: nat,
    pub minor: nat,
    pub patch: nat,
    pub suffix: Seq<char>,
}

impl View for VersionKey {
    type V = VersionKeyView;

    open spec fn view(&self) -> VersionKeyView {
        VersionKeyView {
            major: self.major as nat,
            minor: self.minor as nat,
            patch: self.patch as nat,
            suffix: self.suffix@,
        }
    }
}

/// Text order: `a` comes strictly before `b` when, at the first place where
/// they differ, `a` has the smaller character, or when `a` ends there and
/// `b` goes on.
pub open spec fn text_before(a: Seq<char>, b: Seq<char>) -> bool
    decreases a.len(),
{
    if b.len() == 0 {
        false
    } else if a.len() == 0 {
        true
    } else if a[0] != b[0] {
        (a[0] as u32) < (b[0] as u32)
    } else {
        text_before(a.drop_first(), b.drop_first())
    }
}

impl VersionKeyView {
    /// `self` comes strictly before `other`.
    pub open spec fn before(self, other: VersionKeyView) -> bool {
        if self.major != other.major {
            self.major < other.major
        } else if self.minor != other.minor {
            self.minor < other.minor
        } else if self.patch != other.patch {
            self.patch < other.patch
        } else {
            text_before(self.suffix, other.suffix)
        }
    }

    /// `self` comes before `other` or is the same key.
    pub open spec fn at_most(self, other: VersionKeyView) -> bool {
        self.before(other) || self == other
    }
}

/// Text order never puts a text before itself.
pub proof fn lemma_text_irreflexive(a: Seq<char>)
    ensures
        !text_before(a, a),
    decreases a.len(),
{
    if a.len() > 0 {
        lemma_text_irreflexive(a.drop_first());
    }
}

/// Of two different texts one comes before the other.
pub proof fn lemma_text_total(a: Seq<char>, b: Seq<char>)
    ensures
        text_before(a, b) || text_before(b, a) || a == b,
    decreases a.len(),
{
    if a.len() > 0 && b.len() > 0 {
        if a[0] == b[0] {
            lemma_text_total(a.drop_first(), b.drop_first());
            if a.drop_first() == b.drop_first() {
                assert(a =~= seq![a[0]] + a.drop_first());
                assert(b =~= seq![b[0]] + b.drop_first());
            }
        } else {
            lemma_code_points_differ(a[0], b[0]);
        }
    } else if a.len() == 0 && b.len() == 0 {
        assert(a =~= b);
    }
}

/// Text order never holds both ways.
pub proof fn lemma_text_asymmetric(a: Seq<char>, b: Seq<char>)
    requires
        text_before(a, b),
    ensures
        !text_before(b, a),
    decreases a.len(),
{
    if a.len() > 0 && b.len() > 0 && a[0] == b[0] {
        lemma_text_asymmetric(a.drop_first(), b.drop_first());
    }
}

/// Text order is transitive.
pub proof fn lemma_text_transitive(a: Seq<char>, b: Seq<char>, c: Seq<char>)
    requires
        text_before(a, b),
        text_before(b, c),
    ensures
        text_before(a, c),
    decreases a.len(),
{
    if a.len() > 0 && b.len() > 0 && c.len() > 0 {
        if a[0] == b[0] && b[0] == c[0] {
            lemma_text_transitive(a.drop_first(), b.drop_first(), c.drop_first());
        }
    }
}

/// The empty text comes before every other text.
pub proof fn lemma_empty_text_first(b: Seq<char>)
    requires
        b.len() > 0,
    ensures
        text_before(Seq::<char>::empty(), b),
{
}

/// No key comes before itself.
pub proof fn lemma_key_irreflexive(a: VersionKeyView)
    ensures
        !a.before(a),
{
    lemma_text_irreflexive(a.suffix);
}

/// The order of keys is total: of two different keys exactly one comes
/// before the other.
pub proof fn lemma_key_total(a: VersionKeyView, b: VersionKeyView)
    ensures
        a.before(b) || b.before(a) || a == b,
        !(a.before(b) && b.before(a)),
        a.at_most(b) || b.at_most(a),
{
    lemma_text_total(a.suffix, b.suffix);
    if text_before(a.suffix, b.suffix) {
        lemma_text_asymmetric(a.suffix, b.suffix);
    }
}

/// The order of keys is transitive.
pub proof fn lemma_key_transitive(a: VersionKeyView, b: VersionKeyView, c: VersionKeyView)
    requires
        a.before(b),
        b.before(c),
    ensures
        a.before(c),
{
    if a.major == b.major && b.major == c.major && a.minor == b.minor && b.minor == c.minor
        && a.patch == b.patch && b.patch == c.patch {
        lemma_text_transitive(a.suffix, b.suffix, c.suffix);
    }
}

/// "Before or equal" is transitive and antisymmetric as well.
pub proof fn lemma_key_at_most(a: VersionKeyView, b: VersionKeyView, c: VersionKeyView)
    ensures
        a.at_most(b) && b.at_most(c) ==> a.at_most(c),
        a.at_most(b) && b.at_most(a) ==> a == b,
{
    if a.before(b) && b.before(c) {
        lemma_key_transitive(a, b, c);
    }
    lemma_key_total(a, b);
}

/// A release without suffix comes before each suffixed release of the same
/// numbers.
pub proof fn lemma_plain_before_suffixed(a: VersionKeyView, b: VersionKeyView)
    requires
        a.major == b.major,
        a.minor == b.minor,
        a.patch == b.patch,
        a.suffix.len() == 0,
        b.suffix.len() > 0,
    ensures
        a.before(b),
{
}

/// Whether the text `a` comes strictly before the text `b`.
pub fn text_lt(a: &str, b: &str) -> (r: bool)
    ensures
        r == text_before(a@, b@),
{
    let x = chars_of(a);
    let y = chars_of(b);
    let mut i: usize = 0;
    assert(a@.skip(0) =~= a@ && b@.skip(0) =~= b@);
    while i < x.len() && i < y.len()
        invariant
            i <= x.len(),
            i <= y.len(),
            x@ == a@,
            y@ == b@,
            text_before(a@, b@) == text_before(a@.skip(i as int), b@.skip(i as int)),
        decreases x.len() - i,
    {
        let ghost ra = a@.skip(i as int);
        let ghost rb = b@.skip(i as int);
        assert(ra.drop_first() =~= a@.skip(i + 1));
        assert(rb.drop_first() =~= b@.skip(i + 1));
        if x[i] != y[i] {
            let p: u32 = x[i] as u32;
            let q: u32 = y[i] as u32;
            return p < q;
        }
        i = i + 1;
    }
    i < y.len()
}

/// The shape of a version: three numbers separated by dots, then optionally
/// an alphanumeric suffix that may be set off by `_` or `-`.
pub const VERSION_PATTERN: &'static str = "^(\\d+)\\.(\\d+)\\.(\\d+)(?:[_\\-]?([a-zA-Z0-9]+))?$";

/// The group at index `i`, if there is one and it took part in the match.
pub open spec fn group(groups: Seq<Option<Seq<char>>>, i: int) -> Option<Seq<char>> {
    if 0 <= i < groups.len() {
        groups[i]
    } else {
        None
    }
}

/// The key that the groups of a match of `VERSION_PATTERN` denote: groups 1
/// to 3 are the numbers, each of which must fit in 32 bits, and group 4 is
/// the suffix, empty where the version has none.
pub open spec fn key_of_groups(groups: Seq<Option<Seq<char>>>) -> Option<VersionKeyView> {
    match (group(groups, 1), group(groups, 2), group(groups, 3)) {
        (Some(a), Some(b), Some(c)) => match (
            decimal(a, u32::MAX as nat),
            decimal(b, u32::MAX as nat),
            decimal(c, u32::MAX as nat),
        ) {
            (Some(major), Some(minor), Some(patch)) => Some(
                VersionKeyView {
                    major,
                    minor,
                    patch,
                    suffix: match group(groups, 4) {
                        Some(s) => s,
                        None => Seq::empty(),
                    },
                },
            ),
            _ => None,
        },
        _ => None,
    }
}

/// The key that a search result denotes; only a match denotes one.
pub open spec fn key_of_captures(found: CapturedView) -> Option<VersionKeyView> {
    match found {
        CapturedView::Groups(groups) => key_of_groups(groups),
        _ => None,
    }
}

/// The view of a key that may be absent.
pub open spec fn opt_key(k: Option<VersionKey>) -> Option<VersionKeyView> {
    match k {
        Some(key) => Some(key@),
        None => None,
    }
}

/// Reads group `i` as a number of at most 32 bits.
fn group_number(groups: &Vec<Option<String>>, i: usize) -> (r: Option<u32>)
    ensures
        match group(opt_texts(groups@), i as int) {
            Some(s) => match decimal(s, u32::MAX as nat) {
                Some(v) => r == Some(v as u32),
                None => r is None,
            },
            None => r is None,
        },
{
    if i >= groups.len() {
        return None;
    }
    match &groups[i] {
        Some(s) => match parse_decimal(s.as_str(), 0xffff_ffff) {
            Some(v) => Some(v as u32),
            None => None,
        },
        None => None,
    }
}

impl VersionKey {
    /// Builds the key from the groups of a match of `VERSION_PATTERN`.
    pub fn from_groups(groups: &Vec<Option<String>>) -> (r: Option<VersionKey>)
        ensures
            opt_key(r) == key_of_groups(opt_texts(groups@)),
    {
        let major = match group_number(groups, 1) {
            Some(v) => v,
            None => {
                return None;
            },
        };
        let minor = match group_number(groups, 2) {
            Some(v) => v,
            None => {
                return None;
            },
        };
        let patch = match group_number(groups, 3) {
            Some(v) => v,
            None => {
                return None;
            },
        };
        let suffix = if groups.len() > 4 {
            match &groups[4] {
                Some(s) => s.clone(),
                None => String::new(),
            }
        } else {
            String::new()
        };
        Some(VersionKey { major, minor, patch, suffix })
    }

    /// Whether `self` comes strictly before `other`.
    pub fn lt(&self, other: &VersionKey) -> (r: bool)
        ensures
            r == self@.before(other@),
    {
        if self.major != other.major {
            self.major < other.major
        } else if self.minor != other.minor {
            self.minor < other.minor
        } else if self.patch != other.patch {
            self.patch < other.patch
        } else {
            text_lt(self.suffix.as_str(), other.suffix.as_str())
        }
    }
}

/// Reads a version string into its key; `None` for a text that is no
/// version.
pub fn parse_version_key(version: &str) -> (r: Option<VersionKey>)
    ensures
        opt_key(r) == key_of_captures(regex_captures(VERSION_PATTERN@, version@)),
{
    match captures(VERSION_PATTERN, version) {
        Captured::Groups(groups) => VersionKey::from_groups(&groups),
        _ => None,
    }
}

} // verus!
