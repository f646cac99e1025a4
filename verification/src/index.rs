//! Finding the newest rootfs archive in a release index.
//!
//! An index is an HTML page of links. The archives among them are named
//! `alpine-minirootfs-<version>-<arch>.tar.gz`. Of those whose version can be
//! read, the one with the greatest key is the latest; where several share
//! the greatest key, the one that the HTML library yields last.

use vstd::prelude::*;
use crate::pattern::{captures, regex_captures, Captured, CapturedView};
use crate::text::{byte_len, byte_length, opt_text, opt_texts, owned};
use crate::version::{
    group, key_of_captures, lemma_key_at_most, lemma_key_total, parse_version_key, VersionKey,
    VersionKeyView, VERSION_PATTERN,
};

verus! {

/// One archive offered by an index.
#[derive(Debug)]
pub struct CandidateEntry {
    /// The orderable form of `version`.
    pub key: VersionKey,
    /// The version as the file name spells it.
    pub version: String,
    /// The link target, relative to the index.
    pub href: String,
}

/// A `CandidateEntry` as mathematics sees it.
pub struct CandidateView {
    pub key: VersionKeyView,
    pub version: Seq<char>,
    pub href: Seq<char>,
}

impl View for CandidateEntry {
    type V = CandidateView;

    open spec fn view(&self) -> CandidateView {
        CandidateView { key: self.key@, version: self.version@, href: self.href@ }
    }
}

/// The view of a candidate that may be absent.
pub open spec fn opt_candidate(c: Option<CandidateEntry>) -> Option<CandidateView> {
    match c {
        Some(entry) => Some(entry@),
        None => None,
    }
}

/// The views of a list of candidates, one by one.
pub open spec fn candidate_views(v: Seq<CandidateEntry>) -> Seq<CandidateView> {
    Seq::new(v.len(), |i: int| v[i]@)
}

/// Why an index could not be searched.
#[derive(Debug, Clone, Copy, PartialEq, Eq, Structural)]
pub enum IndexError {
    /// The page is longer than `PAGE_LIMIT` bytes.
    TooLong,
    /// The selector for links was refused by the HTML library.
    BadSelector,
    /// With this architecture tag the file name pattern is no regular
    /// expression.
    BadArchitecture,
}

/// The longest page, in bytes, that is handed to the HTML library: half a
/// gigabyte. The library keeps each text in a buffer that cannot grow
/// beyond 2^31 bytes, and a text can come out of a page up to three times
/// as long as it went in, since a zero byte is read as a replacement
/// character of three bytes.
pub const PAGE_LIMIT: usize = 0x2000_0000;

/// The selector that finds the links of an index.
pub const LINK_SELECTOR: &'static str = "a";

/// The attribute that holds a link's target.
pub const LINK_ATTRIBUTE: &'static str = "href";

/// What comes before the architecture tag in the file name pattern.
pub const FILE_PATTERN_HEAD: &'static str = "^alpine-minirootfs-([\\w.\\-]+)-";

/// What comes after the architecture tag in the file name pattern.
pub const FILE_PATTERN_TAIL: &'static str = "\\.tar\\.gz$";

/// The pattern that a rootfs archive's file name matches for the
/// architecture `arch`. Group 1 is the version. The tag is put into the
/// pattern as it is.
pub open spec fn file_pattern(arch: Seq<char>) -> Seq<char> {
    FILE_PATTERN_HEAD@ + arch + FILE_PATTERN_TAIL@
}

/// What the `scraper` crate yields for `html` parsed as a document: for
/// each element that `selector` matches, in the order in which the library
/// yields them, the value of its attribute `attr`, or `None` where the
/// element has no such attribute. `None` as a whole where `selector` is no
/// CSS selector.
pub uninterp spec fn selected_attrs(html: Seq<char>, selector: Seq<char>, attr: Seq<char>) -> Option<
    Seq<Option<Seq<char>>>,
>;

/// The view of a list of attribute values that may be absent as a whole.
pub open spec fn opt_attrs(found: Option<Vec<Option<String>>>) -> Option<Seq<Option<Seq<char>>>> {
    match found {
        Some(values) => Some(opt_texts(values@)),
        None => None,
    }
}

/// Parses `selector` with `scraper::Selector::parse` and `html` with
/// `scraper::Html::parse_document`, walks the matches of `Html::select` and
/// reads `attr` from each with `Element::attr`.
///
/// Trusted: the result is what `selected_attrs` names. The page must keep
/// to `PAGE_LIMIT`: the parser's buffers panic when they overflow.
#[verifier::external_body]
pub(crate) fn select_attrs(html: &str, selector: &str, attr: &str) -> (r: Option<Vec<Option<String>>>)
    requires
        byte_len(html@) <= PAGE_LIMIT,
    ensures
        opt_attrs(r) == selected_attrs(html@, selector@, attr@),
{
    let wanted = scraper::Selector::parse(selector).ok()?;
    let document = scraper::Html::parse_document(html);
    Some(document.select(&wanted).map(|e| e.value().attr(attr).map(|v| v.to_string())).collect())
}

/// The version that a match of the file name pattern holds: its group 1.
pub open spec fn version_of(found: CapturedView) -> Option<Seq<char>> {
    match found {
        CapturedView::Groups(groups) => group(groups, 1),
        _ => None,
    }
}

/// The candidate that a link target stands for, if it names an archive for
/// the architecture of `pattern` and its version can be read.
pub open spec fn candidate_of(pattern: Seq<char>, href: Seq<char>) -> Option<CandidateView> {
    match version_of(regex_captures(pattern, href)) {
        Some(version) => match key_of_captures(regex_captures(VERSION_PATTERN@, version)) {
            Some(key) => Some(CandidateView { key, version, href }),
            None => None,
        },
        None => None,
    }
}

/// The candidates among the link targets, in the order of the list.
pub open spec fn candidates_of(pattern: Seq<char>, hrefs: Seq<Option<Seq<char>>>) -> Seq<
    CandidateView,
>
    decreases hrefs.len(),
{
    if hrefs.len() == 0 {
        Seq::empty()
    } else {
        let earlier = candidates_of(pattern, hrefs.drop_last());
        match hrefs.last() {
            Some(href) => match candidate_of(pattern, href) {
                Some(c) => earlier.push(c),
                None => earlier,
            },
            None => earlier,
        }
    }
}

/// Index `i` holds the latest candidate: no key is greater than its key,
/// and no candidate after it has the same key.
pub open spec fn is_latest(candidates: Seq<CandidateView>, i: int) -> bool {
    &&& 0 <= i < candidates.len()
    &&& forall|j: int| 0 <= j < candidates.len() ==> (#[trigger] candidates[j]).key.at_most(candidates[i].key)
    &&& forall|j: int| i < j < candidates.len() ==> (#[trigger] candidates[j]).key != candidates[i].key
}

/// The latest candidate: the last one of those with the greatest key.
/// This is the last element once the list is sorted by key with a sort that
/// keeps equal keys in their order.
pub open spec fn latest(candidates: Seq<CandidateView>) -> Option<CandidateView>
    decreases candidates.len(),
{
    if candidates.len() == 0 {
        None
    } else {
        match latest(candidates.drop_last()) {
            Some(best) => if candidates.last().key.before(best.key) {
                Some(best)
            } else {
                Some(candidates.last())
            },
            None => Some(candidates.last()),
        }
    }
}

/// `latest` is `None` for the empty list only, and otherwise the candidate
/// at the one index that `is_latest` holds of.
pub proof fn lemma_latest(candidates: Seq<CandidateView>)
    ensures
        candidates.len() == 0 <==> latest(candidates) is None,
        candidates.len() > 0 ==> exists|i: int| #[trigger]
            is_latest(candidates, i) && latest(candidates) == Some(candidates[i]),
    decreases candidates.len(),
{
    if candidates.len() > 0 {
        let earlier = candidates.drop_last();
        let last = candidates.last();
        let n = candidates.len() - 1;
        lemma_latest(earlier);
        if earlier.len() == 0 {
            assert(is_latest(candidates, n));
        } else {
            let i = choose|i: int| #[trigger] is_latest(earlier, i) && latest(earlier) == Some(earlier[i]);
            let best = earlier[i];
            if last.key.before(best.key) {
                assert forall|j: int| 0 <= j < candidates.len() implies (#[trigger] candidates[j]).key.at_most(
                    candidates[i].key,
                ) by {
                    if j < n {
                        assert(earlier[j] == candidates[j]);
                    }
                }
                assert forall|j: int| i < j < candidates.len() implies (#[trigger] candidates[j]).key
                    != candidates[i].key by {
                    if j < n {
                        assert(earlier[j] == candidates[j]);
                    } else {
                        crate::version::lemma_key_irreflexive(best.key);
                    }
                }
                assert(is_latest(candidates, i));
            } else {
                lemma_key_total(last.key, best.key);
                assert forall|j: int| 0 <= j < candidates.len() implies (#[trigger] candidates[j]).key.at_most(
                    candidates[n].key,
                ) by {
                    if j < n {
                        assert(earlier[j].key.at_most(best.key));
                        lemma_key_at_most(candidates[j].key, best.key, last.key);
                    }
                }
            }
        }
    }
}

/// At most one index holds the latest candidate.
pub proof fn lemma_latest_unique(candidates: Seq<CandidateView>, i: int, j: int)
    requires
        is_latest(candidates, i),
        is_latest(candidates, j),
    ensures
        i == j,
{
    if i < j {
        lemma_key_at_most(candidates[i].key, candidates[j].key, candidates[i].key);
    } else if j < i {
        lemma_key_at_most(candidates[i].key, candidates[j].key, candidates[i].key);
    }
}

/// Picks the latest of the candidates.
pub fn pick_latest(candidates: Vec<CandidateEntry>) -> (r: Option<CandidateEntry>)
    ensures
        opt_candidate(r) == latest(candidate_views(candidates@)),
{
    let ghost all = candidate_views(candidates@);
    let mut list = candidates;
    let n = list.len();
    if n == 0 {
        return None;
    }
    let mut best: usize = 0;
    let mut i: usize = 1;
    assert(latest(all.take(1).drop_last()) is None);
    while i < n
        invariant
            1 <= i <= n,
            n == list@.len(),
            best < i,
            all == candidate_views(list@),
            latest(all.take(i as int)) == Some(all[best as int]),
        decreases n - i,
    {
        assert(all.take(i + 1).drop_last() =~= all.take(i as int));
        if !list[i].key.lt(&list[best].key) {
            best = i;
        }
        i = i + 1;
    }
    assert(all.take(n as int) =~= all);
    Some(list.swap_remove(best))
}

/// The version that a match of the file name pattern holds.
pub fn captured_version(found: &Captured) -> (r: Option<String>)
    ensures
        opt_text(r) == version_of(found@),
{
    match found {
        Captured::Groups(groups) => {
            if groups.len() <= 1 {
                return None;
            }
            match &groups[1] {
                Some(version) => Some(version.clone()),
                None => None,
            }
        },
        _ => None,
    }
}

/// The candidate that `href` stands for under `pattern`, if any.
pub fn candidate(pattern: &str, href: &str) -> (r: Option<CandidateEntry>)
    ensures
        opt_candidate(r) == candidate_of(pattern@, href@),
{
    let found = captures(pattern, href);
    match captured_version(&found) {
        Some(version) => match parse_version_key(version.as_str()) {
            Some(key) => Some(CandidateEntry { key, version, href: owned(href) }),
            None => None,
        },
        None => None,
    }
}

/// The candidates among the link targets, in the order of the list.
pub fn collect_candidates(pattern: &str, hrefs: &Vec<Option<String>>) -> (r: Vec<CandidateEntry>)
    ensures
        candidate_views(r@) == candidates_of(pattern@, opt_texts(hrefs@)),
{
    let ghost all = opt_texts(hrefs@);
    let mut out: Vec<CandidateEntry> = Vec::new();
    let mut i: usize = 0;
    while i < hrefs.len()
        invariant
            i <= hrefs.len(),
            all == opt_texts(hrefs@),
            candidate_views(out@) == candidates_of(pattern@, all.take(i as int)),
        decreases hrefs.len() - i,
    {
        assert(all.take(i + 1).drop_last() =~= all.take(i as int));
        match &hrefs[i] {
            Some(href) => match candidate(pattern, href.as_str()) {
                Some(c) => {
                    out.push(c);
                },
                None => {},
            },
            None => {},
        }
        i = i + 1;
    }
    assert(all.take(hrefs.len() as int) =~= all);
    out
}

/// What reading the attribute `attr` from the elements of the page `html`
/// that `selector` matches comes to: an error for a page beyond
/// `PAGE_LIMIT` and, after that, for a selector that cannot be read; else
/// what the HTML library yields.
pub open spec fn attributes_of(html: Seq<char>, selector: Seq<char>, attr: Seq<char>) -> Result<
    Seq<Option<Seq<char>>>,
    IndexError,
> {
    if byte_len(html) > PAGE_LIMIT {
        Err(IndexError::TooLong)
    } else {
        match selected_attrs(html, selector, attr) {
            Some(values) => Ok(values),
            None => Err(IndexError::BadSelector),
        }
    }
}

/// The values of the attribute `attr` of the elements of the page `html`
/// that `selector` matches, in the order in which the HTML library yields
/// them; `None` for an element without the attribute. A page that is too
/// long is an error, and so is a selector that cannot be read.
pub fn attributes(html: &str, selector: &str, attr: &str) -> (r: Result<
    Vec<Option<String>>,
    IndexError,
>)
    ensures
        match r {
            Ok(values) => attributes_of(html@, selector@, attr@) == Ok::<
                Seq<Option<Seq<char>>>,
                IndexError,
            >(opt_texts(values@)),
            Err(e) => attributes_of(html@, selector@, attr@) == Err::<
                Seq<Option<Seq<char>>>,
                IndexError,
            >(e),
        },
{
    if byte_length(html) > PAGE_LIMIT {
        return Err(IndexError::TooLong);
    }
    match select_attrs(html, selector, attr) {
        Some(values) => Ok(values),
        None => Err(IndexError::BadSelector),
    }
}

/// What a search of the index page `html` for the architecture `arch`
/// comes to: an error where the page is too long, where the links cannot
/// be selected or where the architecture tag spoils the file name pattern,
/// in this order; else the latest of the candidates among the links, if
/// there is any.
pub open spec fn index_verdict(html: Seq<char>, arch: Seq<char>) -> Result<
    Option<CandidateView>,
    IndexError,
> {
    match attributes_of(html, LINK_SELECTOR@, LINK_ATTRIBUTE@) {
        Err(e) => Err(e),
        Ok(hrefs) => if regex_captures(file_pattern(arch), Seq::empty()) is BadPattern {
            Err(IndexError::BadArchitecture)
        } else {
            Ok(latest(candidates_of(file_pattern(arch), hrefs)))
        },
    }
}

/// Finds the latest rootfs archive for `arch` among the links of an index
/// page.
///
/// `Ok(None)` says that the page offers no archive for this architecture.
pub fn select_latest(index_html: &str, arch: &str) -> (r: Result<Option<CandidateEntry>, IndexError>)
    ensures
        match r {
            Ok(found) => index_verdict(index_html@, arch@) == Ok::<
                Option<CandidateView>,
                IndexError,
            >(opt_candidate(found)),
            Err(e) => index_verdict(index_html@, arch@) == Err::<Option<CandidateView>, IndexError>(
                e,
            ),
        },
{
    let hrefs = match attributes(index_html, LINK_SELECTOR, LINK_ATTRIBUTE) {
        Ok(found) => found,
        Err(e) => {
            return Err(e);
        },
    };
    let mut pattern = owned(FILE_PATTERN_HEAD);
    pattern.append(arch);
    pattern.append(FILE_PATTERN_TAIL);
    proof {
        reveal_strlit("");
        assert(""@ =~= Seq::<char>::empty());
    }
    match captures(pattern.as_str(), "") {
        Captured::BadPattern => {
            return Err(IndexError::BadArchitecture);
        },
        _ => {},
    }
    Ok(pick_latest(collect_candidates(pattern.as_str(), &hrefs)))
}

} // verus!
