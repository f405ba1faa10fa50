//! Parses manifest text into package specifications.
//!
//! Parsing runs in two steps. `ManifestScan::scan` is a permissive, line-based
//! scan: it recognizes `source` and `gem` directive lines, ignores everything
//! else, and marks each requested package as either pinned to a concrete
//! three-component version or in need of a version lookup. `GemfileData::parse`
//! then combines the scan with the looked-up versions (obtained by the caller
//! from the registry) into the final package list, failing at the first
//! package whose version could not be resolved.

use vstd::prelude::*;
use vstd::string::*;

use crate::text::{
    lines_of, remove_arrow, remove_quotes, remove_ws, spec_lines, spec_remove_arrow,
    spec_remove_quotes, spec_remove_ws, spec_split_char, spec_starts_with, spec_strip_leading_ws,
    split_char, starts_with, strip_leading_ws,
};

verus! {

/// A single package requested by a manifest: its name and the concrete
/// version to install.
#[derive(Debug)]
pub struct Gem {
    pub name: String,
    pub version: String,
}

/// Mathematical value of a [`Gem`].
#[verifier::ext_equal]
pub struct GemModel {
    pub name: Seq<char>,
    pub version: Seq<char>,
}

impl View for Gem {
    type V = GemModel;

    open spec fn view(&self) -> GemModel {
        GemModel { name: self.name@, version: self.version@ }
    }
}

impl DeepView for Gem {
    type V = GemModel;

    open spec fn deep_view(&self) -> GemModel {
        self@
    }
}

/// One package requested by a `gem` directive, as the scan records it:
/// the name, the pinned version when the directive carried one, and the
/// source URL in effect at that line (the one a version lookup would use).
#[derive(Debug)]
pub struct GemEntry {
    pub name: String,
    pub pinned: Option<String>,
    pub source: String,
}

/// Mathematical value of a [`GemEntry`].
#[verifier::ext_equal]
pub struct GemEntryModel {
    pub name: Seq<char>,
    pub pinned: Option<Seq<char>>,
    pub source: Seq<char>,
}

impl View for GemEntry {
    type V = GemEntryModel;

    open spec fn view(&self) -> GemEntryModel {
        GemEntryModel {
            name: self.name@,
            pinned: self.pinned.deep_view(),
            source: self.source@,
        }
    }
}

impl DeepView for GemEntry {
    type V = GemEntryModel;

    open spec fn deep_view(&self) -> GemEntryModel {
        self@
    }
}

/// The outcome of scanning a manifest: the effective source URL and the
/// requested packages in declaration order.
#[derive(Debug)]
pub struct ManifestScan {
    pub source: String,
    pub entries: Vec<GemEntry>,
}

/// Mathematical value of a [`ManifestScan`].
#[verifier::ext_equal]
pub struct ManifestScanModel {
    pub source: Seq<char>,
    pub entries: Seq<GemEntryModel>,
}

impl View for ManifestScan {
    type V = ManifestScanModel;

    open spec fn view(&self) -> ManifestScanModel {
        ManifestScanModel { source: self.source@, entries: self.entries.deep_view() }
    }
}

/// A parsed manifest: the source URL and the packages to install, each with
/// a concrete version.
#[derive(Debug)]
pub struct GemfileData {
    pub source: String,
    pub gems: Vec<Gem>,
}

/// Mathematical value of a [`GemfileData`].
#[verifier::ext_equal]
pub struct GemfileDataModel {
    pub source: Seq<char>,
    pub gems: Seq<GemModel>,
}

impl View for GemfileData {
    type V = GemfileDataModel;

    open spec fn view(&self) -> GemfileDataModel {
        GemfileDataModel { source: self.source@, gems: self.gems.deep_view() }
    }
}

/// Parsing failed: the named package had no pinned version and no version
/// could be looked up for it.
#[derive(Debug)]
pub enum ParseError {
    VersionLookupFailed { gem_name: String },
}

pub open spec fn spec_is_digit(c: char) -> bool {
    '0' <= c && c <= '9'
}

/// A non-empty run of ASCII digits.
pub open spec fn spec_all_digits(s: Seq<char>) -> bool {
    s.len() > 0 && (forall|i: int| 0 <= i < s.len() ==> spec_is_digit(s[i]))
}

/// Within `s`, the ranges `[i, j)`, `[j+1, k)` and `[k+1, l)` hold digit runs
/// separated by literal dots: a three-component numeric version shape.
pub open spec fn spec_version_match_at(s: Seq<char>, i: int, j: int, k: int, l: int) -> bool {
    &&& 0 <= i < j
    &&& j + 1 < k
    &&& k + 1 < l
    &&& l <= s.len()
    &&& s[j] == '.'
    &&& s[k] == '.'
    &&& spec_all_digits(s.subrange(i, j))
    &&& spec_all_digits(s.subrange(j + 1, k))
    &&& spec_all_digits(s.subrange(k + 1, l))
}

/// Whether some substring of `s` is a three-component numeric version:
/// digits, a dot, digits, a dot, digits.
pub open spec fn contains_version_pattern(s: Seq<char>) -> bool {
    exists|i: int, j: int, k: int, l: int| spec_version_match_at(s, i, j, k, l)
}

/// Relies on `regex::Regex::new` and `regex::Regex::is_match`: with the fixed
/// pattern `[0-9]+\.[0-9]+\.[0-9]+`, `is_match` reports whether any substring
/// of the haystack consists of three runs of ASCII digits separated by
/// literal dots. `Regex::new` cannot fail on this fixed, well-formed pattern.
#[verifier::external_body]
fn version_pattern_is_match(s: &String) -> (r: bool)
    ensures
        r == contains_version_pattern(s@),
{
    match regex::Regex::new("[0-9]+\\.[0-9]+\\.[0-9]+") {
        Ok(re) => re.is_match(s),
        Err(_) => false,
    }
}

/// The registry consulted when a manifest names no source of its own.
pub open spec fn spec_default_source() -> Seq<char> {
    "https://rubygems.org"@
}

/// How one manifest line transforms the scan state: a `source` line replaces
/// the source, a `gem` line appends one entry, every other line is ignored.
pub open spec fn spec_scan_line(st: ManifestScanModel, line: Seq<char>) -> ManifestScanModel {
    let l = spec_strip_leading_ws(line);
    if spec_starts_with(l, "source "@) {
        ManifestScanModel {
            source: spec_remove_quotes(l.skip("source "@.len() as int)),
            entries: st.entries,
        }
    } else if spec_starts_with(l, "gem "@) {
        let cleaned = spec_remove_ws(
            spec_remove_arrow(spec_remove_quotes(l.skip("gem "@.len() as int))),
        );
        let toks = spec_split_char(cleaned, ',');
        let pinned = if toks.len() >= 2 && contains_version_pattern(toks[1]) {
            Some(toks[1])
        } else {
            None
        };
        ManifestScanModel {
            source: st.source,
            entries: st.entries.push(
                GemEntryModel { name: toks[0], pinned, source: st.source },
            ),
        }
    } else {
        st
    }
}

pub open spec fn spec_scan_lines(st: ManifestScanModel, lines: Seq<Seq<char>>) -> ManifestScanModel
    decreases lines.len(),
{
    if lines.len() == 0 {
        st
    } else {
        spec_scan_lines(spec_scan_line(st, lines.first()), lines.drop_first())
    }
}

/// The scan of a whole manifest text: every line processed in order,
/// starting from the default source and no entries.
pub open spec fn spec_scan(text: Seq<char>) -> ManifestScanModel {
    spec_scan_lines(
        ManifestScanModel { source: spec_default_source(), entries: Seq::empty() },
        spec_lines(text),
    )
}

impl ManifestScan {
    /// Scans manifest text line by line: leading whitespace is stripped; a
    /// `source` line sets the source (quotes removed, last one wins); a `gem`
    /// line is cleaned of quotes, the `~>` operator and whitespace, then split
    /// on commas into a name and, when the second token has a
    /// three-component numeric shape, a pinned version. All other lines are
    /// ignored.
    pub fn scan(data: &str) -> (r: ManifestScan)
        ensures
            r@ == spec_scan(data@),
    {
        let lines = lines_of(data);
        let ghost all = spec_lines(data@);
        let mut source = String::from_str("https://rubygems.org");
        let mut entries: Vec<GemEntry> = Vec::new();
        let mut i: usize = 0;
        proof {
            assert(all.skip(0) =~= all);
            assert(ManifestScanModel { source: source@, entries: entries.deep_view() } =~~= (
            ManifestScanModel { source: spec_default_source(), entries: Seq::empty() }));
        }
        while i < lines.len()
            invariant
                i <= lines.len(),
                lines.deep_view() == all,
                spec_scan(data@) == spec_scan_lines(
                    ManifestScanModel { source: source@, entries: entries.deep_view() },
                    all.skip(i as int),
                ),
            decreases lines.len() - i,
        {
            let ghost st = ManifestScanModel { source: source@, entries: entries.deep_view() };
            let ghost line = all[i as int];
            proof {
                assert(all.skip(i as int).first() == all[i as int]);
                assert(all.skip(i as int).drop_first() =~= all.skip(i as int + 1));
                assert(lines.deep_view()[i as int] == lines@[i as int]@);
            }
            let stripped = strip_leading_ws(lines[i].as_str());
            let sn = stripped.unicode_len();
            if starts_with(stripped.as_str(), "source ") {
                proof {
                    reveal_strlit("source ");
                }
                let rest = stripped.as_str().substring_char(7, sn);
                proof {
                    assert(rest@ =~= spec_strip_leading_ws(line).skip("source "@.len() as int));
                }
                source = remove_quotes(rest);
                proof {
                    assert(ManifestScanModel { source: source@, entries: entries.deep_view() }
                        =~~= spec_scan_line(st, line));
                }
            } else if starts_with(stripped.as_str(), "gem ") {
                proof {
                    reveal_strlit("gem ");
                }
                let rest = stripped.as_str().substring_char(4, sn);
                proof {
                    assert(rest@ =~= spec_strip_leading_ws(line).skip("gem "@.len() as int));
                }
                let unquoted = remove_quotes(rest);
                let unarrowed = remove_arrow(unquoted.as_str());
                let cleaned = remove_ws(unarrowed.as_str());
                let toks = split_char(cleaned.as_str(), ',');
                proof {
                    assert(toks.deep_view()[0] == toks@[0]@);
                }
                let name = toks[0].clone();
                let pinned: Option<String> = if toks.len() >= 2 {
                    proof {
                        assert(toks.deep_view()[1] == toks@[1]@);
                    }
                    if version_pattern_is_match(&toks[1]) {
                        Some(toks[1].clone())
                    } else {
                        None
                    }
                } else {
                    None
                };
                let ghost prev_entries = entries.deep_view();
                let entry = GemEntry { name, pinned, source: source.clone() };
                let ghost entry_model = entry@;
                entries.push(entry);
                proof {
                    assert(entries.deep_view() =~~= prev_entries.push(entry_model));
                    assert(ManifestScanModel { source: source@, entries: entries.deep_view() }
                        =~~= spec_scan_line(st, line));
                }
            } else {
                proof {
                    assert(st =~~= spec_scan_line(st, line));
                }
            }
            i = i + 1;
        }
        proof {
            assert(all.skip(all.len() as int) =~= Seq::<Seq<char>>::empty());
        }
        let r = ManifestScan { source, entries };
        proof {
            assert(r@ =~~= spec_scan(data@));
        }
        r
    }
}

/// The version the parse gives an entry: its pinned version when it has one,
/// otherwise whatever the lookup returned.
pub open spec fn spec_entry_version(e: GemEntryModel, looked_up: Option<Seq<char>>) -> Option<
    Seq<char>,
> {
    match e.pinned {
        Some(v) => Some(v),
        None => looked_up,
    }
}

/// The lookup result aligned with entry `i`, or nothing when none was
/// supplied at that index.
pub open spec fn resolved_at(rs: Seq<Option<Seq<char>>>, i: int) -> Option<Seq<char>> {
    if 0 <= i < rs.len() {
        rs[i]
    } else {
        None
    }
}

/// The first `k` entries resolved in order: the packages on success, or the
/// name of the first entry whose version could not be resolved.
pub open spec fn spec_resolve_upto(
    entries: Seq<GemEntryModel>,
    rs: Seq<Option<Seq<char>>>,
    k: int,
) -> Result<Seq<GemModel>, Seq<char>>
    decreases k,
{
    if k <= 0 {
        Ok(Seq::empty())
    } else {
        match spec_resolve_upto(entries, rs, k - 1) {
            Err(name) => Err(name),
            Ok(gs) => {
                let e = entries[k - 1];
                match spec_entry_version(e, resolved_at(rs, k - 1)) {
                    Some(v) => Ok(gs.push(GemModel { name: e.name, version: v })),
                    None => Err(e.name),
                }
            },
        }
    }
}

/// The parse of a scanned manifest against the supplied lookups.
pub open spec fn spec_parse(scan: ManifestScanModel, rs: Seq<Option<Seq<char>>>) -> Result<
    GemfileDataModel,
    Seq<char>,
> {
    match spec_resolve_upto(scan.entries, rs, scan.entries.len() as int) {
        Ok(gs) => Ok(GemfileDataModel { source: scan.source, gems: gs }),
        Err(name) => Err(name),
    }
}

pub proof fn lemma_resolve_err_persists(
    entries: Seq<GemEntryModel>,
    rs: Seq<Option<Seq<char>>>,
    i: int,
    k: int,
)
    requires
        0 <= i <= k,
        spec_resolve_upto(entries, rs, i) is Err,
    ensures
        spec_resolve_upto(entries, rs, k) == spec_resolve_upto(entries, rs, i),
    decreases k - i,
{
    if k > i {
        lemma_resolve_err_persists(entries, rs, i, k - 1);
    }
}

/// How resolution behaves, entry by entry: it succeeds exactly when every
/// entry has a pinned or looked-up version, and then yields one package per
/// entry, in order, each carrying that version.
pub proof fn lemma_resolve_upto_character(
    entries: Seq<GemEntryModel>,
    rs: Seq<Option<Seq<char>>>,
    k: int,
)
    requires
        0 <= k,
    ensures
        spec_resolve_upto(entries, rs, k) is Ok <==> (forall|j: int|
            0 <= j < k ==> spec_entry_version(entries[j], resolved_at(rs, j)) is Some),
        spec_resolve_upto(entries, rs, k) matches Ok(gs) ==> gs.len() == k && (forall|j: int|
            0 <= j < k ==> gs[j].name == entries[j].name && Some(gs[j].version)
                == spec_entry_version(entries[j], resolved_at(rs, j))),
    decreases k,
{
    if k > 0 {
        lemma_resolve_upto_character(entries, rs, k - 1);
    }
}

/// A package with no pinned version is installed at exactly the version the
/// lookup returned for it: when the parse succeeds, the parsed version at an
/// unpinned index equals the supplied resolution at that index.
pub proof fn lemma_unpinned_version_from_lookup(
    scan: ManifestScanModel,
    rs: Seq<Option<Seq<char>>>,
    i: int,
)
    requires
        0 <= i < scan.entries.len(),
        scan.entries[i].pinned is None,
        spec_parse(scan, rs) is Ok,
    ensures
        resolved_at(rs, i) is Some,
        spec_parse(scan, rs)->Ok_0.gems[i].version == resolved_at(rs, i)->Some_0,
{
    lemma_resolve_upto_character(scan.entries, rs, scan.entries.len() as int);
}

/// A package pinned by the manifest never depends on the lookup: under any
/// two supplied resolutions, a successful parse gives it exactly its pinned
/// version.
pub proof fn lemma_pinned_version_ignores_lookup(
    scan: ManifestScanModel,
    rs1: Seq<Option<Seq<char>>>,
    rs2: Seq<Option<Seq<char>>>,
    i: int,
)
    requires
        0 <= i < scan.entries.len(),
        scan.entries[i].pinned is Some,
        spec_parse(scan, rs1) is Ok,
        spec_parse(scan, rs2) is Ok,
    ensures
        spec_parse(scan, rs1)->Ok_0.gems[i].version == scan.entries[i].pinned->Some_0,
        spec_parse(scan, rs2)->Ok_0.gems[i].version == scan.entries[i].pinned->Some_0,
{
    lemma_resolve_upto_character(scan.entries, rs1, scan.entries.len() as int);
    lemma_resolve_upto_character(scan.entries, rs2, scan.entries.len() as int);
}

impl GemfileData {
    /// Combines a manifest scan with the looked-up versions, index-aligned
    /// with the scan's entries: each package keeps its pinned version or
    /// takes the looked-up one; the parse fails at the first package with
    /// neither, naming it.
    pub fn parse(scan: &ManifestScan, resolved: &Vec<Option<String>>) -> (r: Result<
        GemfileData,
        ParseError,
    >)
        ensures
            ({
                let m = spec_parse(scan@, resolved.deep_view());
                match r {
                    Ok(d) => m matches Ok(dm) && d@ == dm,
                    Err(e) => m matches Err(name) && (e matches ParseError::VersionLookupFailed {
                        gem_name,
                    } && gem_name@ == name),
                }
            }),
    {
        let n = scan.entries.len();
        let mut gems: Vec<Gem> = Vec::new();
        let mut i: usize = 0;
        proof {
            assert(gems.deep_view() =~~= Seq::<GemModel>::empty());
        }
        while i < n
            invariant
                i <= n,
                n == scan@.entries.len(),
                spec_resolve_upto(scan@.entries, resolved.deep_view(), i as int) == Ok::<
                    Seq<GemModel>,
                    Seq<char>,
                >(gems.deep_view()),
            decreases n - i,
        {
            proof {
                assert(scan@.entries[i as int] == scan.entries@[i as int]@);
            }
            let e = &scan.entries[i];
            let ghost expect = spec_entry_version(
                scan@.entries[i as int],
                resolved_at(resolved.deep_view(), i as int),
            );
            let version_opt: Option<String> = match &e.pinned {
                Some(v) => {
                    let r = Some(v.clone());
                    proof {
                        assert(r.deep_view() == expect);
                    }
                    r
                },
                None => {
                    if i < resolved.len() {
                        proof {
                            assert(resolved.deep_view()[i as int] == resolved@[i as int].deep_view());
                        }
                        match &resolved[i] {
                            Some(w) => {
                                let r = Some(w.clone());
                                proof {
                                    assert(r.deep_view() == expect);
                                }
                                r
                            },
                            None => None,
                        }
                    } else {
                        None
                    }
                },
            };
            match version_opt {
                Some(version) => {
                    proof {
                        assert(Some(version@) == expect);
                    }
                    let ghost prev = gems.deep_view();
                    let g = Gem { name: e.name.clone(), version };
                    let ghost g_model = g@;
                    gems.push(g);
                    proof {
                        assert(gems.deep_view() =~~= prev.push(g_model));
                        assert(spec_resolve_upto(scan@.entries, resolved.deep_view(), i as int + 1)
                            == Ok::<Seq<GemModel>, Seq<char>>(gems.deep_view()));
                    }
                },
                None => {
                    proof {
                        lemma_resolve_err_persists(
                            scan@.entries,
                            resolved.deep_view(),
                            i as int + 1,
                            n as int,
                        );
                    }
                    return Err(ParseError::VersionLookupFailed { gem_name: e.name.clone() });
                },
            }
            i = i + 1;
        }
        let d = GemfileData { source: scan.source.clone(), gems };
        proof {
            assert(spec_parse(scan@, resolved.deep_view()) matches Ok(dm) && d@ =~~= dm);
        }
        Ok(d)
    }
}

} // verus!
