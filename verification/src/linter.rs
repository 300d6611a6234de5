//! Diagnostics from the SourcePawn compiler, `spcomp`: the command line that
//! runs it on a file, the parsing of the errors and warnings that it prints,
//! and their grouping by file.

use regex::Regex;
use vstd::prelude::*;

use crate::lsp::{Diagnostic, DiagnosticSeverity, Position, Range};
use crate::text::{parse_u32, spec_parse_u32};
use vstd::utf8::{decode_utf8, valid_utf8};
use crate::paths::{file_url, url_from_file_path};
use crate::grouping::{
    group_position, lemma_group_pairs, lemma_group_position, lemma_group_position_prefix,
    spec_group_pairs, values_for,
};

verus! {

/// How severe a message of the compiler is.
#[derive(Debug, Clone, Copy, PartialEq, Eq, Structural)]
pub enum SPCompSeverity {
    Warning,
    Error,
    FatalError,
}

impl SPCompSeverity {
    /// The protocol's severity for the compiler's: a warning is a warning,
    /// an error and a fatal error are errors.
    pub open spec fn spec_lsp_severity(self) -> DiagnosticSeverity {
        match self {
            SPCompSeverity::Warning => DiagnosticSeverity::Warning,
            SPCompSeverity::Error => DiagnosticSeverity::Error,
            SPCompSeverity::FatalError => DiagnosticSeverity::Error,
        }
    }

    /// The protocol's severity for the compiler's.
    pub fn to_lsp_severity(&self) -> (r: DiagnosticSeverity)
        ensures
            r == self.spec_lsp_severity(),
    {
        match self {
            SPCompSeverity::Warning => DiagnosticSeverity::Warning,
            SPCompSeverity::Error => DiagnosticSeverity::Error,
            SPCompSeverity::FatalError => DiagnosticSeverity::Error,
        }
    }
}

/// A message of the compiler about one line of one file.
#[derive(Debug)]
pub struct SPCompDiagnostic {
    /// The text of the `file:` URL of the file.
    pub uri: String,
    /// The zero-based line of the message.
    pub line_index: u32,
    pub severity: SPCompSeverity,
    pub message: String,
}

/// The last character position that a compiler diagnostic's range reaches:
/// the compiler gives a line, and the diagnostic covers it whole.
pub const LINE_END_CHARACTER: u32 = 1000;

impl SPCompDiagnostic {
    /// The protocol's diagnostic: the whole line (characters 0 to 1000), the
    /// message, and the severity.
    pub fn to_lsp_diagnostic(&self) -> (r: Diagnostic)
        ensures
            r.range.start == (Position { line: self.line_index, character: 0 }),
            r.range.end == (Position { line: self.line_index, character: LINE_END_CHARACTER }),
            r.message@ == self.message@,
            r.severity == Some(self.severity.spec_lsp_severity()),
    {
        Diagnostic {
            range: Range {
                start: Position { line: self.line_index, character: 0 },
                end: Position { line: self.line_index, character: LINE_END_CHARACTER },
            },
            message: self.message.clone(),
            severity: Some(self.severity.to_lsp_severity()),
        }
    }
}

impl View for SPCompDiagnostic {
    type V = (Seq<char>, u32, SPCompSeverity, Seq<char>);

    /// The URL's text, the line, the severity and the message's text.
    open spec fn view(&self) -> Self::V {
        (self.uri@, self.line_index, self.severity, self.message@)
    }
}

/// The regular expression of a compiler message,
/// `<path>(<line>) : <kind> <number>: <message>`: its groups are the path
/// (1), the line (2), the kind and number (3), the kind (4), the number (5)
/// and the message (6).
pub open spec fn spcomp_pattern() -> Seq<char> {
    r"([:/\\A-Za-z\-_0-9. ]*)\((\d+)+\) : ((error|fatal error|warning) ([0-9]*)):\s+(.*)"@
}

/// The compiler message pattern is the one the compiler's output is read
/// with, and its first group (the path) takes letters, digits, `/`, `\`,
/// `:`, `-`, `_`, `.` and spaces, so that a whole absolute path such as
/// `/home/u/plugin2/a.sp` is the path of its message.
pub proof fn lemma_spcomp_pattern()
    ensures
        spcomp_pattern()
            == r"([:/\\A-Za-z\-_0-9. ]*)\((\d+)+\) : ((error|fatal error|warning) ([0-9]*)):\s+(.*)"@,
        spcomp_pattern().subrange(0, 23) == seq![
            '(',
            '[',
            ':',
            '/',
            '\\',
            '\\',
            'A',
            '-',
            'Z',
            'a',
            '-',
            'z',
            '\\',
            '-',
            '_',
            '0',
            '-',
            '9',
            '.',
            ' ',
            ']',
            '*',
            ')',
        ],
{
    reveal_strlit(
        r"([:/\\A-Za-z\-_0-9. ]*)\((\d+)+\) : ((error|fatal error|warning) ([0-9]*)):\s+(.*)",
    );
    assert(spcomp_pattern().subrange(0, 23) =~= seq![
        '(',
        '[',
        ':',
        '/',
        '\\',
        '\\',
        'A',
        '-',
        'Z',
        'a',
        '-',
        'z',
        '\\',
        '-',
        '_',
        '0',
        '-',
        '9',
        '.',
        ' ',
        ']',
        '*',
        ')',
    ]);
}

/// The regular expression of a compiler message.
fn spcomp_pattern_str() -> (r: &'static str)
    ensures
        r@ == spcomp_pattern(),
{
    r"([:/\\A-Za-z\-_0-9. ]*)\((\d+)+\) : ((error|fatal error|warning) ([0-9]*)):\s+(.*)"
}

/// The capture groups of every non-overlapping match, in order, of the
/// regular expression `pattern` in `text`, as the `regex` crate finds them:
/// each match lists its groups from group 0 (the whole match), a group that
/// took no part in the match being `None`. `None` where `pattern` is not a
/// valid regular expression.
pub uninterp spec fn regex_captures(pattern: Seq<char>, text: Seq<char>) -> Option<
    Seq<Seq<Option<Seq<char>>>>,
>;

/// Calls `Regex::new` on `pattern` and `Regex::captures_iter` on `text`,
/// giving the text of each group of each match. The contract names the
/// result; it does not state the regular expression's meaning.
#[verifier::external_body]
fn captures_all(pattern: &str, text: &str) -> (r: Option<Vec<Vec<Option<String>>>>)
    ensures
        r matches Some(v) ==> regex_captures(pattern@, text@) == Some(v.deep_view()),
        r is None ==> regex_captures(pattern@, text@) is None,
{
    match Regex::new(pattern) {
        Ok(re) => Some(
            re.captures_iter(text).map(
                |c| c.iter().map(|g| g.map(|m| m.as_str().to_string())).collect(),
            ).collect(),
        ),
        Err(_) => None,
    }
}

/// The text that `String::from_utf8_lossy` makes of `bytes`.
pub uninterp spec fn lossy_utf8(bytes: Seq<u8>) -> Seq<char>;

/// Calls `String::from_utf8_lossy`, which decodes valid UTF-8 as it is and
/// puts U+FFFD in place of each invalid sequence, so that bytes give a
/// non-empty text. The contract states these; the replacement itself is only
/// named.
#[verifier::external_body]
pub(crate) fn utf8_lossy(bytes: &[u8]) -> (r: String)
    ensures
        r@ == lossy_utf8(bytes@),
        valid_utf8(bytes@) ==> r@ == decode_utf8(bytes@),
        bytes@.len() > 0 ==> r@.len() > 0,
{
    String::from_utf8_lossy(bytes).into_owned()
}

/// The severity that the kind text of a message names.
pub open spec fn spec_severity(kind: Seq<char>) -> Option<SPCompSeverity> {
    if kind == "warning"@ {
        Some(SPCompSeverity::Warning)
    } else if kind == "error"@ {
        Some(SPCompSeverity::Error)
    } else if kind == "fatal error"@ {
        Some(SPCompSeverity::FatalError)
    } else {
        None
    }
}

/// The diagnostic that the groups of one match give: the URL of the path
/// (group 1), the line (group 2) less one, the severity of the kind (group
/// 4) and the message (group 6). `None` where a group is missing, the path
/// has no URL, the line is no number or is zero, or the kind is none of the
/// three.
pub open spec fn spec_diagnostic_of(groups: Seq<Option<Seq<char>>>) -> Option<
    (Seq<char>, u32, SPCompSeverity, Seq<char>),
> {
    if groups.len() < 7 {
        None
    } else {
        match (groups[1], groups[2], groups[4], groups[6]) {
            (Some(path), Some(line), Some(kind), Some(message)) => match (
                file_url(path),
                spec_parse_u32(line),
                spec_severity(kind),
            ) {
                (Some(uri), Some(n), Some(severity)) => if n >= 1 {
                    Some((uri, (n - 1) as u32, severity, message))
                } else {
                    None
                },
                _ => None,
            },
            _ => None,
        }
    }
}

/// The diagnostics of all matches, in order; `None` where any match gives none.
pub open spec fn spec_diagnostics_of(matches: Seq<Seq<Option<Seq<char>>>>) -> Option<
    Seq<(Seq<char>, u32, SPCompSeverity, Seq<char>)>,
>
    decreases matches.len(),
{
    if matches.len() == 0 {
        Some(Seq::empty())
    } else {
        match (spec_diagnostics_of(matches.drop_last()), spec_diagnostic_of(matches.last())) {
            (Some(ds), Some(d)) => Some(ds.push(d)),
            _ => None,
        }
    }
}

/// The diagnostics that the compiler's output `stdout` holds: one for each
/// match of [`spcomp_pattern`], in order. `None` where the pattern does not
/// compile or a match gives no diagnostic.
pub open spec fn spec_parse_spcomp_errors(stdout: Seq<char>) -> Option<
    Seq<(Seq<char>, u32, SPCompSeverity, Seq<char>)>,
> {
    match regex_captures(spcomp_pattern(), stdout) {
        Some(matches) => spec_diagnostics_of(matches),
        None => None,
    }
}

/// The diagnostic that the groups of one match give.
pub fn diagnostic_from_captures(groups: &Vec<Option<String>>) -> (r: Option<SPCompDiagnostic>)
    ensures
        r matches Some(d) ==> spec_diagnostic_of(groups.deep_view()) == Some(d@),
        r is None ==> spec_diagnostic_of(groups.deep_view()) is None,
{
    if groups.len() < 7 {
        return None;
    }
    let ghost g = groups.deep_view();
    assert(g[1] == groups[1].deep_view());
    assert(g[2] == groups[2].deep_view());
    assert(g[4] == groups[4].deep_view());
    assert(g[6] == groups[6].deep_view());
    let path = match &groups[1] {
        Some(p) => p,
        None => return None,
    };
    let line = match &groups[2] {
        Some(l) => l,
        None => return None,
    };
    let kind = match &groups[4] {
        Some(k) => k,
        None => return None,
    };
    let message = match &groups[6] {
        Some(m) => m,
        None => return None,
    };
    let uri = match url_from_file_path(path.as_str()) {
        Some(u) => u,
        None => return None,
    };
    let n = match parse_u32(line.as_str()) {
        Some(n) => n,
        None => return None,
    };
    let severity = if *kind == String::from_str("warning") {
        SPCompSeverity::Warning
    } else if *kind == String::from_str("error") {
        SPCompSeverity::Error
    } else if *kind == String::from_str("fatal error") {
        SPCompSeverity::FatalError
    } else {
        return None;
    };
    if n == 0 {
        return None;
    }
    Some(SPCompDiagnostic { uri, line_index: n - 1, severity, message: message.clone() })
}

/// The diagnostics that the compiler's output `stdout` holds, in order:
/// one for each match of the compiler's message pattern. `None` where a match
/// gives no diagnostic: its path has no URL, its line is no number or zero,
/// or its kind is unknown.
pub fn parse_spcomp_errors(stdout: &str) -> (r: Option<Vec<SPCompDiagnostic>>)
    ensures
        r matches Some(v) ==> spec_parse_spcomp_errors(stdout@) == Some(
            v@.map_values(|d: SPCompDiagnostic| d@),
        ),
        r is None ==> spec_parse_spcomp_errors(stdout@) is None,
{
    match captures_all(spcomp_pattern_str(), stdout) {
        Some(matches) => diagnostics_from_captures(&matches),
        None => None,
    }
}

/// The diagnostics that the matches of the compiler's message pattern give,
/// each match listed by its groups; `None` where a match gives none.
pub fn diagnostics_from_captures(matches: &Vec<Vec<Option<String>>>) -> (r: Option<
    Vec<SPCompDiagnostic>,
>)
    ensures
        r matches Some(v) ==> spec_diagnostics_of(matches.deep_view()) == Some(
            v@.map_values(|d: SPCompDiagnostic| d@),
        ),
        r is None ==> spec_diagnostics_of(matches.deep_view()) is None,
{
    let ghost ms = matches.deep_view();
    let mut diagnostics: Vec<SPCompDiagnostic> = Vec::new();
    let mut i: usize = 0;
    while i < matches.len()
        invariant
            ms == matches.deep_view(),
            i <= matches.len(),
            spec_diagnostics_of(ms.take(i as int)) == Some(
                diagnostics@.map_values(|d: SPCompDiagnostic| d@),
            ),
        decreases matches.len() - i,
    {
        proof {
            assert(ms.take(i + 1).drop_last() =~= ms.take(i as int));
            assert(ms.take(i + 1).last() == matches[i as int].deep_view());
        }
        match diagnostic_from_captures(&matches[i]) {
            Some(d) => {
                let ghost before = diagnostics@;
                diagnostics.push(d);
                proof {
                    assert(diagnostics@.map_values(|d: SPCompDiagnostic| d@) =~= before.map_values(
                        |d: SPCompDiagnostic| d@,
                    ).push(d@));
                }
            },
            None => {
                proof {
                    lemma_diagnostics_of_prefix(ms, i as int + 1);
                }
                return None;
            },
        }
        i = i + 1;
    }
    proof {
        assert(ms.take(matches.len() as int) =~= ms);
    }
    Some(diagnostics)
}

/// Where a prefix of the matches gives no diagnostics, the matches give none.
proof fn lemma_diagnostics_of_prefix(ms: Seq<Seq<Option<Seq<char>>>>, k: int)
    requires
        0 <= k <= ms.len(),
        spec_diagnostics_of(ms.take(k)) is None,
    ensures
        spec_diagnostics_of(ms) is None,
    decreases ms.len() - k,
{
    if k < ms.len() {
        assert(ms.take(k + 1).drop_last() =~= ms.take(k));
        lemma_diagnostics_of_prefix(ms, k + 1);
    } else {
        assert(ms.take(k) =~= ms);
    }
}

/// The view of a compiler diagnostic: its URL's text, its line, its
/// severity and its message's text.
pub type DiagnosticView = (Seq<char>, u32, SPCompSeverity, Seq<char>);

/// Diagnostics grouped by file: the text of a file's URL with its diagnostics.
pub type DiagnosticGroups = Vec<(String, Vec<SPCompDiagnostic>)>;

/// The view of grouped diagnostics: each URL's text with its diagnostics.
pub open spec fn groups_view(gs: Seq<(String, Vec<SPCompDiagnostic>)>) -> Seq<
    (Seq<char>, Seq<DiagnosticView>),
> {
    gs.map_values(|g: (String, Vec<SPCompDiagnostic>)| (g.0@, views(g.1@)))
}

/// The views of a sequence of diagnostics.
pub open spec fn views(ds: Seq<SPCompDiagnostic>) -> Seq<DiagnosticView> {
    ds.map_values(|d: SPCompDiagnostic| d@)
}

/// Each diagnostic under the text of its URL.
pub open spec fn keyed(ds: Seq<DiagnosticView>) -> Seq<(Seq<char>, DiagnosticView)> {
    ds.map_values(|d: DiagnosticView| (d.0, d))
}

/// The diagnostics `ds` grouped by URL, the groups in the order in which
/// their URLs first occur.
pub open spec fn spec_group_by_uri(ds: Seq<DiagnosticView>) -> Seq<(Seq<char>, Seq<DiagnosticView>)> {
    spec_group_pairs(keyed(ds))
}

/// The diagnostics of `ds` whose URL is `key`, in order.
pub open spec fn diagnostics_for(ds: Seq<DiagnosticView>, key: Seq<char>) -> Seq<DiagnosticView> {
    values_for(keyed(ds), key)
}

/// Grouping by URL keeps what a map from URLs to diagnostics holds: no two
/// groups have the same URL, each group holds exactly the diagnostics of its
/// URL in their order, and every diagnostic's URL has a group.
pub proof fn lemma_group_by_uri(ds: Seq<DiagnosticView>)
    ensures
        forall|i: int, j: int|
            0 <= i < j < spec_group_by_uri(ds).len() ==> (#[trigger] spec_group_by_uri(ds)[i]).0
                != (#[trigger] spec_group_by_uri(ds)[j]).0,
        forall|k: int|
            0 <= k < spec_group_by_uri(ds).len() ==> (#[trigger] spec_group_by_uri(ds)[k]).1
                == diagnostics_for(ds, spec_group_by_uri(ds)[k].0),
        forall|i: int|
            0 <= i < ds.len() ==> (#[trigger] group_position(spec_group_by_uri(ds), ds[i].0)) is Some,
{
    lemma_group_pairs(keyed(ds));
    assert forall|i: int| 0 <= i < ds.len() implies (#[trigger] group_position(
        spec_group_by_uri(ds),
        ds[i].0,
    )) is Some by {
        assert(keyed(ds)[i].0 == ds[i].0);
    }
}

/// The position of the group of `key` in `groups`, if there is one.
fn find_group(groups: &DiagnosticGroups, key: &String) -> (r: Option<usize>)
    ensures
        r matches Some(k) ==> group_position(groups_view(groups@), key@) == Some(k as int),
        r is None ==> group_position(groups_view(groups@), key@) is None,
{
    let ghost gv = groups_view(groups@);
    let mut j: usize = 0;
    while j < groups.len()
        invariant
            gv == groups_view(groups@),
            j <= groups.len(),
            group_position(gv.take(j as int), key@) is None,
        decreases groups.len() - j,
    {
        proof {
            assert(gv.take(j + 1).drop_last() =~= gv.take(j as int));
            assert(gv.take(j + 1).last() == gv[j as int]);
        }
        if groups[j].0 == *key {
            proof {
                lemma_group_position_prefix(gv, j as int + 1, key@);
            }
            return Some(j);
        }
        j = j + 1;
    }
    proof {
        assert(gv.take(groups.len() as int) =~= gv);
    }
    None
}

/// Groups `diagnostics` by the URL of their file, the groups in the order in
/// which their URLs first occur and each group in the diagnostics' order.
pub fn group_by_uri(diagnostics: Vec<SPCompDiagnostic>) -> (r: DiagnosticGroups)
    ensures
        groups_view(r@) == spec_group_by_uri(views(diagnostics@)),
{
    let ghost ds = views(diagnostics@);
    let mut rest = diagnostics;
    let mut groups: DiagnosticGroups = Vec::new();
    let ghost mut i: int = 0;
    proof {
        assert(groups_view(groups@) =~= spec_group_by_uri(ds.take(0)));
    }
    while rest.len() > 0
        invariant
            0 <= i <= ds.len(),
            views(rest@) == ds.subrange(i, ds.len() as int),
            groups_view(groups@) == spec_group_by_uri(ds.take(i)),
        decreases rest.len(),
    {
        let ghost rest_before = rest@;
        let d = rest.remove(0);
        proof {
            assert(d == rest_before[0]);
            assert(views(rest_before).len() == rest_before.len());
            assert(i < ds.len());
            assert(views(rest_before)[0] == rest_before[0]@);
            assert(ds.subrange(i, ds.len() as int)[0] == ds[i]);
            assert(d@ == ds[i]);
            assert(ds.take(i + 1).drop_last() =~= ds.take(i));
            assert(ds.take(i + 1).last() == d@);
            assert(keyed(ds.take(i + 1)).drop_last() =~= keyed(ds.take(i)));
            assert(keyed(ds.take(i + 1)).last() == (d@.0, d@));
        }
        let ghost before = groups_view(groups@);
        proof {
            lemma_group_position(before, d.uri@);
        }
        match find_group(&groups, &d.uri) {
            Some(k) => {
                let ghost dv = d@;
                let ghost groups_before = groups@;
                let (key, mut items) = groups.remove(k);
                let ghost old_items = items@;
                items.push(d);
                proof {
                    assert(views(items@) =~= views(old_items).push(dv));
                }
                let ghost new_group = (key, items);
                groups.insert(k, (key, items));
                proof {
                    assert(groups@ =~= groups_before.update(k as int, new_group));
                    assert(groups_view(groups_before)[k as int].1 == views(old_items));
                    assert(groups_view(groups@) =~= before.update(
                        k as int,
                        (before[k as int].0, before[k as int].1.push(dv)),
                    ));
                }
            },
            None => {
                let ghost dv = d@;
                let key = d.uri.clone();
                let mut items = Vec::new();
                items.push(d);
                groups.push((key, items));
                proof {
                    assert(views(items@) =~= seq![dv]);
                    assert(groups_view(groups@) =~= before.push((dv.0, seq![dv])));
                }
            },
        }
        proof {
            assert(rest@ =~= rest_before.subrange(1, rest_before.len() as int));
            assert forall|j: int| 0 <= j < rest@.len() implies #[trigger] views(rest@)[j] == ds[i + 1 + j] by {
                assert(rest@[j] == rest_before[j + 1]);
                assert(views(rest_before)[j + 1] == rest_before[j + 1]@);
                assert(ds.subrange(i, ds.len() as int)[j + 1] == ds[i + 1 + j]);
            }
            i = i + 1;
            assert(views(rest@) =~= ds.subrange(i, ds.len() as int));
        }
    }
    proof {
        assert(ds.take(i) =~= ds);
    }
    groups
}

} // verus!
