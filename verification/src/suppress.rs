//! Suppression directives: scanning comments for the `lint-ignore` marker,
//! resolving each directive's target line, and dropping the diagnostics a
//! directive covers.
//!
//! A directive with one or more rule codes suppresses only those codes on
//! its target line; one with no codes is a blanket suppression.  A code that
//! names no rule in the catalog is inert: it never matches anything.  A
//! diagnostic of one of the two comment-policy ban rules is never suppressed
//! by a directive written on its own line, so a malformed directive cannot
//! suppress its own violation.

use vstd::prelude::*;
use crate::Span;
use crate::ast::{Comment, Module};
use crate::diag::{code_pattern, is_ban_code, Diagnostic, RuleCode};

verus! {

/// Characters that end a directive token.
pub open spec fn is_sep(c: char) -> bool {
    c == ' ' || c == '\t' || c == ','
}

pub open spec fn is_space(c: char) -> bool {
    c == ' ' || c == '\t'
}

fn sep_char(c: char) -> (r: bool)
    ensures
        r == is_sep(c),
{
    c == ' ' || c == '\t' || c == ','
}

fn space_char(c: char) -> (r: bool)
    ensures
        r == is_space(c),
{
    c == ' ' || c == '\t'
}

/// The directive marker a comment must begin with.
pub open spec fn marker_chars() -> Seq<char> {
    seq!['l', 'i', 'n', 't', '-', 'i', 'g', 'n', 'o', 'r', 'e']
}

pub(crate) fn marker_pattern() -> (r: Vec<char>)
    ensures
        r@ == marker_chars(),
{
    let r: Vec<char> = vec!['l', 'i', 'n', 't', '-', 'i', 'g', 'n', 'o', 'r', 'e'];
    proof {
        assert(r@ =~= marker_chars());
    }
    r
}

/// The tag that makes a bare blanket suppression legal.
pub open spec fn allow_blanket_chars() -> Seq<char> {
    seq!['a', 'l', 'l', 'o', 'w', '-', 'b', 'l', 'a', 'n', 'k', 'e', 't']
}

fn allow_blanket_pattern() -> (r: Vec<char>)
    ensures
        r@ == allow_blanket_chars(),
{
    let r: Vec<char> = vec!['a', 'l', 'l', 'o', 'w', '-', 'b', 'l', 'a', 'n', 'k', 'e', 't'];
    proof {
        assert(r@ =~= allow_blanket_chars());
    }
    r
}

pub open spec fn spec_skip_spaces(s: Seq<char>, i: int) -> int
    decreases s.len() - i,
{
    if i < 0 || i >= s.len() || !is_space(s[i]) {
        i
    } else {
        spec_skip_spaces(s, i + 1)
    }
}

pub(crate) fn skip_spaces(text: &Vec<char>, i: usize) -> (r: usize)
    requires
        i <= text@.len(),
    ensures
        r == spec_skip_spaces(text@, i as int),
        i <= r <= text@.len(),
    decreases text@.len() - i,
{
    if i < text.len() && space_char(text[i]) {
        skip_spaces(text, i + 1)
    } else {
        i
    }
}

pub open spec fn spec_token_end(s: Seq<char>, i: int) -> int
    decreases s.len() - i,
{
    if i < 0 || i >= s.len() || is_sep(s[i]) {
        i
    } else {
        spec_token_end(s, i + 1)
    }
}

pub proof fn lemma_token_end_bounds(s: Seq<char>, i: int)
    requires
        0 <= i <= s.len(),
    ensures
        i <= spec_token_end(s, i) <= s.len(),
    decreases s.len() - i,
{
    if i < s.len() && !is_sep(s[i]) {
        lemma_token_end_bounds(s, i + 1);
    }
}

fn token_end(text: &Vec<char>, i: usize) -> (r: usize)
    requires
        i <= text@.len(),
    ensures
        r == spec_token_end(text@, i as int),
        i <= r <= text@.len(),
    decreases text@.len() - i,
{
    if i < text.len() && !sep_char(text[i]) {
        token_end(text, i + 1)
    } else {
        i
    }
}

/// Whether the characters `[start, end)` of `text` spell exactly `pat`.
pub(crate) fn range_eq(text: &Vec<char>, start: usize, end: usize, pat: &Vec<char>) -> (r: bool)
    requires
        start <= end <= text@.len(),
    ensures
        r == (text@.subrange(start as int, end as int) == pat@),
{
    if end - start != pat.len() {
        proof {
            assert(text@.subrange(start as int, end as int).len() != pat@.len());
        }
        return false;
    }
    let n = pat.len();
    let mut k: usize = 0;
    while k < n
        invariant
            start <= end <= text@.len(),
            end - start == n,
            start + n <= usize::MAX,
            n == pat@.len(),
            k <= n,
            forall|j: int| 0 <= j < k ==> text@[start + j] == pat@[j],
        decreases n - k,
    {
        if text[start + k] != pat[k] {
            proof {
                assert(text@.subrange(start as int, end as int)[k as int] != pat@[k as int]);
            }
            return false;
        }
        k = k + 1;
    }
    proof {
        assert(text@.subrange(start as int, end as int) =~= pat@);
    }
    true
}

/// Which rule, if any, a directive token names.
pub open spec fn spec_parse_code(t: Seq<char>) -> Option<RuleCode> {
    if t == crate::diag::code_chars(RuleCode::BanUntaggedIgnore) {
        Some(RuleCode::BanUntaggedIgnore)
    } else if t == crate::diag::code_chars(RuleCode::BanUntaggedTodo) {
        Some(RuleCode::BanUntaggedTodo)
    } else if t == crate::diag::code_chars(RuleCode::ConstructorSuper) {
        Some(RuleCode::ConstructorSuper)
    } else if t == crate::diag::code_chars(RuleCode::Eqeqeq) {
        Some(RuleCode::Eqeqeq)
    } else if t == crate::diag::code_chars(RuleCode::NoCompareNegZero) {
        Some(RuleCode::NoCompareNegZero)
    } else if t == crate::diag::code_chars(RuleCode::NoDebugger) {
        Some(RuleCode::NoDebugger)
    } else if t == crate::diag::code_chars(RuleCode::NoDeleteVar) {
        Some(RuleCode::NoDeleteVar)
    } else if t == crate::diag::code_chars(RuleCode::NoEval) {
        Some(RuleCode::NoEval)
    } else if t == crate::diag::code_chars(RuleCode::NoOctal) {
        Some(RuleCode::NoOctal)
    } else if t == crate::diag::code_chars(RuleCode::NoSparseArray) {
        Some(RuleCode::NoSparseArray)
    } else if t == crate::diag::code_chars(RuleCode::NoThrowLiteral) {
        Some(RuleCode::NoThrowLiteral)
    } else if t == crate::diag::code_chars(RuleCode::NoVar) {
        Some(RuleCode::NoVar)
    } else if t == crate::diag::code_chars(RuleCode::NoWith) {
        Some(RuleCode::NoWith)
    } else {
        None
    }
}

/// Parse the token at `[start, end)` of `text` as a rule code.
pub fn parse_code_range(text: &Vec<char>, start: usize, end: usize) -> (r: Option<RuleCode>)
    requires
        start <= end <= text@.len(),
    ensures
        r == spec_parse_code(text@.subrange(start as int, end as int)),
{
    if range_eq(text, start, end, &code_pattern(RuleCode::BanUntaggedIgnore)) {
        Some(RuleCode::BanUntaggedIgnore)
    } else if range_eq(text, start, end, &code_pattern(RuleCode::BanUntaggedTodo)) {
        Some(RuleCode::BanUntaggedTodo)
    } else if range_eq(text, start, end, &code_pattern(RuleCode::ConstructorSuper)) {
        Some(RuleCode::ConstructorSuper)
    } else if range_eq(text, start, end, &code_pattern(RuleCode::Eqeqeq)) {
        Some(RuleCode::Eqeqeq)
    } else if range_eq(text, start, end, &code_pattern(RuleCode::NoCompareNegZero)) {
        Some(RuleCode::NoCompareNegZero)
    } else if range_eq(text, start, end, &code_pattern(RuleCode::NoDebugger)) {
        Some(RuleCode::NoDebugger)
    } else if range_eq(text, start, end, &code_pattern(RuleCode::NoDeleteVar)) {
        Some(RuleCode::NoDeleteVar)
    } else if range_eq(text, start, end, &code_pattern(RuleCode::NoEval)) {
        Some(RuleCode::NoEval)
    } else if range_eq(text, start, end, &code_pattern(RuleCode::NoOctal)) {
        Some(RuleCode::NoOctal)
    } else if range_eq(text, start, end, &code_pattern(RuleCode::NoSparseArray)) {
        Some(RuleCode::NoSparseArray)
    } else if range_eq(text, start, end, &code_pattern(RuleCode::NoThrowLiteral)) {
        Some(RuleCode::NoThrowLiteral)
    } else if range_eq(text, start, end, &code_pattern(RuleCode::NoVar)) {
        Some(RuleCode::NoVar)
    } else if range_eq(text, start, end, &code_pattern(RuleCode::NoWith)) {
        Some(RuleCode::NoWith)
    } else {
        None
    }
}

/// Scan the token list after the marker.  Yields the known rule codes in
/// order, whether any code token (known or unknown) was listed, and whether
/// the allow-blanket tag was present.
pub open spec fn spec_scan(s: Seq<char>, i: int) -> (Seq<RuleCode>, bool, bool)
    decreases s.len() - i,
    via spec_scan_decreases
{
    if i < 0 || i >= s.len() {
        (Seq::empty(), false, false)
    } else if is_sep(s[i]) {
        spec_scan(s, i + 1)
    } else {
        let e = spec_token_end(s, i);
        let rest = spec_scan(s, e);
        let tok = s.subrange(i, e);
        if tok == allow_blanket_chars() {
            (rest.0, rest.1, true)
        } else {
            match spec_parse_code(tok) {
                Some(c) => (seq![c] + rest.0, true, rest.2),
                None => (rest.0, true, rest.2),
            }
        }
    }
}

#[via_fn]
proof fn spec_scan_decreases(s: Seq<char>, i: int) {
    if 0 <= i && i < s.len() && !is_sep(s[i]) {
        lemma_token_end_bounds(s, i + 1);
    }
}

pub(crate) fn scan_tokens(text: &Vec<char>, i: usize) -> (r: (Vec<RuleCode>, bool, bool))
    requires
        i <= text@.len(),
    ensures
        ({
            let sp = spec_scan(text@, i as int);
            r.0@ == sp.0 && r.1 == sp.1 && r.2 == sp.2
        }),
    decreases text@.len() - i,
{
    if i == text.len() {
        (Vec::new(), false, false)
    } else if sep_char(text[i]) {
        scan_tokens(text, i + 1)
    } else {
        let e = token_end(text, i);
        proof {
            lemma_token_end_bounds(text@, i + 1);
        }
        let rest = scan_tokens(text, e);
        if range_eq(text, i, e, &allow_blanket_pattern()) {
            (rest.0, rest.1, true)
        } else {
            match parse_code_range(text, i, e) {
                Some(c) => {
                    let mut v = rest.0;
                    v.insert(0, c);
                    proof {
                        assert(v@ =~= seq![c] + spec_scan(text@, e as int).0);
                    }
                    (v, true, rest.2)
                },
                None => (rest.0, true, rest.2),
            }
        }
    }
}

/// Whether a comment's text is a suppression directive: after leading
/// spaces it starts with the marker, followed by the end of the comment or
/// a separator.
pub open spec fn spec_is_directive(s: Seq<char>) -> bool {
    let j = spec_skip_spaces(s, 0);
    &&& j + marker_chars().len() <= s.len()
    &&& s.subrange(j, j + marker_chars().len()) == marker_chars()
    &&& (j + marker_chars().len() == s.len() || is_sep(s[j + marker_chars().len()]))
}

/// The scan of a directive's token list (the text after the marker).
pub open spec fn spec_directive_scan(s: Seq<char>) -> (Seq<RuleCode>, bool, bool) {
    spec_scan(s, spec_skip_spaces(s, 0) + marker_chars().len())
}

pub(crate) fn is_directive_text(text: &Vec<char>) -> (r: bool)
    ensures
        r == spec_is_directive(text@),
{
    let j = skip_spaces(text, 0);
    let m = marker_pattern();
    if m.len() > text.len() - j {
        return false;
    }
    if !range_eq(text, j, j + m.len(), &m) {
        return false;
    }
    j + m.len() == text.len() || sep_char(text[j + m.len()])
}

/// Sanity of a module's line-start table: non-empty, begins at offset zero,
/// strictly increasing, and short enough that every line number fits a
/// `u32`.
pub open spec fn starts_wf(s: Seq<u32>) -> bool {
    &&& s.len() >= 1
    &&& s[0] == 0
    &&& forall|i: int, j: int| 0 <= i < j < s.len() ==> s[i] < s[j]
    &&& s.len() < 4294967295
}

/// A module's input contract: a sane line-start table.
pub open spec fn module_wf(m: Module) -> bool {
    starts_wf(m.line_starts@)
}

/// How many line starts lie at or before `pos`, counting from index `i`.
pub open spec fn spec_count_le(starts: Seq<u32>, pos: u32, i: int) -> int
    decreases starts.len() - i,
{
    if i < 0 || i >= starts.len() {
        0
    } else {
        (if starts[i] <= pos {
            1int
        } else {
            0int
        }) + spec_count_le(starts, pos, i + 1)
    }
}

/// The 1-based source line that byte offset `pos` falls on.
pub open spec fn spec_line_of(starts: Seq<u32>, pos: u32) -> u32 {
    spec_count_le(starts, pos, 0) as u32
}

proof fn lemma_count_le_none(starts: Seq<u32>, pos: u32, i: int)
    requires
        0 <= i <= starts.len(),
        forall|j: int| i <= j < starts.len() ==> starts[j] > pos,
    ensures
        spec_count_le(starts, pos, i) == 0,
    decreases starts.len() - i,
{
    if i < starts.len() {
        lemma_count_le_none(starts, pos, i + 1);
    }
}

proof fn lemma_count_le_all(starts: Seq<u32>, pos: u32, a: int, b: int)
    requires
        0 <= a <= b <= starts.len(),
        forall|j: int| a <= j < b ==> starts[j] <= pos,
    ensures
        spec_count_le(starts, pos, a) == (b - a) + spec_count_le(starts, pos, b),
    decreases b - a,
{
    if a < b {
        lemma_count_le_all(starts, pos, a + 1, b);
    }
}

/// Translate a byte offset to its 1-based line number.
pub fn line_of(starts: &Vec<u32>, pos: u32) -> (r: u32)
    requires
        starts_wf(starts@),
    ensures
        r == spec_line_of(starts@, pos),
        1 <= r <= starts@.len(),
{
    let n = starts.len();
    let mut i: usize = 0;
    while i < n && starts[i] <= pos
        invariant
            n == starts@.len(),
            starts_wf(starts@),
            i <= n,
            forall|j: int| 0 <= j < i ==> starts@[j] <= pos,
        decreases n - i,
    {
        i = i + 1;
    }
    proof {
        lemma_count_le_all(starts@, pos, 0, i as int);
        if i < n {
            assert(forall|j: int|
                i <= j < starts@.len() ==> #[trigger] starts@[j] >= starts@[i as int]);
        }
        lemma_count_le_none(starts@, pos, i as int);
        assert(spec_count_le(starts@, pos, 0) == i);
    }
    i as u32
}

/// Whether some whole-line comment starts on line `t`.
pub open spec fn spec_comment_on_line(cs: Seq<Comment>, starts: Seq<u32>, t: u32) -> bool {
    exists|i: int|
        0 <= i < cs.len() && !cs[i].trailing && spec_line_of(starts, cs[i].span.start) == t
}

fn comment_on_line(cs: &Vec<Comment>, starts: &Vec<u32>, t: u32) -> (r: bool)
    requires
        starts_wf(starts@),
    ensures
        r == spec_comment_on_line(cs@, starts@, t),
{
    let n = cs.len();
    let mut i: usize = 0;
    while i < n
        invariant
            n == cs@.len(),
            starts_wf(starts@),
            i <= n,
            forall|j: int|
                0 <= j < i ==> !(!cs@[j].trailing && spec_line_of(starts@, cs@[j].span.start)
                    == t),
        decreases n - i,
    {
        if !cs[i].trailing {
            let l = line_of(starts, cs[i].span.start);
            if l == t {
                return true;
            }
        }
        i = i + 1;
    }
    false
}

/// Starting at line `t`, skip lines occupied by whole-line comments; `fuel`
/// bounds the walk.
pub open spec fn spec_advance_target(cs: Seq<Comment>, starts: Seq<u32>, t: u32, fuel: nat) -> u32
    decreases fuel,
{
    if fuel == 0 || t == 4294967295u32 {
        t
    } else if spec_comment_on_line(cs, starts, t) {
        spec_advance_target(cs, starts, (t + 1) as u32, (fuel - 1) as nat)
    } else {
        t
    }
}

fn advance_target(cs: &Vec<Comment>, starts: &Vec<u32>, t: u32, fuel: usize) -> (r: u32)
    requires
        starts_wf(starts@),
    ensures
        r == spec_advance_target(cs@, starts@, t, fuel as nat),
    decreases fuel,
{
    if fuel == 0 || t == 4294967295u32 {
        t
    } else if comment_on_line(cs, starts, t) {
        advance_target(cs, starts, t + 1, fuel - 1)
    } else {
        t
    }
}

/// One resolved suppression directive.
pub struct Directive {
    /// The line the directive's comment starts on.
    pub comment_line: u32,
    /// The line whose diagnostics the directive covers.
    pub target_line: u32,
    /// The known rule codes it lists, in order.
    pub codes: Vec<RuleCode>,
    /// No code tokens at all were listed.
    pub blanket: bool,
    /// The allow-blanket tag was present.
    pub tagged: bool,
    /// The span of the comment itself.
    pub span: Span,
}

/// The mathematical content of a directive.
pub struct DirectiveModel {
    pub comment_line: u32,
    pub target_line: u32,
    pub codes: Seq<RuleCode>,
    pub blanket: bool,
    pub tagged: bool,
    pub span: Span,
}

impl View for Directive {
    type V = DirectiveModel;

    open spec fn view(&self) -> DirectiveModel {
        DirectiveModel {
            comment_line: self.comment_line,
            target_line: self.target_line,
            codes: self.codes@,
            blanket: self.blanket,
            tagged: self.tagged,
            span: self.span,
        }
    }
}

/// The directive a comment resolves to, if its text is a directive.
pub open spec fn spec_directive_of(c: Comment, cs: Seq<Comment>, starts: Seq<u32>)
    -> DirectiveModel {
    let line = spec_line_of(starts, c.span.start);
    let scan = spec_directive_scan(c.text@);
    DirectiveModel {
        comment_line: line,
        target_line: if c.trailing {
            line
        } else {
            spec_advance_target(cs, starts, (line + 1) as u32, cs.len())
        },
        codes: scan.0,
        blanket: !scan.1,
        tagged: scan.2,
        span: c.span,
    }
}

/// All directives of a comment list, in source order, starting at index
/// `i`.
pub open spec fn spec_directives(cs: Seq<Comment>, starts: Seq<u32>, i: int) -> Seq<
    DirectiveModel,
>
    decreases cs.len() - i,
{
    if i < 0 || i >= cs.len() {
        Seq::empty()
    } else {
        let rest = spec_directives(cs, starts, i + 1);
        if spec_is_directive(cs[i].text@) {
            seq![spec_directive_of(cs[i], cs, starts)] + rest
        } else {
            rest
        }
    }
}

fn build_directives_from(cs: &Vec<Comment>, starts: &Vec<u32>, i: usize) -> (r: Vec<Directive>)
    requires
        starts_wf(starts@),
        i <= cs@.len(),
    ensures
        r@.map_values(|d: Directive| d@) == spec_directives(cs@, starts@, i as int),
    decreases cs@.len() - i,
{
    if i == cs.len() {
        let r: Vec<Directive> = Vec::new();
        proof {
            assert(r@.map_values(|d: Directive| d@) =~= spec_directives(cs@, starts@, i as int));
        }
        r
    } else {
        let mut rest = build_directives_from(cs, starts, i + 1);
        if is_directive_text(&cs[i].text) {
            let line = line_of(starts, cs[i].span.start);
            let j = skip_spaces(&cs[i].text, 0);
            let m = marker_pattern();
            let tl = cs[i].text.len();
            proof {
                assert(m@.len() == 11);
                assert(j + 11 <= tl);
                assert(line < 4294967295u32);
            }
            let scan = scan_tokens(&cs[i].text, j + m.len());
            let target = if cs[i].trailing {
                line
            } else {
                advance_target(cs, starts, line + 1, cs.len())
            };
            let d = Directive {
                comment_line: line,
                target_line: target,
                codes: scan.0,
                blanket: !scan.1,
                tagged: scan.2,
                span: cs[i].span,
            };
            rest.insert(0, d);
            proof {
                assert(rest@.map_values(|d: Directive| d@) =~= spec_directives(
                    cs@,
                    starts@,
                    i as int,
                ));
            }
            rest
        } else {
            rest
        }
    }
}

/// Resolve every suppression directive in a module's comments.
pub fn build_directives(m: &Module) -> (r: Vec<Directive>)
    requires
        module_wf(*m),
    ensures
        r@.map_values(|d: Directive| d@) == spec_directives(m.comments@, m.line_starts@, 0),
{
    build_directives_from(&m.comments, &m.line_starts, 0)
}

/// Whether one directive suppresses one diagnostic: the directive targets
/// the diagnostic's line, covers its rule code, and the exemption for the
/// ban rules' own diagnostics does not apply.
pub open spec fn spec_matches(dm: DirectiveModel, d: Diagnostic, starts: Seq<u32>) -> bool {
    let line = spec_line_of(starts, d.span.start);
    &&& dm.target_line == line
    &&& (dm.blanket || dm.codes.contains(d.code))
    &&& !(is_ban_code(d.code) && dm.comment_line == line)
}

pub open spec fn spec_suppressed(d: Diagnostic, dms: Seq<DirectiveModel>, starts: Seq<u32>)
    -> bool {
    exists|i: int| 0 <= i < dms.len() && spec_matches(dms[i], d, starts)
}

/// The diagnostics of `ds` from index `i` on that no directive suppresses,
/// in order.
pub open spec fn spec_filter(
    ds: Seq<Diagnostic>,
    dms: Seq<DirectiveModel>,
    starts: Seq<u32>,
    i: int,
) -> Seq<Diagnostic>
    decreases ds.len() - i,
{
    if i < 0 || i >= ds.len() {
        Seq::empty()
    } else {
        let rest = spec_filter(ds, dms, starts, i + 1);
        if spec_suppressed(ds[i], dms, starts) {
            rest
        } else {
            seq![ds[i]] + rest
        }
    }
}

fn matches_directive(dir: &Directive, d: Diagnostic, starts: &Vec<u32>) -> (r: bool)
    requires
        starts_wf(starts@),
    ensures
        r == spec_matches(dir@, d, starts@),
{
    let line = line_of(starts, d.span.start);
    if dir.target_line != line {
        return false;
    }
    let exempt = (matches!(d.code, RuleCode::BanUntaggedIgnore) || matches!(
        d.code,
        RuleCode::BanUntaggedTodo,
    )) && dir.comment_line == line;
    if exempt {
        return false;
    }
    if dir.blanket {
        return true;
    }
    let n = dir.codes.len();
    let mut i: usize = 0;
    while i < n
        invariant
            n == dir.codes@.len(),
            i <= n,
            dir.target_line == spec_line_of(starts@, d.span.start),
            !(is_ban_code(d.code) && dir.comment_line == spec_line_of(starts@, d.span.start)),
            forall|j: int| 0 <= j < i ==> dir.codes@[j] != d.code,
        decreases n - i,
    {
        if dir.codes[i] == d.code {
            proof {
                assert(dir.codes@[i as int] == d.code);
                assert(dir.codes@.contains(d.code));
            }
            return true;
        }
        i = i + 1;
    }
    proof {
        assert(!dir.codes@.contains(d.code));
    }
    false
}

fn is_suppressed(d: Diagnostic, dirs: &Vec<Directive>, starts: &Vec<u32>) -> (r: bool)
    requires
        starts_wf(starts@),
    ensures
        r == spec_suppressed(d, dirs@.map_values(|x: Directive| x@), starts@),
{
    let n = dirs.len();
    let mut i: usize = 0;
    while i < n
        invariant
            n == dirs@.len(),
            starts_wf(starts@),
            i <= n,
            forall|j: int| 0 <= j < i ==> !spec_matches(#[trigger] dirs@[j]@, d, starts@),
        decreases n - i,
    {
        if matches_directive(&dirs[i], d, starts) {
            proof {
                assert(dirs@.map_values(|x: Directive| x@)[i as int] == dirs@[i as int]@);
            }
            return true;
        }
        i = i + 1;
    }
    proof {
        let dms = dirs@.map_values(|x: Directive| x@);
        assert(forall|j: int| 0 <= j < dms.len() ==> #[trigger] dms[j] == dirs@[j]@);
    }
    false
}

fn filter_from(
    ds: &Vec<Diagnostic>,
    dirs: &Vec<Directive>,
    starts: &Vec<u32>,
    i: usize,
) -> (r: Vec<Diagnostic>)
    requires
        starts_wf(starts@),
        i <= ds@.len(),
    ensures
        r@ == spec_filter(ds@, dirs@.map_values(|x: Directive| x@), starts@, i as int),
    decreases ds@.len() - i,
{
    if i == ds.len() {
        Vec::new()
    } else {
        let mut rest = filter_from(ds, dirs, starts, i + 1);
        if !is_suppressed(ds[i], dirs, starts) {
            rest.insert(0, ds[i]);
            proof {
                assert(rest@ =~= spec_filter(
                    ds@,
                    dirs@.map_values(|x: Directive| x@),
                    starts@,
                    i as int,
                ));
            }
        }
        rest
    }
}

/// Drop every diagnostic that a resolved directive suppresses, keeping the
/// rest in order.
pub fn filter_diagnostics(
    ds: &Vec<Diagnostic>,
    dirs: &Vec<Directive>,
    line_starts: &Vec<u32>,
) -> (r: Vec<Diagnostic>)
    requires
        starts_wf(line_starts@),
    ensures
        r@ == spec_filter(ds@, dirs@.map_values(|x: Directive| x@), line_starts@, 0),
{
    filter_from(ds, dirs, line_starts, 0)
}

} // verus!
