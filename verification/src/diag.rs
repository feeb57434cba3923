//! Diagnostics: rule identities, messages, severities, findings, and the
//! fault records the dispatch engine keeps for isolated rule failures.

use vstd::prelude::*;
use crate::Span;

verus! {

/// The stable identity of each rule in the catalog.
#[derive(Clone, Copy, PartialEq, Eq, Structural, Debug)]
pub enum RuleCode {
    BanUntaggedIgnore,
    BanUntaggedTodo,
    ConstructorSuper,
    Eqeqeq,
    NoCompareNegZero,
    NoDebugger,
    NoDeleteVar,
    NoEval,
    NoOctal,
    NoSparseArray,
    NoThrowLiteral,
    NoVar,
    NoWith,
}

/// What a diagnostic reports; one fixed message per finding kind.
#[derive(Clone, Copy, PartialEq, Eq, Structural, Debug)]
pub enum Message {
    ThisBeforeSuper,
    MissingSuper,
    DuplicateSuper,
    UntaggedBlanketSuppression,
    UntaggedTodoComment,
    DebuggerNotAllowed,
    WithNotAllowed,
    UseLetOrConst,
    UseStrictEquality,
    EvalNotAllowed,
    DeleteOfVariable,
    OctalLiteral,
    SparseArrayElision,
    ThrownLiteral,
    CompareToNegZero,
}

#[derive(Clone, Copy, PartialEq, Eq, Structural, Debug)]
pub enum Severity {
    Error,
    Warning,
}

/// One reported finding: which rule, what it says, and where.
#[derive(Clone, Copy, PartialEq, Eq, Structural, Debug)]
pub struct Diagnostic {
    pub code: RuleCode,
    pub message: Message,
    pub span: Span,
    pub severity: Severity,
}

/// Why an isolated rule invocation gave up on a node.
#[derive(Clone, Copy, PartialEq, Eq, Structural, Debug)]
pub enum FaultReason {
    EmptyNumericLiteral,
}

/// A record of one rule invocation that failed on one node; the dispatch
/// engine stores these instead of letting the failure abort the walk.
#[derive(Clone, Copy, PartialEq, Eq, Structural, Debug)]
pub struct Fault {
    pub rule: RuleCode,
    pub span: Span,
    pub reason: FaultReason,
}

/// The caller asked for a rule collection by explicit codes and one of the
/// code strings names no rule in the catalog; `index` is its position.
#[derive(Clone, Copy, PartialEq, Eq, Structural, Debug)]
pub struct ConfigError {
    pub index: usize,
}

/// The spelling of each rule code, as it appears in suppression directives
/// and explicit rule-collection requests.
pub open spec fn code_chars(c: RuleCode) -> Seq<char> {
    match c {
        RuleCode::BanUntaggedIgnore => seq!['b', 'a', 'n', '-', 'u', 'n', 't', 'a', 'g', 'g', 'e', 'd', '-', 'i', 'g', 'n', 'o', 'r', 'e'],
        RuleCode::BanUntaggedTodo => seq!['b', 'a', 'n', '-', 'u', 'n', 't', 'a', 'g', 'g', 'e', 'd', '-', 't', 'o', 'd', 'o'],
        RuleCode::ConstructorSuper => seq!['c', 'o', 'n', 's', 't', 'r', 'u', 'c', 't', 'o', 'r', '-', 's', 'u', 'p', 'e', 'r'],
        RuleCode::Eqeqeq => seq!['e', 'q', 'e', 'q', 'e', 'q'],
        RuleCode::NoCompareNegZero => seq!['n', 'o', '-', 'c', 'o', 'm', 'p', 'a', 'r', 'e', '-', 'n', 'e', 'g', '-', 'z', 'e', 'r', 'o'],
        RuleCode::NoDebugger => seq!['n', 'o', '-', 'd', 'e', 'b', 'u', 'g', 'g', 'e', 'r'],
        RuleCode::NoDeleteVar => seq!['n', 'o', '-', 'd', 'e', 'l', 'e', 't', 'e', '-', 'v', 'a', 'r'],
        RuleCode::NoEval => seq!['n', 'o', '-', 'e', 'v', 'a', 'l'],
        RuleCode::NoOctal => seq!['n', 'o', '-', 'o', 'c', 't', 'a', 'l'],
        RuleCode::NoSparseArray => seq!['n', 'o', '-', 's', 'p', 'a', 'r', 's', 'e', '-', 'a', 'r', 'r', 'a', 'y'],
        RuleCode::NoThrowLiteral => seq!['n', 'o', '-', 't', 'h', 'r', 'o', 'w', '-', 'l', 'i', 't', 'e', 'r', 'a', 'l'],
        RuleCode::NoVar => seq!['n', 'o', '-', 'v', 'a', 'r'],
        RuleCode::NoWith => seq!['n', 'o', '-', 'w', 'i', 't', 'h'],
    }
}

/// The spelling of each rule code as runnable data; agrees with
/// `code_chars`.
pub fn code_pattern(c: RuleCode) -> (r: Vec<char>)
    ensures
        r@ == code_chars(c),
{
    let r: Vec<char> = match c {
        RuleCode::BanUntaggedIgnore => vec!['b', 'a', 'n', '-', 'u', 'n', 't', 'a', 'g', 'g', 'e', 'd', '-', 'i', 'g', 'n', 'o', 'r', 'e'],
        RuleCode::BanUntaggedTodo => vec!['b', 'a', 'n', '-', 'u', 'n', 't', 'a', 'g', 'g', 'e', 'd', '-', 't', 'o', 'd', 'o'],
        RuleCode::ConstructorSuper => vec!['c', 'o', 'n', 's', 't', 'r', 'u', 'c', 't', 'o', 'r', '-', 's', 'u', 'p', 'e', 'r'],
        RuleCode::Eqeqeq => vec!['e', 'q', 'e', 'q', 'e', 'q'],
        RuleCode::NoCompareNegZero => vec!['n', 'o', '-', 'c', 'o', 'm', 'p', 'a', 'r', 'e', '-', 'n', 'e', 'g', '-', 'z', 'e', 'r', 'o'],
        RuleCode::NoDebugger => vec!['n', 'o', '-', 'd', 'e', 'b', 'u', 'g', 'g', 'e', 'r'],
        RuleCode::NoDeleteVar => vec!['n', 'o', '-', 'd', 'e', 'l', 'e', 't', 'e', '-', 'v', 'a', 'r'],
        RuleCode::NoEval => vec!['n', 'o', '-', 'e', 'v', 'a', 'l'],
        RuleCode::NoOctal => vec!['n', 'o', '-', 'o', 'c', 't', 'a', 'l'],
        RuleCode::NoSparseArray => vec!['n', 'o', '-', 's', 'p', 'a', 'r', 's', 'e', '-', 'a', 'r', 'r', 'a', 'y'],
        RuleCode::NoThrowLiteral => vec!['n', 'o', '-', 't', 'h', 'r', 'o', 'w', '-', 'l', 'i', 't', 'e', 'r', 'a', 'l'],
        RuleCode::NoVar => vec!['n', 'o', '-', 'v', 'a', 'r'],
        RuleCode::NoWith => vec!['n', 'o', '-', 'w', 'i', 't', 'h'],
    };
    proof {
        assert(r@ =~= code_chars(c));
    }
    r
}

/// Diagnostics of the two directive/comment policy rules are exempt from
/// suppression by a directive written on their own line.
pub open spec fn is_ban_code(c: RuleCode) -> bool {
    c == RuleCode::BanUntaggedIgnore || c == RuleCode::BanUntaggedTodo
}

} // verus!
