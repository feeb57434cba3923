//! The rule catalog: every implemented rule, what each one reports on a
//! node or a comment, and the two curated collections.
//!
//! The catalog holds the engine's own rules: the two comment-policy bans,
//! the constructor-`super()` analyzer, and a set of representative
//! visit-match-report checks.  The wider ecosystem of purely syntactic
//! rules follows the same capability (`LintRule`) and can be dispatched by
//! the same engine; the collections here are the curated subsets of what
//! this crate defines.

use vstd::prelude::*;
use crate::ast::{BinOp, Comment, Expr, Stmt, UnaryOp, VarKind};
use crate::ctor_super::spec_class_diags;
use crate::diag::{
    ConfigError, Diagnostic, Fault, FaultReason, Message, RuleCode, Severity,
};
use crate::suppress::{
    is_directive_text, marker_pattern, range_eq, scan_tokens, skip_spaces,
    spec_directive_scan, spec_is_directive, spec_skip_spaces,
};

verus! {

/// One rule of the catalog.  Rules hold no state: the catalog maps each
/// rule identity to the behaviour defined here.
#[derive(Clone, Copy, PartialEq, Eq, Structural, Debug)]
pub enum Rule {
    BanUntaggedIgnore,
    BanUntaggedTodo,
    ConstructorSuper,
    Eqeqeq,
    NoCompareNegZero,
    NoDebugger,
    NoDeleteVar,
    NoEval,
    NoOctal,
    NoSparseArray,
    NoThrowLiteral,
    NoVar,
    NoWith,
}

/// The stable code of each rule.
pub open spec fn spec_rule_code(r: Rule) -> RuleCode {
    match r {
        Rule::BanUntaggedIgnore => RuleCode::BanUntaggedIgnore,
        Rule::BanUntaggedTodo => RuleCode::BanUntaggedTodo,
        Rule::ConstructorSuper => RuleCode::ConstructorSuper,
        Rule::Eqeqeq => RuleCode::Eqeqeq,
        Rule::NoCompareNegZero => RuleCode::NoCompareNegZero,
        Rule::NoDebugger => RuleCode::NoDebugger,
        Rule::NoDeleteVar => RuleCode::NoDeleteVar,
        Rule::NoEval => RuleCode::NoEval,
        Rule::NoOctal => RuleCode::NoOctal,
        Rule::NoSparseArray => RuleCode::NoSparseArray,
        Rule::NoThrowLiteral => RuleCode::NoThrowLiteral,
        Rule::NoVar => RuleCode::NoVar,
        Rule::NoWith => RuleCode::NoWith,
    }
}

/// The rule a code names.
pub open spec fn spec_rule_of_code(c: RuleCode) -> Rule {
    match c {
        RuleCode::BanUntaggedIgnore => Rule::BanUntaggedIgnore,
        RuleCode::BanUntaggedTodo => Rule::BanUntaggedTodo,
        RuleCode::ConstructorSuper => Rule::ConstructorSuper,
        RuleCode::Eqeqeq => Rule::Eqeqeq,
        RuleCode::NoCompareNegZero => Rule::NoCompareNegZero,
        RuleCode::NoDebugger => Rule::NoDebugger,
        RuleCode::NoDeleteVar => Rule::NoDeleteVar,
        RuleCode::NoEval => Rule::NoEval,
        RuleCode::NoOctal => Rule::NoOctal,
        RuleCode::NoSparseArray => Rule::NoSparseArray,
        RuleCode::NoThrowLiteral => Rule::NoThrowLiteral,
        RuleCode::NoVar => Rule::NoVar,
        RuleCode::NoWith => Rule::NoWith,
    }
}

/// View of an executable check result at the specification level.
pub open spec fn res_view(r: Result<Vec<Diagnostic>, Fault>) -> Result<Seq<Diagnostic>, Fault> {
    match r {
        Ok(v) => Ok(v@),
        Err(f) => Err(f),
    }
}

pub open spec fn eval_chars() -> Seq<char> {
    seq!['e', 'v', 'a', 'l']
}

pub open spec fn todo_chars() -> Seq<char> {
    seq!['T', 'O', 'D', 'O']
}

pub open spec fn is_octal_digit(c: char) -> bool {
    c == '0' || c == '1' || c == '2' || c == '3' || c == '4' || c == '5' || c == '6' || c == '7'
}

/// A numeric literal written with a legacy leading-zero octal prefix.
pub open spec fn spec_octal_raw(raw: Seq<char>) -> bool {
    raw.len() >= 2 && raw[0] == '0' && is_octal_digit(raw[1])
}

/// Comparison operators the negative-zero rule inspects.
pub open spec fn is_cmp_op(op: BinOp) -> bool {
    op == BinOp::EqEq || op == BinOp::NotEq || op == BinOp::EqEqEq || op == BinOp::NotEqEq || op
        == BinOp::Lt || op == BinOp::Gt
}

/// The raw text of a negated numeric literal `-<num>`, if the expression is
/// one.
pub open spec fn neg_num_raw(e: Expr) -> Option<Seq<char>> {
    match e {
        Expr::Unary { op, arg, .. } => {
            if op == UnaryOp::Minus {
                match *arg {
                    Expr::Num { raw, .. } => Some(raw@),
                    _ => None,
                }
            } else {
                None
            }
        },
        _ => None,
    }
}

pub open spec fn is_literal_expr(e: Expr) -> bool {
    match e {
        Expr::Num { .. } => true,
        Expr::Str { .. } => true,
        Expr::Bool { .. } => true,
        Expr::Null { .. } => true,
        _ => false,
    }
}

/// A `TODO` comment that lacks its required parenthesized tag (an issue or
/// author reference).
pub open spec fn spec_is_untagged_todo(s: Seq<char>) -> bool {
    let j = spec_skip_spaces(s, 0);
    &&& j + 4 <= s.len()
    &&& s.subrange(j, j + 4) == todo_chars()
    &&& !spec_todo_tagged(s, j)
}

pub open spec fn spec_todo_tagged(s: Seq<char>, j: int) -> bool {
    &&& j + 4 < s.len()
    &&& s[j + 4] == '('
    &&& (exists|k: int| j + 5 < k < s.len() && s[k] == ')')
}

/// What rule `r` reports when offered statement `s`, or the fault record
/// it gives up with.
pub open spec fn spec_check_stmt(r: Rule, s: Stmt) -> Result<Seq<Diagnostic>, Fault> {
    match r {
        Rule::ConstructorSuper => match s {
            Stmt::Class { class, .. } => Ok(spec_class_diags(class)),
            _ => Ok(Seq::empty()),
        },
        Rule::NoDebugger => match s {
            Stmt::Debugger { span } => Ok(
                seq![
                    Diagnostic {
                        code: RuleCode::NoDebugger,
                        message: Message::DebuggerNotAllowed,
                        span,
                        severity: Severity::Error,
                    },
                ],
            ),
            _ => Ok(Seq::empty()),
        },
        Rule::NoWith => match s {
            Stmt::With { span, .. } => Ok(
                seq![
                    Diagnostic {
                        code: RuleCode::NoWith,
                        message: Message::WithNotAllowed,
                        span,
                        severity: Severity::Error,
                    },
                ],
            ),
            _ => Ok(Seq::empty()),
        },
        Rule::NoVar => match s {
            Stmt::VarDecl { span, kind, .. } => {
                if kind == VarKind::Var {
                    Ok(
                        seq![
                            Diagnostic {
                                code: RuleCode::NoVar,
                                message: Message::UseLetOrConst,
                                span,
                                severity: Severity::Error,
                            },
                        ],
                    )
                } else {
                    Ok(Seq::empty())
                }
            },
            _ => Ok(Seq::empty()),
        },
        Rule::NoThrowLiteral => match s {
            Stmt::Throw { arg, .. } => {
                if is_literal_expr(arg) {
                    Ok(
                        seq![
                            Diagnostic {
                                code: RuleCode::NoThrowLiteral,
                                message: Message::ThrownLiteral,
                                span: arg.spec_span(),
                                severity: Severity::Error,
                            },
                        ],
                    )
                } else {
                    Ok(Seq::empty())
                }
            },
            _ => Ok(Seq::empty()),
        },
        _ => Ok(Seq::empty()),
    }
}

/// What rule `r` reports when offered expression `e`, or the fault record
/// it gives up with.
pub open spec fn spec_check_expr(r: Rule, e: Expr) -> Result<Seq<Diagnostic>, Fault> {
    match r {
        Rule::Eqeqeq => match e {
            Expr::Binary { span, op, .. } => {
                if op == BinOp::EqEq || op == BinOp::NotEq {
                    Ok(
                        seq![
                            Diagnostic {
                                code: RuleCode::Eqeqeq,
                                message: Message::UseStrictEquality,
                                span,
                                severity: Severity::Error,
                            },
                        ],
                    )
                } else {
                    Ok(Seq::empty())
                }
            },
            _ => Ok(Seq::empty()),
        },
        Rule::NoEval => match e {
            Expr::Call { span, callee, .. } => {
                match *callee {
                    Expr::Ident { name, .. } => {
                        if name@ == eval_chars() {
                            Ok(
                                seq![
                                    Diagnostic {
                                        code: RuleCode::NoEval,
                                        message: Message::EvalNotAllowed,
                                        span,
                                        severity: Severity::Error,
                                    },
                                ],
                            )
                        } else {
                            Ok(Seq::empty())
                        }
                    },
                    _ => Ok(Seq::empty()),
                }
            },
            _ => Ok(Seq::empty()),
        },
        Rule::NoDeleteVar => match e {
            Expr::Unary { span, op, arg } => {
                if op == UnaryOp::Delete && (*arg) matches Expr::Ident { .. } {
                    Ok(
                        seq![
                            Diagnostic {
                                code: RuleCode::NoDeleteVar,
                                message: Message::DeleteOfVariable,
                                span,
                                severity: Severity::Error,
                            },
                        ],
                    )
                } else {
                    Ok(Seq::empty())
                }
            },
            _ => Ok(Seq::empty()),
        },
        Rule::NoOctal => match e {
            Expr::Num { span, raw } => {
                if spec_octal_raw(raw@) {
                    Ok(
                        seq![
                            Diagnostic {
                                code: RuleCode::NoOctal,
                                message: Message::OctalLiteral,
                                span,
                                severity: Severity::Error,
                            },
                        ],
                    )
                } else {
                    Ok(Seq::empty())
                }
            },
            _ => Ok(Seq::empty()),
        },
        Rule::NoSparseArray => match e {
            Expr::Array { span, elems } => {
                if exists|i: int| 0 <= i < elems@.len() && elems@[i] is None {
                    Ok(
                        seq![
                            Diagnostic {
                                code: RuleCode::NoSparseArray,
                                message: Message::SparseArrayElision,
                                span,
                                severity: Severity::Error,
                            },
                        ],
                    )
                } else {
                    Ok(Seq::empty())
                }
            },
            _ => Ok(Seq::empty()),
        },
        Rule::NoCompareNegZero => match e {
            Expr::Binary { span, op, left, right } => {
                if is_cmp_op(op) {
                    let l = neg_num_raw(*left);
                    let r2 = neg_num_raw(*right);
                    if (l is Some && l->0.len() == 0) || (r2 is Some && r2->0.len() == 0) {
                        Err(
                            Fault {
                                rule: RuleCode::NoCompareNegZero,
                                span,
                                reason: FaultReason::EmptyNumericLiteral,
                            },
                        )
                    } else if (l is Some && l->0 == seq!['0']) || (r2 is Some && r2->0 == seq![
                        '0',
                    ]) {
                        Ok(
                            seq![
                                Diagnostic {
                                    code: RuleCode::NoCompareNegZero,
                                    message: Message::CompareToNegZero,
                                    span,
                                    severity: Severity::Error,
                                },
                            ],
                        )
                    } else {
                        Ok(Seq::empty())
                    }
                } else {
                    Ok(Seq::empty())
                }
            },
            _ => Ok(Seq::empty()),
        },
        _ => Ok(Seq::empty()),
    }
}

/// What rule `r` reports when offered comment `c`.  Only the two comment
/// policy rules read comments; they never fault.
pub open spec fn spec_check_comment(r: Rule, c: Comment) -> Seq<Diagnostic> {
    match r {
        Rule::BanUntaggedIgnore => {
            if spec_is_directive(c.text@) && !spec_directive_scan(c.text@).1
                && !spec_directive_scan(c.text@).2 {
                seq![
                    Diagnostic {
                        code: RuleCode::BanUntaggedIgnore,
                        message: Message::UntaggedBlanketSuppression,
                        span: c.span,
                        severity: Severity::Error,
                    },
                ]
            } else {
                Seq::empty()
            }
        },
        Rule::BanUntaggedTodo => {
            if spec_is_untagged_todo(c.text@) {
                seq![
                    Diagnostic {
                        code: RuleCode::BanUntaggedTodo,
                        message: Message::UntaggedTodoComment,
                        span: c.span,
                        severity: Severity::Error,
                    },
                ]
            } else {
                Seq::empty()
            }
        },
        _ => Seq::empty(),
    }
}

fn todo_pattern() -> (r: Vec<char>)
    ensures
        r@ == todo_chars(),
{
    let r: Vec<char> = vec!['T', 'O', 'D', 'O'];
    proof {
        assert(r@ =~= todo_chars());
    }
    r
}

fn eval_pattern() -> (r: Vec<char>)
    ensures
        r@ == eval_chars(),
{
    let r: Vec<char> = vec!['e', 'v', 'a', 'l'];
    proof {
        assert(r@ =~= eval_chars());
    }
    r
}

fn is_untagged_todo(text: &Vec<char>) -> (r: bool)
    ensures
        r == spec_is_untagged_todo(text@),
{
    let tl = text.len();
    let j = skip_spaces(text, 0);
    let pat = todo_pattern();
    proof {
        assert(pat@.len() == 4);
    }
    if pat.len() > tl - j {
        return false;
    }
    if !range_eq(text, j, j + 4, &pat) {
        return false;
    }
    if j + 4 < tl && text[j + 4] == '(' && j + 5 < tl {
        let mut k: usize = j + 6;
        while k < tl
            invariant
                j + 6 <= k <= tl,
                tl == text@.len(),
                j + 4 < tl,
                text@[j + 4] == '(',
                j == spec_skip_spaces(text@, 0),
                text@.subrange(j as int, j + 4) == todo_chars(),
                forall|m: int| j + 5 < m < k ==> text@[m] != ')',
            decreases tl - k,
        {
            if text[k] == ')' {
                proof {
                    assert(spec_todo_tagged(text@, j as int));
                }
                return false;
            }
            k = k + 1;
        }
        proof {
            assert(!spec_todo_tagged(text@, j as int));
        }
        true
    } else {
        proof {
            assert(!spec_todo_tagged(text@, j as int));
        }
        true
    }
}

impl Rule {
    /// The stable code the rule reports diagnostics under.
    pub fn code(&self) -> (r: RuleCode)
        ensures
            r == spec_rule_code(*self),
    {
        match self {
            Rule::BanUntaggedIgnore => RuleCode::BanUntaggedIgnore,
            Rule::BanUntaggedTodo => RuleCode::BanUntaggedTodo,
            Rule::ConstructorSuper => RuleCode::ConstructorSuper,
            Rule::Eqeqeq => RuleCode::Eqeqeq,
            Rule::NoCompareNegZero => RuleCode::NoCompareNegZero,
            Rule::NoDebugger => RuleCode::NoDebugger,
            Rule::NoDeleteVar => RuleCode::NoDeleteVar,
            Rule::NoEval => RuleCode::NoEval,
            Rule::NoOctal => RuleCode::NoOctal,
            Rule::NoSparseArray => RuleCode::NoSparseArray,
            Rule::NoThrowLiteral => RuleCode::NoThrowLiteral,
            Rule::NoVar => RuleCode::NoVar,
            Rule::NoWith => RuleCode::NoWith,
        }
    }

    /// Offer statement `s` to this rule.
    pub fn check_stmt(&self, s: &Stmt) -> (r: Result<Vec<Diagnostic>, Fault>)
        ensures
            res_view(r) == spec_check_stmt(*self, *s),
    {
        match self {
            Rule::ConstructorSuper => match s {
                Stmt::Class { class, .. } => Ok(crate::ctor_super::class_diags(class)),
                _ => Ok(Vec::new()),
            },
            Rule::NoDebugger => match s {
                Stmt::Debugger { span } => {
                    let d = Diagnostic {
                        code: RuleCode::NoDebugger,
                        message: Message::DebuggerNotAllowed,
                        span: *span,
                        severity: Severity::Error,
                    };
                    let v = vec![d];
                    proof {
                        assert(v@ =~= spec_check_stmt(*self, *s)->Ok_0);
                    }
                    Ok(v)
                },
                _ => Ok(Vec::new()),
            },
            Rule::NoWith => match s {
                Stmt::With { span, .. } => {
                    let d = Diagnostic {
                        code: RuleCode::NoWith,
                        message: Message::WithNotAllowed,
                        span: *span,
                        severity: Severity::Error,
                    };
                    let v = vec![d];
                    proof {
                        assert(v@ =~= spec_check_stmt(*self, *s)->Ok_0);
                    }
                    Ok(v)
                },
                _ => Ok(Vec::new()),
            },
            Rule::NoVar => match s {
                Stmt::VarDecl { span, kind, .. } => {
                    if matches!(kind, VarKind::Var) {
                        let d = Diagnostic {
                            code: RuleCode::NoVar,
                            message: Message::UseLetOrConst,
                            span: *span,
                            severity: Severity::Error,
                        };
                        let v = vec![d];
                        proof {
                            assert(v@ =~= spec_check_stmt(*self, *s)->Ok_0);
                        }
                        Ok(v)
                    } else {
                        Ok(Vec::new())
                    }
                },
                _ => Ok(Vec::new()),
            },
            Rule::NoThrowLiteral => match s {
                Stmt::Throw { arg, .. } => {
                    let lit = match arg {
                        Expr::Num { .. } => true,
                        Expr::Str { .. } => true,
                        Expr::Bool { .. } => true,
                        Expr::Null { .. } => true,
                        _ => false,
                    };
                    if lit {
                        let d = Diagnostic {
                            code: RuleCode::NoThrowLiteral,
                            message: Message::ThrownLiteral,
                            span: arg.span(),
                            severity: Severity::Error,
                        };
                        let v = vec![d];
                        proof {
                            assert(v@ =~= spec_check_stmt(*self, *s)->Ok_0);
                        }
                        Ok(v)
                    } else {
                        Ok(Vec::new())
                    }
                },
                _ => Ok(Vec::new()),
            },
            _ => {
                proof {
                    assert(spec_check_stmt(*self, *s) == Ok::<Seq<Diagnostic>, Fault>(
                        Seq::empty(),
                    ));
                }
                Ok(Vec::new())
            },
        }
    }

    /// Offer expression `e` to this rule.
    pub fn check_expr(&self, e: &Expr) -> (r: Result<Vec<Diagnostic>, Fault>)
        ensures
            res_view(r) == spec_check_expr(*self, *e),
    {
        match self {
            Rule::Eqeqeq => match e {
                Expr::Binary { span, op, .. } => {
                    if matches!(op, BinOp::EqEq) || matches!(op, BinOp::NotEq) {
                        let d = Diagnostic {
                            code: RuleCode::Eqeqeq,
                            message: Message::UseStrictEquality,
                            span: *span,
                            severity: Severity::Error,
                        };
                        let v = vec![d];
                        proof {
                            assert(v@ =~= spec_check_expr(*self, *e)->Ok_0);
                        }
                        Ok(v)
                    } else {
                        Ok(Vec::new())
                    }
                },
                _ => Ok(Vec::new()),
            },
            Rule::NoEval => match e {
                Expr::Call { span, callee, .. } => match &**callee {
                    Expr::Ident { name, .. } => {
                        let pat = eval_pattern();
                        if range_eq(name, 0, name.len(), &pat) {
                            proof {
                                assert(name@.subrange(0, name@.len() as int) =~= name@);
                            }
                            let d = Diagnostic {
                                code: RuleCode::NoEval,
                                message: Message::EvalNotAllowed,
                                span: *span,
                                severity: Severity::Error,
                            };
                            let v = vec![d];
                            proof {
                                assert(v@ =~= spec_check_expr(*self, *e)->Ok_0);
                            }
                            Ok(v)
                        } else {
                            proof {
                                assert(name@.subrange(0, name@.len() as int) =~= name@);
                            }
                            Ok(Vec::new())
                        }
                    },
                    _ => Ok(Vec::new()),
                },
                _ => Ok(Vec::new()),
            },
            Rule::NoDeleteVar => match e {
                Expr::Unary { span, op, arg } => {
                    if matches!(op, UnaryOp::Delete) && matches!(&**arg, Expr::Ident { .. }) {
                        let d = Diagnostic {
                            code: RuleCode::NoDeleteVar,
                            message: Message::DeleteOfVariable,
                            span: *span,
                            severity: Severity::Error,
                        };
                        let v = vec![d];
                        proof {
                            assert(v@ =~= spec_check_expr(*self, *e)->Ok_0);
                        }
                        Ok(v)
                    } else {
                        Ok(Vec::new())
                    }
                },
                _ => Ok(Vec::new()),
            },
            Rule::NoOctal => match e {
                Expr::Num { span, raw } => {
                    let oct = raw.len() >= 2 && raw[0] == '0' && octal_digit(raw[1]);
                    if oct {
                        let d = Diagnostic {
                            code: RuleCode::NoOctal,
                            message: Message::OctalLiteral,
                            span: *span,
                            severity: Severity::Error,
                        };
                        let v = vec![d];
                        proof {
                            assert(v@ =~= spec_check_expr(*self, *e)->Ok_0);
                        }
                        Ok(v)
                    } else {
                        Ok(Vec::new())
                    }
                },
                _ => Ok(Vec::new()),
            },
            Rule::NoSparseArray => match e {
                Expr::Array { span, elems } => {
                    if has_hole(elems) {
                        let d = Diagnostic {
                            code: RuleCode::NoSparseArray,
                            message: Message::SparseArrayElision,
                            span: *span,
                            severity: Severity::Error,
                        };
                        let v = vec![d];
                        proof {
                            assert(v@ =~= spec_check_expr(*self, *e)->Ok_0);
                        }
                        Ok(v)
                    } else {
                        Ok(Vec::new())
                    }
                },
                _ => Ok(Vec::new()),
            },
            Rule::NoCompareNegZero => match e {
                Expr::Binary { span, op, left, right } => {
                    let cmp = matches!(op, BinOp::EqEq) || matches!(op, BinOp::NotEq) || matches!(
                        op,
                        BinOp::EqEqEq,
                    ) || matches!(op, BinOp::NotEqEq) || matches!(op, BinOp::Lt) || matches!(
                        op,
                        BinOp::Gt,
                    );
                    if cmp {
                        let (le, lz) = neg_num_shape(left);
                        let (re, rz) = neg_num_shape(right);
                        if le || re {
                            Err(
                                Fault {
                                    rule: RuleCode::NoCompareNegZero,
                                    span: *span,
                                    reason: FaultReason::EmptyNumericLiteral,
                                },
                            )
                        } else if lz || rz {
                            let d = Diagnostic {
                                code: RuleCode::NoCompareNegZero,
                                message: Message::CompareToNegZero,
                                span: *span,
                                severity: Severity::Error,
                            };
                            let v = vec![d];
                            proof {
                                assert(v@ =~= spec_check_expr(*self, *e)->Ok_0);
                            }
                            Ok(v)
                        } else {
                            Ok(Vec::new())
                        }
                    } else {
                        Ok(Vec::new())
                    }
                },
                _ => Ok(Vec::new()),
            },
            _ => {
                proof {
                    assert(spec_check_expr(*self, *e) == Ok::<Seq<Diagnostic>, Fault>(
                        Seq::empty(),
                    ));
                }
                Ok(Vec::new())
            },
        }
    }

    /// Offer comment `c` to this rule.
    pub fn check_comment(&self, c: &Comment) -> (r: Vec<Diagnostic>)
        ensures
            r@ == spec_check_comment(*self, *c),
    {
        match self {
            Rule::BanUntaggedIgnore => {
                if is_directive_text(&c.text) {
                    let tl = c.text.len();
                    let j = skip_spaces(&c.text, 0);
                    let m = marker_pattern();
                    proof {
                        assert(m@.len() == 11);
                        assert(j + 11 <= tl);
                    }
                    let scan = scan_tokens(&c.text, j + m.len());
                    if !scan.1 && !scan.2 {
                        let d = Diagnostic {
                            code: RuleCode::BanUntaggedIgnore,
                            message: Message::UntaggedBlanketSuppression,
                            span: c.span,
                            severity: Severity::Error,
                        };
                        let v = vec![d];
                        proof {
                            assert(v@ =~= spec_check_comment(*self, *c));
                        }
                        v
                    } else {
                        Vec::new()
                    }
                } else {
                    Vec::new()
                }
            },
            Rule::BanUntaggedTodo => {
                if is_untagged_todo(&c.text) {
                    let d = Diagnostic {
                        code: RuleCode::BanUntaggedTodo,
                        message: Message::UntaggedTodoComment,
                        span: c.span,
                        severity: Severity::Error,
                    };
                    let v = vec![d];
                    proof {
                        assert(v@ =~= spec_check_comment(*self, *c));
                    }
                    v
                } else {
                    Vec::new()
                }
            },
            _ => {
                proof {
                    assert(spec_check_comment(*self, *c) =~= Seq::<Diagnostic>::empty());
                }
                Vec::new()
            },
        }
    }
}

fn octal_digit(c: char) -> (r: bool)
    ensures
        r == is_octal_digit(c),
{
    c == '0' || c == '1' || c == '2' || c == '3' || c == '4' || c == '5' || c == '6' || c == '7'
}

fn has_hole(elems: &Vec<Option<Expr>>) -> (r: bool)
    ensures
        r == (exists|i: int| 0 <= i < elems@.len() && elems@[i] is None),
{
    let n = elems.len();
    let mut i: usize = 0;
    while i < n
        invariant
            n == elems@.len(),
            i <= n,
            forall|j: int| 0 <= j < i ==> !(elems@[j] is None),
        decreases n - i,
    {
        if elems[i].is_none() {
            return true;
        }
        i = i + 1;
    }
    false
}

/// Whether `e` is a negated numeric literal with empty raw text, and
/// whether it is a negated zero literal.
fn neg_num_shape(e: &Expr) -> (r: (bool, bool))
    ensures
        ({
            let l = neg_num_raw(*e);
            r.0 == (l is Some && l->0.len() == 0) && r.1 == (l is Some && l->0 == seq!['0'])
        }),
{
    match e {
        Expr::Unary { op, arg, .. } => {
            if matches!(op, UnaryOp::Minus) {
                match &**arg {
                    Expr::Num { raw, .. } => {
                        let z = raw.len() == 1 && raw[0] == '0';
                        proof {
                            if raw@.len() == 1 && raw@[0] == '0' {
                                assert(raw@ =~= seq!['0']);
                            }
                            if raw@ == seq!['0'] {
                                assert(raw@.len() == 1 && raw@[0] == '0');
                            }
                        }
                        (raw.len() == 0, z)
                    },
                    _ => (false, false),
                }
            } else {
                (false, false)
            }
        },
        _ => (false, false),
    }
}

/// The curated safe-default collection, ordered.
pub open spec fn spec_recommended_rules() -> Seq<Rule> {
    seq![
        Rule::BanUntaggedIgnore,
        Rule::ConstructorSuper,
        Rule::NoCompareNegZero,
        Rule::NoDebugger,
        Rule::NoDeleteVar,
        Rule::NoOctal,
        Rule::NoWith,
    ]
}

/// Every implemented rule, ordered.
pub open spec fn spec_all_rules() -> Seq<Rule> {
    seq![
        Rule::BanUntaggedIgnore,
        Rule::BanUntaggedTodo,
        Rule::ConstructorSuper,
        Rule::Eqeqeq,
        Rule::NoCompareNegZero,
        Rule::NoDebugger,
        Rule::NoDeleteVar,
        Rule::NoEval,
        Rule::NoOctal,
        Rule::NoSparseArray,
        Rule::NoThrowLiteral,
        Rule::NoVar,
        Rule::NoWith,
    ]
}

/// The curated safe-default rule collection.
pub fn get_recommended_rules() -> (r: Vec<Rule>)
    ensures
        r@ == spec_recommended_rules(),
{
    let r: Vec<Rule> = vec![
        Rule::BanUntaggedIgnore,
        Rule::ConstructorSuper,
        Rule::NoCompareNegZero,
        Rule::NoDebugger,
        Rule::NoDeleteVar,
        Rule::NoOctal,
        Rule::NoWith,
    ];
    proof {
        assert(r@ =~= spec_recommended_rules());
    }
    r
}

/// Every implemented rule.
pub fn get_all_rules() -> (r: Vec<Rule>)
    ensures
        r@ == spec_all_rules(),
{
    let r: Vec<Rule> = vec![
        Rule::BanUntaggedIgnore,
        Rule::BanUntaggedTodo,
        Rule::ConstructorSuper,
        Rule::Eqeqeq,
        Rule::NoCompareNegZero,
        Rule::NoDebugger,
        Rule::NoDeleteVar,
        Rule::NoEval,
        Rule::NoOctal,
        Rule::NoSparseArray,
        Rule::NoThrowLiteral,
        Rule::NoVar,
        Rule::NoWith,
    ];
    proof {
        assert(r@ =~= spec_all_rules());
    }
    r
}

/// An explicit rule selection: each requested code spelled as characters,
/// resolved in order; the first unknown code is a configuration error.
pub open spec fn spec_rules_from_codes(cs: Seq<Vec<char>>, i: int) -> Result<Seq<Rule>,
    ConfigError>
    decreases cs.len() - i,
{
    if i < 0 || i >= cs.len() {
        Ok(Seq::empty())
    } else {
        match crate::suppress::spec_parse_code(cs[i]@) {
            None => Err(ConfigError { index: i as usize }),
            Some(c) => match spec_rules_from_codes(cs, i + 1) {
                Ok(rest) => Ok(seq![spec_rule_of_code(c)] + rest),
                Err(e) => Err(e),
            },
        }
    }
}

fn rules_from_codes_from(cs: &Vec<Vec<char>>, i: usize) -> (r: Result<Vec<Rule>, ConfigError>)
    requires
        i <= cs@.len(),
    ensures
        ({
            let sp = spec_rules_from_codes(cs@, i as int);
            match (r, sp) {
                (Ok(v), Ok(s)) => v@ == s,
                (Err(e1), Err(e2)) => e1 == e2,
                _ => false,
            }
        }),
    decreases cs@.len() - i,
{
    if i == cs.len() {
        Ok(Vec::new())
    } else {
        let code = crate::suppress::parse_code_range(&cs[i], 0, cs[i].len());
        proof {
            assert(cs@[i as int]@.subrange(0, cs@[i as int]@.len() as int) =~= cs@[i as int]@);
        }
        match code {
            None => Err(ConfigError { index: i }),
            Some(c) => match rules_from_codes_from(cs, i + 1) {
                Ok(mut rest) => {
                    let rl = match c {
                        RuleCode::BanUntaggedIgnore => Rule::BanUntaggedIgnore,
                        RuleCode::BanUntaggedTodo => Rule::BanUntaggedTodo,
                        RuleCode::ConstructorSuper => Rule::ConstructorSuper,
                        RuleCode::Eqeqeq => Rule::Eqeqeq,
                        RuleCode::NoCompareNegZero => Rule::NoCompareNegZero,
                        RuleCode::NoDebugger => Rule::NoDebugger,
                        RuleCode::NoDeleteVar => Rule::NoDeleteVar,
                        RuleCode::NoEval => Rule::NoEval,
                        RuleCode::NoOctal => Rule::NoOctal,
                        RuleCode::NoSparseArray => Rule::NoSparseArray,
                        RuleCode::NoThrowLiteral => Rule::NoThrowLiteral,
                        RuleCode::NoVar => Rule::NoVar,
                        RuleCode::NoWith => Rule::NoWith,
                    };
                    rest.insert(0, rl);
                    proof {
                        assert(rest@ =~= spec_rules_from_codes(cs@, i as int)->Ok_0);
                    }
                    Ok(rest)
                },
                Err(e) => Err(e),
            },
        }
    }
}

/// Resolve an explicit list of rule codes to a rule collection.  Unknown
/// codes are a configuration error naming the first offending position —
/// deliberately stricter than the lenient treatment of unknown codes in
/// suppression directives.
pub fn rules_from_codes(cs: &Vec<Vec<char>>) -> (r: Result<Vec<Rule>, ConfigError>)
    ensures
        ({
            let sp = spec_rules_from_codes(cs@, 0);
            match (r, sp) {
                (Ok(v), Ok(s)) => v@ == s,
                (Err(e1), Err(e2)) => e1 == e2,
                _ => false,
            }
        }),
{
    rules_from_codes_from(cs, 0)
}

} // verus!
