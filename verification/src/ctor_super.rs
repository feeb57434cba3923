//! Control-flow analysis of `super()` calls in derived-class constructors.
//!
//! Each program point carries an abstract state: `super()` definitely called,
//! definitely not yet called, or possibly not yet called (the join of a
//! called and a not-called predecessor).  Using `this` or `super.member`
//! while the state is not definitely-called, reaching the end of the
//! constructor (or a `return`) in such a state, and calling `super()` again
//! on an already-called path are each reported as diagnostics.

use vstd::prelude::*;
use crate::Span;
use crate::ast::{BinOp, Class, Expr, Stmt, SwitchCase};
use crate::diag::{Diagnostic, Message, RuleCode, Severity};

verus! {

/// Whether `super()` has been called at a program point.
#[derive(Clone, Copy, PartialEq, Eq, Structural, Debug)]
pub enum CallState {
    NotCalled,
    Called,
    MaybeCalled,
}

/// Abstract state at a program point: whether the point is reachable at
/// all, and the `super()` call state if it is.
#[derive(Clone, Copy, PartialEq, Eq, Structural, Debug)]
pub struct Flow {
    pub reachable: bool,
    pub state: CallState,
}

/// Join of two call states: agreeing states keep their value, disagreeing
/// ones become `MaybeCalled`.
pub open spec fn spec_join_state(a: CallState, b: CallState) -> CallState {
    if a == b {
        a
    } else {
        CallState::MaybeCalled
    }
}

/// Join of two branch exits: an unreachable branch contributes nothing.
pub open spec fn spec_join_flow(a: Flow, b: Flow) -> Flow {
    if !a.reachable {
        b
    } else if !b.reachable {
        a
    } else {
        Flow { reachable: true, state: spec_join_state(a.state, b.state) }
    }
}

pub fn join_state(a: CallState, b: CallState) -> (r: CallState)
    ensures
        r == spec_join_state(a, b),
{
    if a == b {
        a
    } else {
        CallState::MaybeCalled
    }
}

pub fn join_flow(a: Flow, b: Flow) -> (r: Flow)
    ensures
        r == spec_join_flow(a, b),
{
    if !a.reachable {
        b
    } else if !b.reachable {
        a
    } else {
        Flow { reachable: true, state: join_state(a.state, b.state) }
    }
}

/// A finding of this analyzer, always under the `constructor-super` code.
pub open spec fn cs_diag(message: Message, span: Span) -> Diagnostic {
    Diagnostic { code: RuleCode::ConstructorSuper, message, span, severity: Severity::Error }
}

/// A diagnostic is owed at this point when the point is reachable and
/// `super()` is not definitely called.
pub open spec fn needs_super(f: Flow) -> bool {
    f.reachable && f.state != CallState::Called
}

pub open spec fn spec_flow_expr(e: Expr, f: Flow) -> (Flow, Seq<Diagnostic>)
    decreases e, 0int,
{
    match e {
        Expr::This { span } => (
            f,
            if needs_super(f) {
                seq![cs_diag(Message::ThisBeforeSuper, span)]
            } else {
                Seq::empty()
            },
        ),
        Expr::SuperProp { span } => (
            f,
            if needs_super(f) {
                seq![cs_diag(Message::ThisBeforeSuper, span)]
            } else {
                Seq::empty()
            },
        ),
        Expr::SuperCall { span, args } => {
            let (f1, d1) = spec_flow_exprs(args@, 0, f);
            let dup: Seq<Diagnostic> = if f1.reachable && f1.state == CallState::Called {
                seq![cs_diag(Message::DuplicateSuper, span)]
            } else {
                Seq::empty()
            };
            (Flow { reachable: f1.reachable, state: CallState::Called }, d1 + dup)
        },
        Expr::Ident { .. } => (f, Seq::empty()),
        Expr::Num { .. } => (f, Seq::empty()),
        Expr::Str { .. } => (f, Seq::empty()),
        Expr::Bool { .. } => (f, Seq::empty()),
        Expr::Null { .. } => (f, Seq::empty()),
        Expr::Array { elems, .. } => spec_flow_opt_exprs(elems@, 0, f),
        Expr::Unary { arg, .. } => spec_flow_expr(*arg, f),
        Expr::Binary { op, left, right, .. } => {
            let (f1, d1) = spec_flow_expr(*left, f);
            let (f2, d2) = spec_flow_expr(*right, f1);
            if op == BinOp::LogicalAnd || op == BinOp::LogicalOr {
                (spec_join_flow(f1, f2), d1 + d2)
            } else {
                (f2, d1 + d2)
            }
        },
        Expr::Assign { target, value, .. } => {
            let (f1, d1) = spec_flow_expr(*target, f);
            let (f2, d2) = spec_flow_expr(*value, f1);
            (f2, d1 + d2)
        },
        Expr::Call { callee, args, .. } => {
            let (f1, d1) = spec_flow_expr(*callee, f);
            let (f2, d2) = spec_flow_exprs(args@, 0, f1);
            (f2, d1 + d2)
        },
        Expr::Member { span, obj, .. } => {
            // A member access on `this` is reported once, at the span of the
            // whole access; the inner `this` token is not reported again.
            match *obj {
                Expr::This { .. } => (
                    f,
                    if needs_super(f) {
                        seq![cs_diag(Message::ThisBeforeSuper, span)]
                    } else {
                        Seq::empty()
                    },
                ),
                _ => spec_flow_expr(*obj, f),
            }
        },
        Expr::Cond { cond, cons, alt, .. } => {
            let (fc, dc) = spec_flow_expr(*cond, f);
            let (f1, d1) = spec_flow_expr(*cons, fc);
            let (f2, d2) = spec_flow_expr(*alt, fc);
            (spec_join_flow(f1, f2), dc + d1 + d2)
        },
    }
}

pub open spec fn spec_flow_exprs(es: Seq<Expr>, i: int, f: Flow) -> (Flow, Seq<Diagnostic>)
    decreases es, es.len() - i,
{
    if i < 0 || i >= es.len() {
        (f, Seq::empty())
    } else {
        let (f1, d1) = spec_flow_expr(es[i], f);
        let (f2, d2) = spec_flow_exprs(es, i + 1, f1);
        (f2, d1 + d2)
    }
}

pub open spec fn spec_flow_opt_exprs(es: Seq<Option<Expr>>, i: int, f: Flow) -> (
    Flow,
    Seq<Diagnostic>,
)
    decreases es, es.len() - i,
{
    if i < 0 || i >= es.len() {
        (f, Seq::empty())
    } else {
        let (f1, d1) = match es[i] {
            Some(e) => spec_flow_expr(e, f),
            None => (f, Seq::empty()),
        };
        let (f2, d2) = spec_flow_opt_exprs(es, i + 1, f1);
        (f2, d1 + d2)
    }
}

pub open spec fn spec_flow_decls(ds: Seq<(Vec<char>, Option<Expr>)>, i: int, f: Flow) -> (
    Flow,
    Seq<Diagnostic>,
)
    decreases ds, ds.len() - i,
{
    if i < 0 || i >= ds.len() {
        (f, Seq::empty())
    } else {
        let (f1, d1) = match ds[i].1 {
            Some(e) => spec_flow_expr(e, f),
            None => (f, Seq::empty()),
        };
        let (f2, d2) = spec_flow_decls(ds, i + 1, f1);
        (f2, d1 + d2)
    }
}

pub open spec fn spec_flow_stmt(s: Stmt, f: Flow) -> (Flow, Seq<Diagnostic>)
    decreases s, 0int,
{
    match s {
        Stmt::Expr { expr, .. } => spec_flow_expr(expr, f),
        Stmt::VarDecl { decls, .. } => spec_flow_decls(decls@, 0, f),
        Stmt::If { cond, cons, alt, .. } => {
            let (fc, dc) = spec_flow_expr(cond, f);
            let (f1, d1) = spec_flow_stmt(*cons, fc);
            match alt {
                Some(a) => {
                    let (f2, d2) = spec_flow_stmt(*a, fc);
                    (spec_join_flow(f1, f2), dc + d1 + d2)
                },
                None => (spec_join_flow(f1, fc), dc + d1),
            }
        },
        Stmt::Block { stmts, .. } => spec_flow_stmts(stmts@, 0, f),
        Stmt::While { cond, body, .. } => {
            // The body is analyzed once, from the state at the loop head, and
            // the exit joins the zero-iteration path with the one-iteration
            // path.  A `super()` that repeats only across iterations thus
            // surfaces as a maybe-missing call at the join, not as a
            // duplicate call, which only a second pass through the body
            // could witness.
            let (fc, dc) = spec_flow_expr(cond, f);
            let (fb, db) = spec_flow_stmt(*body, fc);
            (spec_join_flow(fc, fb), dc + db)
        },
        Stmt::Return { span, arg } => {
            let (fa, da) = match arg {
                Some(e) => spec_flow_expr(e, f),
                None => (f, Seq::empty()),
            };
            let miss: Seq<Diagnostic> = if needs_super(fa) {
                seq![cs_diag(Message::MissingSuper, span)]
            } else {
                Seq::empty()
            };
            (Flow { reachable: false, state: fa.state }, da + miss)
        },
        Stmt::Throw { arg, .. } => {
            let (fa, da) = spec_flow_expr(arg, f);
            (Flow { reachable: false, state: fa.state }, da)
        },
        Stmt::Try { block, catch, finally, .. } => {
            let (ft, dt) = spec_flow_stmts(block@, 0, f);
            let (fa, da) = match catch {
                Some(cs) => {
                    let entry = Flow {
                        reachable: f.reachable,
                        state: spec_join_state(f.state, ft.state),
                    };
                    let (fc, dc) = spec_flow_stmts(cs@, 0, entry);
                    (spec_join_flow(ft, fc), dt + dc)
                },
                None => (ft, dt),
            };
            match finally {
                Some(fs) => {
                    let (ff, df) = spec_flow_stmts(fs@, 0, fa);
                    (ff, da + df)
                },
                None => (fa, da),
            }
        },
        Stmt::Switch { disc, cases, .. } => {
            let (fd, dd) = spec_flow_expr(disc, f);
            let (fc, dc) = spec_flow_cases(cases@, 0, fd);
            let out = if spec_has_default(cases@) {
                fc
            } else {
                spec_join_flow(fd, fc)
            };
            (out, dd + dc)
        },
        Stmt::Debugger { .. } => (f, Seq::empty()),
        Stmt::With { obj, body, .. } => {
            let (fo, dobj) = spec_flow_expr(obj, f);
            let (fb, db) = spec_flow_stmt(*body, fo);
            (fb, dobj + db)
        },
        Stmt::Empty { .. } => (f, Seq::empty()),
        Stmt::Class { .. } => (f, Seq::empty()),
    }
}

pub open spec fn spec_flow_stmts(ss: Seq<Stmt>, i: int, f: Flow) -> (Flow, Seq<Diagnostic>)
    decreases ss, ss.len() - i,
{
    if i < 0 || i >= ss.len() {
        (f, Seq::empty())
    } else {
        let (f1, d1) = spec_flow_stmt(ss[i], f);
        let (f2, d2) = spec_flow_stmts(ss, i + 1, f1);
        (f2, d1 + d2)
    }
}

/// Whether a `default` arm is present, so some arm is always taken.
pub open spec fn spec_has_default(cs: Seq<SwitchCase>) -> bool {
    exists|i: int| 0 <= i < cs.len() && cs[i].test is None
}

/// Each case arm analyzed independently from the state after the
/// discriminant; the arms' exits joined.  The empty tail is an unreachable
/// exit, the identity of the join.
pub open spec fn spec_flow_cases(cs: Seq<SwitchCase>, i: int, fd: Flow) -> (
    Flow,
    Seq<Diagnostic>,
)
    decreases cs, cs.len() - i,
{
    if i < 0 || i >= cs.len() {
        (Flow { reachable: false, state: fd.state }, Seq::empty())
    } else {
        let (ft, dt) = match cs[i].test {
            Some(e) => spec_flow_expr(e, fd),
            None => (fd, Seq::empty()),
        };
        let (f1, d1) = spec_flow_stmts(cs[i].body@, 0, ft);
        let (f2, d2) = spec_flow_cases(cs, i + 1, fd);
        (spec_join_flow(f1, f2), dt + d1 + d2)
    }
}

/// What the analyzer reports for one class declaration: nothing unless the
/// class is derived and declares a constructor; otherwise the body's flow
/// diagnostics, then a missing-super diagnostic at the constructor's span
/// when the end is reachable without a definite `super()` call.
pub open spec fn spec_class_diags(c: Class) -> Seq<Diagnostic> {
    if c.has_super_class && c.ctor is Some {
        let ctor = c.ctor->0;
        let (ff, d) = spec_flow_stmts(
            ctor.body@,
            0,
            Flow { reachable: true, state: CallState::NotCalled },
        );
        d + if needs_super(ff) {
            seq![cs_diag(Message::MissingSuper, ctor.span)]
        } else {
            Seq::empty()
        }
    } else {
        Seq::empty()
    }
}

#[verifier::rlimit(100)]
#[verifier::spinoff_prover]
fn flow_expr(e: &Expr, f: Flow, out: &mut Vec<Diagnostic>) -> (r: Flow)
    ensures
        ({
            let (sf, sd) = spec_flow_expr(*e, f);
            r == sf && final(out)@ == old(out)@ + sd
        }),
    decreases *e, 0int,
{
    match e {
        Expr::This { span } => {
            if f.reachable && !matches!(f.state, CallState::Called) {
                out.push(
                    Diagnostic {
                        code: RuleCode::ConstructorSuper,
                        message: Message::ThisBeforeSuper,
                        span: *span,
                        severity: Severity::Error,
                    },
                );
            }
            proof {
                assert(out@ =~= old(out)@ + spec_flow_expr(*e, f).1);
            }
            f
        },
        Expr::SuperProp { span } => {
            if f.reachable && !matches!(f.state, CallState::Called) {
                out.push(
                    Diagnostic {
                        code: RuleCode::ConstructorSuper,
                        message: Message::ThisBeforeSuper,
                        span: *span,
                        severity: Severity::Error,
                    },
                );
            }
            proof {
                assert(out@ =~= old(out)@ + spec_flow_expr(*e, f).1);
            }
            f
        },
        Expr::SuperCall { span, args } => {
            let f1 = flow_exprs(args, 0, f, out);
            if f1.reachable && matches!(f1.state, CallState::Called) {
                out.push(
                    Diagnostic {
                        code: RuleCode::ConstructorSuper,
                        message: Message::DuplicateSuper,
                        span: *span,
                        severity: Severity::Error,
                    },
                );
            }
            proof {
                assert(out@ =~= old(out)@ + spec_flow_expr(*e, f).1);
            }
            Flow { reachable: f1.reachable, state: CallState::Called }
        },
        Expr::Ident { .. } => {
            proof {
                assert(out@ =~= old(out)@ + spec_flow_expr(*e, f).1);
            }
            f
        },
        Expr::Num { .. } => {
            proof {
                assert(out@ =~= old(out)@ + spec_flow_expr(*e, f).1);
            }
            f
        },
        Expr::Str { .. } => {
            proof {
                assert(out@ =~= old(out)@ + spec_flow_expr(*e, f).1);
            }
            f
        },
        Expr::Bool { .. } => {
            proof {
                assert(out@ =~= old(out)@ + spec_flow_expr(*e, f).1);
            }
            f
        },
        Expr::Null { .. } => {
            proof {
                assert(out@ =~= old(out)@ + spec_flow_expr(*e, f).1);
            }
            f
        },
        Expr::Array { elems, .. } => {
            let r = flow_opt_exprs(elems, 0, f, out);
            r
        },
        Expr::Unary { arg, .. } => {
            let r = flow_expr(arg, f, out);
            r
        },
        Expr::Binary { op, left, right, .. } => {
            let f1 = flow_expr(left, f, out);
            let f2 = flow_expr(right, f1, out);
            proof {
                assert(out@ =~= old(out)@ + spec_flow_expr(*e, f).1);
            }
            if matches!(op, BinOp::LogicalAnd) || matches!(op, BinOp::LogicalOr) {
                join_flow(f1, f2)
            } else {
                f2
            }
        },
        Expr::Assign { target, value, .. } => {
            let f1 = flow_expr(target, f, out);
            let f2 = flow_expr(value, f1, out);
            proof {
                assert(out@ =~= old(out)@ + spec_flow_expr(*e, f).1);
            }
            f2
        },
        Expr::Call { callee, args, .. } => {
            let f1 = flow_expr(callee, f, out);
            let f2 = flow_exprs(args, 0, f1, out);
            proof {
                assert(out@ =~= old(out)@ + spec_flow_expr(*e, f).1);
            }
            f2
        },
        Expr::Member { span, obj, .. } => {
            match &**obj {
                Expr::This { .. } => {
                    if f.reachable && !matches!(f.state, CallState::Called) {
                        out.push(
                            Diagnostic {
                                code: RuleCode::ConstructorSuper,
                                message: Message::ThisBeforeSuper,
                                span: *span,
                                severity: Severity::Error,
                            },
                        );
                    }
                    proof {
                        assert(out@ =~= old(out)@ + spec_flow_expr(*e, f).1);
                    }
                    f
                },
                _ => {
                    let r = flow_expr(obj, f, out);
                    r
                },
            }
        },
        Expr::Cond { cond, cons, alt, .. } => {
            let fc = flow_expr(cond, f, out);
            let f1 = flow_expr(cons, fc, out);
            let f2 = flow_expr(alt, fc, out);
            proof {
                assert(out@ =~= old(out)@ + spec_flow_expr(*e, f).1);
            }
            join_flow(f1, f2)
        },
    }
}

fn flow_exprs(es: &Vec<Expr>, i: usize, f: Flow, out: &mut Vec<Diagnostic>) -> (r: Flow)
    requires
        i <= es@.len(),
    ensures
        ({
            let (sf, sd) = spec_flow_exprs(es@, i as int, f);
            r == sf && final(out)@ == old(out)@ + sd
        }),
    decreases es@, es@.len() - i,
{
    if i == es.len() {
        proof {
            assert(out@ =~= old(out)@ + spec_flow_exprs(es@, i as int, f).1);
        }
        f
    } else {
        let f1 = flow_expr(&es[i], f, out);
        let f2 = flow_exprs(es, i + 1, f1, out);
        proof {
            assert(out@ =~= old(out)@ + spec_flow_exprs(es@, i as int, f).1);
        }
        f2
    }
}

fn flow_opt_exprs(es: &Vec<Option<Expr>>, i: usize, f: Flow, out: &mut Vec<Diagnostic>) -> (r:
    Flow)
    requires
        i <= es@.len(),
    ensures
        ({
            let (sf, sd) = spec_flow_opt_exprs(es@, i as int, f);
            r == sf && final(out)@ == old(out)@ + sd
        }),
    decreases es@, es@.len() - i,
{
    if i == es.len() {
        proof {
            assert(out@ =~= old(out)@ + spec_flow_opt_exprs(es@, i as int, f).1);
        }
        f
    } else {
        let f1 = match &es[i] {
            Some(e) => flow_expr(e, f, out),
            None => f,
        };
        let f2 = flow_opt_exprs(es, i + 1, f1, out);
        proof {
            assert(out@ =~= old(out)@ + spec_flow_opt_exprs(es@, i as int, f).1);
        }
        f2
    }
}

fn flow_decls(ds: &Vec<(Vec<char>, Option<Expr>)>, i: usize, f: Flow, out: &mut Vec<
    Diagnostic,
>) -> (r: Flow)
    requires
        i <= ds@.len(),
    ensures
        ({
            let (sf, sd) = spec_flow_decls(ds@, i as int, f);
            r == sf && final(out)@ == old(out)@ + sd
        }),
    decreases ds@, ds@.len() - i,
{
    if i == ds.len() {
        proof {
            assert(out@ =~= old(out)@ + spec_flow_decls(ds@, i as int, f).1);
        }
        f
    } else {
        let f1 = match &ds[i].1 {
            Some(e) => flow_expr(e, f, out),
            None => f,
        };
        let f2 = flow_decls(ds, i + 1, f1, out);
        proof {
            assert(out@ =~= old(out)@ + spec_flow_decls(ds@, i as int, f).1);
        }
        f2
    }
}

#[verifier::rlimit(60)]
#[verifier::spinoff_prover]
fn flow_stmt(s: &Stmt, f: Flow, out: &mut Vec<Diagnostic>) -> (r: Flow)
    ensures
        ({
            let (sf, sd) = spec_flow_stmt(*s, f);
            r == sf && final(out)@ == old(out)@ + sd
        }),
    decreases *s, 1int,
{
    match s {
        Stmt::Expr { expr, .. } => {
            let r = flow_expr(expr, f, out);
            r
        },
        Stmt::VarDecl { decls, .. } => {
            let r = flow_decls(decls, 0, f, out);
            r
        },
        Stmt::If { .. } => {
            let r = flow_stmt_branching(s, f, out);
            r
        },
        Stmt::Block { stmts, .. } => {
            let r = flow_stmts(stmts, 0, f, out);
            r
        },
        Stmt::While { .. } => {
            let r = flow_stmt_branching(s, f, out);
            r
        },
        Stmt::Try { .. } => {
            let r = flow_stmt_branching(s, f, out);
            r
        },
        Stmt::With { .. } => {
            let r = flow_stmt_branching(s, f, out);
            r
        },
        Stmt::Switch { .. } => {
            let r = flow_stmt_branching(s, f, out);
            r
        },
        Stmt::Return { span, arg } => {
            let fa = match arg {
                Some(e) => flow_expr(e, f, out),
                None => f,
            };
            if fa.reachable && !matches!(fa.state, CallState::Called) {
                out.push(
                    Diagnostic {
                        code: RuleCode::ConstructorSuper,
                        message: Message::MissingSuper,
                        span: *span,
                        severity: Severity::Error,
                    },
                );
            }
            proof {
                assert(out@ =~= old(out)@ + spec_flow_stmt(*s, f).1);
            }
            Flow { reachable: false, state: fa.state }
        },
        Stmt::Throw { arg, .. } => {
            let fa = flow_expr(arg, f, out);
            proof {
                assert(out@ =~= old(out)@ + spec_flow_stmt(*s, f).1);
            }
            Flow { reachable: false, state: fa.state }
        },
        Stmt::Debugger { .. } => {
            proof {
                assert(out@ =~= old(out)@ + spec_flow_stmt(*s, f).1);
            }
            f
        },
        Stmt::Empty { .. } => {
            proof {
                assert(out@ =~= old(out)@ + spec_flow_stmt(*s, f).1);
            }
            f
        },
        Stmt::Class { .. } => {
            proof {
                assert(out@ =~= old(out)@ + spec_flow_stmt(*s, f).1);
            }
            f
        },
    }
}

/// The statement forms with several outgoing control-flow arms, split out so
/// each prover query stays small.
#[verifier::rlimit(100)]
#[verifier::spinoff_prover]
fn flow_stmt_branching(s: &Stmt, f: Flow, out: &mut Vec<Diagnostic>) -> (r: Flow)
    requires
        (matches!(s, Stmt::If { .. }) || matches!(s, Stmt::While { .. }) || matches!(
            s,
            Stmt::Try { .. },
        ) || matches!(s, Stmt::With { .. }) || matches!(s, Stmt::Switch { .. })),
    ensures
        ({
            let (sf, sd) = spec_flow_stmt(*s, f);
            r == sf && final(out)@ == old(out)@ + sd
        }),
    decreases *s, 0int,
{
    match s {
        Stmt::If { cond, cons, alt, .. } => {
            let fc = flow_expr(cond, f, out);
            let f1 = flow_stmt(cons, fc, out);
            let r = match alt {
                Some(a) => {
                    let f2 = flow_stmt(a, fc, out);
                    join_flow(f1, f2)
                },
                None => join_flow(f1, fc),
            };
            proof {
                assert(out@ =~= old(out)@ + spec_flow_stmt(*s, f).1);
            }
            r
        },
        Stmt::While { cond, body, .. } => {
            let fc = flow_expr(cond, f, out);
            let fb = flow_stmt(body, fc, out);
            proof {
                assert(out@ =~= old(out)@ + spec_flow_stmt(*s, f).1);
            }
            join_flow(fc, fb)
        },
        Stmt::Try { block, catch, finally, .. } => {
            let ft = flow_stmts(block, 0, f, out);
            let fa = match catch {
                Some(cs) => {
                    let entry = Flow {
                        reachable: f.reachable,
                        state: join_state(f.state, ft.state),
                    };
                    let fc = flow_stmts(cs, 0, entry, out);
                    join_flow(ft, fc)
                },
                None => ft,
            };
            let r = match finally {
                Some(fs) => flow_stmts(fs, 0, fa, out),
                None => fa,
            };
            proof {
                assert(out@ =~= old(out)@ + spec_flow_stmt(*s, f).1);
            }
            r
        },
        Stmt::With { obj, body, .. } => {
            let fo = flow_expr(obj, f, out);
            let fb = flow_stmt(body, fo, out);
            proof {
                assert(out@ =~= old(out)@ + spec_flow_stmt(*s, f).1);
            }
            fb
        },
        Stmt::Switch { disc, cases, .. } => {
            let fd = flow_expr(disc, f, out);
            let fc = flow_cases(cases, 0, fd, out);
            let r = if has_default(cases) {
                fc
            } else {
                join_flow(fd, fc)
            };
            proof {
                assert(out@ =~= old(out)@ + spec_flow_stmt(*s, f).1);
            }
            r
        },
        Stmt::Expr { .. } => f,
        Stmt::VarDecl { .. } => f,
        Stmt::Block { .. } => f,
        Stmt::Return { .. } => f,
        Stmt::Throw { .. } => f,
        Stmt::Debugger { .. } => f,
        Stmt::Empty { .. } => f,
        Stmt::Class { .. } => f,
    }
}

fn has_default(cs: &Vec<SwitchCase>) -> (r: bool)
    ensures
        r == spec_has_default(cs@),
{
    let n = cs.len();
    let mut i: usize = 0;
    while i < n
        invariant
            n == cs@.len(),
            i <= n,
            forall|j: int| 0 <= j < i ==> !(cs@[j].test is None),
        decreases n - i,
    {
        if cs[i].test.is_none() {
            return true;
        }
        i = i + 1;
    }
    false
}

fn flow_cases(cs: &Vec<SwitchCase>, i: usize, fd: Flow, out: &mut Vec<Diagnostic>) -> (r: Flow)
    requires
        i <= cs@.len(),
    ensures
        ({
            let (sf, sd) = spec_flow_cases(cs@, i as int, fd);
            r == sf && final(out)@ == old(out)@ + sd
        }),
    decreases cs@, cs@.len() - i,
{
    if i == cs.len() {
        proof {
            assert(out@ =~= old(out)@ + spec_flow_cases(cs@, i as int, fd).1);
        }
        Flow { reachable: false, state: fd.state }
    } else {
        let ft = match &cs[i].test {
            Some(e) => flow_expr(e, fd, out),
            None => fd,
        };
        let f1 = flow_stmts(&cs[i].body, 0, ft, out);
        let f2 = flow_cases(cs, i + 1, fd, out);
        proof {
            assert(out@ =~= old(out)@ + spec_flow_cases(cs@, i as int, fd).1);
        }
        join_flow(f1, f2)
    }
}

fn flow_stmts(ss: &Vec<Stmt>, i: usize, f: Flow, out: &mut Vec<Diagnostic>) -> (r: Flow)
    requires
        i <= ss@.len(),
    ensures
        ({
            let (sf, sd) = spec_flow_stmts(ss@, i as int, f);
            r == sf && final(out)@ == old(out)@ + sd
        }),
    decreases ss@, ss@.len() - i,
{
    if i == ss.len() {
        proof {
            assert(out@ =~= old(out)@ + spec_flow_stmts(ss@, i as int, f).1);
        }
        f
    } else {
        let f1 = flow_stmt(&ss[i], f, out);
        let f2 = flow_stmts(ss, i + 1, f1, out);
        proof {
            assert(out@ =~= old(out)@ + spec_flow_stmts(ss@, i as int, f).1);
        }
        f2
    }
}

/// Run the constructor-`super()` analysis on one class declaration.
/// Non-derived classes and classes with no explicit constructor yield no
/// diagnostics.
pub fn class_diags(c: &Class) -> (r: Vec<Diagnostic>)
    ensures
        r@ == spec_class_diags(*c),
{
    let mut out: Vec<Diagnostic> = Vec::new();
    if c.has_super_class {
        match &c.ctor {
            Some(ctor) => {
                let ff = flow_stmts(
                    &ctor.body,
                    0,
                    Flow { reachable: true, state: CallState::NotCalled },
                    &mut out,
                );
                if ff.reachable && !matches!(ff.state, CallState::Called) {
                    out.push(
                        Diagnostic {
                            code: RuleCode::ConstructorSuper,
                            message: Message::MissingSuper,
                            span: ctor.span,
                            severity: Severity::Error,
                        },
                    );
                }
                proof {
                    assert(out@ =~= spec_class_diags(*c));
                }
            },
            None => {},
        }
    }
    out
}

} // verus!
