//! Engine-wide guarantees, each proved from the specifications the
//! executable pipeline is verified against: filtering is the identity when
//! no directive exists, the untagged-ignore ban reports one diagnostic per
//! bare blanket directive and cannot be silenced by its own directive, the
//! full collection's run subsumes the recommended run, a rule's findings
//! survive whatever the other rules do on the same walk, and the pipeline
//! is a function of its input.

use vstd::prelude::*;
use crate::ast::{Comment, Expr, Module, Stmt, SwitchCase};
use crate::diag::{is_ban_code, Diagnostic, RuleCode};
use crate::dispatch::{
    spec_comment_diags, spec_dispatch, spec_offer_comment, spec_offer_expr, spec_offer_stmt,
    spec_walk_cases, spec_walk_decls, spec_walk_expr, spec_walk_exprs, spec_walk_opt_exprs,
    spec_walk_stmt, spec_walk_stmts,
};
use crate::lint::{spec_lint_diags, spec_lint_faults, spec_raw_diags};
use crate::rules::{
    spec_check_comment, spec_check_expr, spec_check_stmt, spec_recommended_rules,
    spec_all_rules, Rule,
};
use crate::suppress::{
    spec_directives, spec_filter, spec_is_directive, spec_line_of, spec_matches,
    spec_suppressed, DirectiveModel,
};

verus! {

/// Every rule of `r1` appears in `r2`.
pub open spec fn subset_rules(r1: Seq<Rule>, r2: Seq<Rule>) -> bool {
    forall|i: int| 0 <= i < r1.len() ==> r2.contains(#[trigger] r1[i])
}

proof fn lemma_contains_cat<T>(a: Seq<T>, b: Seq<T>, x: T)
    ensures
        (a + b).contains(x) <==> a.contains(x) || b.contains(x),
{
    if (a + b).contains(x) {
        let i = choose|i: int| 0 <= i < (a + b).len() && (a + b)[i] == x;
        if i < a.len() {
            assert(a[i] == x);
        } else {
            assert(b[i - a.len()] == x);
        }
    }
    if a.contains(x) {
        let i = choose|i: int| 0 <= i < a.len() && a[i] == x;
        assert((a + b)[i] == x);
    }
    if b.contains(x) {
        let i = choose|i: int| 0 <= i < b.len() && b[i] == x;
        assert((a + b)[a.len() + i] == x);
    }
}

proof fn lemma_offer_stmt_mem(rules: Seq<Rule>, i: int, s: Stmt, d: Diagnostic)
    requires
        0 <= i <= rules.len(),
    ensures
        spec_offer_stmt(rules, i, s).0.contains(d) <==> (exists|j: int|
            i <= j < rules.len() && spec_check_stmt(#[trigger] rules[j], s) is Ok
                && spec_check_stmt(rules[j], s)->Ok_0.contains(d)),
    decreases rules.len() - i,
{
    if i < rules.len() {
        lemma_offer_stmt_mem(rules, i + 1, s, d);
        let rest = spec_offer_stmt(rules, i + 1, s);
        match spec_check_stmt(rules[i], s) {
            Ok(dd) => {
                lemma_contains_cat(dd, rest.0, d);
            },
            Err(_) => {},
        }
    }
}

proof fn lemma_offer_expr_mem(rules: Seq<Rule>, i: int, e: Expr, d: Diagnostic)
    requires
        0 <= i <= rules.len(),
    ensures
        spec_offer_expr(rules, i, e).0.contains(d) <==> (exists|j: int|
            i <= j < rules.len() && spec_check_expr(#[trigger] rules[j], e) is Ok
                && spec_check_expr(rules[j], e)->Ok_0.contains(d)),
    decreases rules.len() - i,
{
    if i < rules.len() {
        lemma_offer_expr_mem(rules, i + 1, e, d);
        let rest = spec_offer_expr(rules, i + 1, e);
        match spec_check_expr(rules[i], e) {
            Ok(dd) => {
                lemma_contains_cat(dd, rest.0, d);
            },
            Err(_) => {},
        }
    }
}

proof fn lemma_offer_comment_mem(rules: Seq<Rule>, i: int, c: Comment, d: Diagnostic)
    requires
        0 <= i <= rules.len(),
    ensures
        spec_offer_comment(rules, i, c).contains(d) <==> (exists|j: int|
            i <= j < rules.len() && spec_check_comment(#[trigger] rules[j], c).contains(d)),
    decreases rules.len() - i,
{
    if i < rules.len() {
        lemma_offer_comment_mem(rules, i + 1, c, d);
        lemma_contains_cat(spec_check_comment(rules[i], c), spec_offer_comment(rules, i + 1, c), d);
    }
}

proof fn lemma_offer_stmt_subset(r1: Seq<Rule>, r2: Seq<Rule>, s: Stmt, d: Diagnostic)
    requires
        subset_rules(r1, r2),
        spec_offer_stmt(r1, 0, s).0.contains(d),
    ensures
        spec_offer_stmt(r2, 0, s).0.contains(d),
{
    lemma_offer_stmt_mem(r1, 0, s, d);
    let j = choose|j: int|
        0 <= j < r1.len() && spec_check_stmt(#[trigger] r1[j], s) is Ok && spec_check_stmt(
            r1[j],
            s,
        )->Ok_0.contains(d);
    assert(r2.contains(r1[j]));
    let k = choose|k: int| 0 <= k < r2.len() && r2[k] == r1[j];
    lemma_offer_stmt_mem(r2, 0, s, d);
    assert(spec_check_stmt(r2[k], s) is Ok && spec_check_stmt(r2[k], s)->Ok_0.contains(d));
}

proof fn lemma_offer_expr_subset(r1: Seq<Rule>, r2: Seq<Rule>, e: Expr, d: Diagnostic)
    requires
        subset_rules(r1, r2),
        spec_offer_expr(r1, 0, e).0.contains(d),
    ensures
        spec_offer_expr(r2, 0, e).0.contains(d),
{
    lemma_offer_expr_mem(r1, 0, e, d);
    let j = choose|j: int|
        0 <= j < r1.len() && spec_check_expr(#[trigger] r1[j], e) is Ok && spec_check_expr(
            r1[j],
            e,
        )->Ok_0.contains(d);
    assert(r2.contains(r1[j]));
    let k = choose|k: int| 0 <= k < r2.len() && r2[k] == r1[j];
    lemma_offer_expr_mem(r2, 0, e, d);
    assert(spec_check_expr(r2[k], e) is Ok && spec_check_expr(r2[k], e)->Ok_0.contains(d));
}

proof fn lemma_offer_comment_subset(r1: Seq<Rule>, r2: Seq<Rule>, c: Comment, d: Diagnostic)
    requires
        subset_rules(r1, r2),
        spec_offer_comment(r1, 0, c).contains(d),
    ensures
        spec_offer_comment(r2, 0, c).contains(d),
{
    lemma_offer_comment_mem(r1, 0, c, d);
    let j = choose|j: int|
        0 <= j < r1.len() && spec_check_comment(#[trigger] r1[j], c).contains(d);
    assert(r2.contains(r1[j]));
    let k = choose|k: int| 0 <= k < r2.len() && r2[k] == r1[j];
    lemma_offer_comment_mem(r2, 0, c, d);
    assert(spec_check_comment(r2[k], c).contains(d));
}

#[verifier::rlimit(100)]
#[verifier::spinoff_prover]
proof fn lemma_walk_expr_subset(r1: Seq<Rule>, r2: Seq<Rule>, e: Expr, d: Diagnostic)
    requires
        subset_rules(r1, r2),
        spec_walk_expr(r1, e).0.contains(d),
    ensures
        spec_walk_expr(r2, e).0.contains(d),
    decreases e, 0int,
{
    let h1 = spec_offer_expr(r1, 0, e);
    let h2 = spec_offer_expr(r2, 0, e);
    match e {
        Expr::This { .. } => {
            lemma_contains_cat(h1.0, Seq::empty(), d);
            lemma_offer_expr_subset(r1, r2, e, d);
            lemma_contains_cat(h2.0, Seq::empty(), d);
        },
        Expr::SuperProp { .. } => {
            lemma_contains_cat(h1.0, Seq::empty(), d);
            lemma_offer_expr_subset(r1, r2, e, d);
            lemma_contains_cat(h2.0, Seq::empty(), d);
        },
        Expr::Ident { .. } => {
            lemma_contains_cat(h1.0, Seq::empty(), d);
            lemma_offer_expr_subset(r1, r2, e, d);
            lemma_contains_cat(h2.0, Seq::empty(), d);
        },
        Expr::Num { .. } => {
            lemma_contains_cat(h1.0, Seq::empty(), d);
            lemma_offer_expr_subset(r1, r2, e, d);
            lemma_contains_cat(h2.0, Seq::empty(), d);
        },
        Expr::Str { .. } => {
            lemma_contains_cat(h1.0, Seq::empty(), d);
            lemma_offer_expr_subset(r1, r2, e, d);
            lemma_contains_cat(h2.0, Seq::empty(), d);
        },
        Expr::Bool { .. } => {
            lemma_contains_cat(h1.0, Seq::empty(), d);
            lemma_offer_expr_subset(r1, r2, e, d);
            lemma_contains_cat(h2.0, Seq::empty(), d);
        },
        Expr::Null { .. } => {
            lemma_contains_cat(h1.0, Seq::empty(), d);
            lemma_offer_expr_subset(r1, r2, e, d);
            lemma_contains_cat(h2.0, Seq::empty(), d);
        },
        Expr::SuperCall { args, .. } => {
            let k1 = spec_walk_exprs(r1, args@, 0);
            lemma_contains_cat(h1.0, k1.0, d);
            if h1.0.contains(d) {
                lemma_offer_expr_subset(r1, r2, e, d);
            } else {
                lemma_walk_exprs_subset(r1, r2, args@, 0, d);
            }
            lemma_contains_cat(h2.0, spec_walk_exprs(r2, args@, 0).0, d);
        },
        Expr::Array { elems, .. } => {
            let k1 = spec_walk_opt_exprs(r1, elems@, 0);
            lemma_contains_cat(h1.0, k1.0, d);
            if h1.0.contains(d) {
                lemma_offer_expr_subset(r1, r2, e, d);
            } else {
                lemma_walk_opt_exprs_subset(r1, r2, elems@, 0, d);
            }
            lemma_contains_cat(h2.0, spec_walk_opt_exprs(r2, elems@, 0).0, d);
        },
        Expr::Unary { arg, .. } => {
            let k1 = spec_walk_expr(r1, *arg);
            lemma_contains_cat(h1.0, k1.0, d);
            if h1.0.contains(d) {
                lemma_offer_expr_subset(r1, r2, e, d);
            } else {
                lemma_walk_expr_subset(r1, r2, *arg, d);
            }
            lemma_contains_cat(h2.0, spec_walk_expr(r2, *arg).0, d);
        },
        Expr::Binary { left, right, .. } => {
            let l1 = spec_walk_expr(r1, *left);
            let g1 = spec_walk_expr(r1, *right);
            lemma_contains_cat(h1.0, l1.0 + g1.0, d);
            lemma_contains_cat(l1.0, g1.0, d);
            if h1.0.contains(d) {
                lemma_offer_expr_subset(r1, r2, e, d);
            } else if l1.0.contains(d) {
                lemma_walk_expr_subset(r1, r2, *left, d);
            } else {
                lemma_walk_expr_subset(r1, r2, *right, d);
            }
            lemma_contains_cat(spec_walk_expr(r2, *left).0, spec_walk_expr(r2, *right).0, d);
            lemma_contains_cat(h2.0, spec_walk_expr(r2, *left).0 + spec_walk_expr(r2, *right).0, d);
        },
        Expr::Assign { target, value, .. } => {
            let l1 = spec_walk_expr(r1, *target);
            let g1 = spec_walk_expr(r1, *value);
            lemma_contains_cat(h1.0, l1.0 + g1.0, d);
            lemma_contains_cat(l1.0, g1.0, d);
            if h1.0.contains(d) {
                lemma_offer_expr_subset(r1, r2, e, d);
            } else if l1.0.contains(d) {
                lemma_walk_expr_subset(r1, r2, *target, d);
            } else {
                lemma_walk_expr_subset(r1, r2, *value, d);
            }
            lemma_contains_cat(spec_walk_expr(r2, *target).0, spec_walk_expr(r2, *value).0, d);
            lemma_contains_cat(h2.0, spec_walk_expr(r2, *target).0 + spec_walk_expr(r2, *value).0, d);
        },
        Expr::Call { callee, args, .. } => {
            let l1 = spec_walk_expr(r1, *callee);
            let g1 = spec_walk_exprs(r1, args@, 0);
            lemma_contains_cat(h1.0, l1.0 + g1.0, d);
            lemma_contains_cat(l1.0, g1.0, d);
            if h1.0.contains(d) {
                lemma_offer_expr_subset(r1, r2, e, d);
            } else if l1.0.contains(d) {
                lemma_walk_expr_subset(r1, r2, *callee, d);
            } else {
                lemma_walk_exprs_subset(r1, r2, args@, 0, d);
            }
            lemma_contains_cat(spec_walk_expr(r2, *callee).0, spec_walk_exprs(r2, args@, 0).0, d);
            lemma_contains_cat(h2.0, spec_walk_expr(r2, *callee).0 + spec_walk_exprs(r2, args@, 0).0, d);
        },
        Expr::Member { obj, .. } => {
            let k1 = spec_walk_expr(r1, *obj);
            lemma_contains_cat(h1.0, k1.0, d);
            if h1.0.contains(d) {
                lemma_offer_expr_subset(r1, r2, e, d);
            } else {
                lemma_walk_expr_subset(r1, r2, *obj, d);
            }
            lemma_contains_cat(h2.0, spec_walk_expr(r2, *obj).0, d);
        },
        Expr::Cond { cond, cons, alt, .. } => {
            let c1 = spec_walk_expr(r1, *cond);
            let s1 = spec_walk_expr(r1, *cons);
            let a1 = spec_walk_expr(r1, *alt);
            lemma_contains_cat(h1.0, c1.0 + (s1.0 + a1.0), d);
            lemma_contains_cat(c1.0, s1.0 + a1.0, d);
            lemma_contains_cat(s1.0, a1.0, d);
            if h1.0.contains(d) {
                lemma_offer_expr_subset(r1, r2, e, d);
            } else if c1.0.contains(d) {
                lemma_walk_expr_subset(r1, r2, *cond, d);
            } else if s1.0.contains(d) {
                lemma_walk_expr_subset(r1, r2, *cons, d);
            } else {
                lemma_walk_expr_subset(r1, r2, *alt, d);
            }
            let c2 = spec_walk_expr(r2, *cond);
            let s2 = spec_walk_expr(r2, *cons);
            let a2 = spec_walk_expr(r2, *alt);
            lemma_contains_cat(s2.0, a2.0, d);
            lemma_contains_cat(c2.0, s2.0 + a2.0, d);
            lemma_contains_cat(h2.0, c2.0 + (s2.0 + a2.0), d);
        },
    }
}

proof fn lemma_walk_exprs_subset(r1: Seq<Rule>, r2: Seq<Rule>, es: Seq<Expr>, i: int, d: Diagnostic)
    requires
        subset_rules(r1, r2),
        spec_walk_exprs(r1, es, i).0.contains(d),
    ensures
        spec_walk_exprs(r2, es, i).0.contains(d),
    decreases es, es.len() - i,
{
    if 0 <= i < es.len() {
        let a1 = spec_walk_expr(r1, es[i]);
        let b1 = spec_walk_exprs(r1, es, i + 1);
        lemma_contains_cat(a1.0, b1.0, d);
        if a1.0.contains(d) {
            lemma_walk_expr_subset(r1, r2, es[i], d);
        } else {
            lemma_walk_exprs_subset(r1, r2, es, i + 1, d);
        }
        lemma_contains_cat(spec_walk_expr(r2, es[i]).0, spec_walk_exprs(r2, es, i + 1).0, d);
    }
}

proof fn lemma_walk_opt_exprs_subset(
    r1: Seq<Rule>,
    r2: Seq<Rule>,
    es: Seq<Option<Expr>>,
    i: int,
    d: Diagnostic,
)
    requires
        subset_rules(r1, r2),
        spec_walk_opt_exprs(r1, es, i).0.contains(d),
    ensures
        spec_walk_opt_exprs(r2, es, i).0.contains(d),
    decreases es, es.len() - i,
{
    if 0 <= i < es.len() {
        let a1 = match es[i] {
            Some(e) => spec_walk_expr(r1, e),
            None => crate::dispatch::pempty(),
        };
        let b1 = spec_walk_opt_exprs(r1, es, i + 1);
        lemma_contains_cat(a1.0, b1.0, d);
        if a1.0.contains(d) {
            match es[i] {
                Some(e) => {
                    lemma_walk_expr_subset(r1, r2, e, d);
                },
                None => {},
            }
        } else {
            lemma_walk_opt_exprs_subset(r1, r2, es, i + 1, d);
        }
        let a2 = match es[i] {
            Some(e) => spec_walk_expr(r2, e),
            None => crate::dispatch::pempty(),
        };
        lemma_contains_cat(a2.0, spec_walk_opt_exprs(r2, es, i + 1).0, d);
    }
}

proof fn lemma_walk_decls_subset(
    r1: Seq<Rule>,
    r2: Seq<Rule>,
    ds: Seq<(Vec<char>, Option<Expr>)>,
    i: int,
    d: Diagnostic,
)
    requires
        subset_rules(r1, r2),
        spec_walk_decls(r1, ds, i).0.contains(d),
    ensures
        spec_walk_decls(r2, ds, i).0.contains(d),
    decreases ds, ds.len() - i,
{
    if 0 <= i < ds.len() {
        let a1 = match ds[i].1 {
            Some(e) => spec_walk_expr(r1, e),
            None => crate::dispatch::pempty(),
        };
        let b1 = spec_walk_decls(r1, ds, i + 1);
        lemma_contains_cat(a1.0, b1.0, d);
        if a1.0.contains(d) {
            match ds[i].1 {
                Some(e) => {
                    lemma_walk_expr_subset(r1, r2, e, d);
                },
                None => {},
            }
        } else {
            lemma_walk_decls_subset(r1, r2, ds, i + 1, d);
        }
        let a2 = match ds[i].1 {
            Some(e) => spec_walk_expr(r2, e),
            None => crate::dispatch::pempty(),
        };
        lemma_contains_cat(a2.0, spec_walk_decls(r2, ds, i + 1).0, d);
    }
}

#[verifier::rlimit(100)]
#[verifier::spinoff_prover]
proof fn lemma_walk_stmt_subset(r1: Seq<Rule>, r2: Seq<Rule>, s: Stmt, d: Diagnostic)
    requires
        subset_rules(r1, r2),
        spec_walk_stmt(r1, s).0.contains(d),
    ensures
        spec_walk_stmt(r2, s).0.contains(d),
    decreases s, 0int,
{
    let h1 = spec_offer_stmt(r1, 0, s);
    let h2 = spec_offer_stmt(r2, 0, s);
    match s {
        Stmt::Expr { expr, .. } => {
            let k1 = spec_walk_expr(r1, expr);
            lemma_contains_cat(h1.0, k1.0, d);
            if h1.0.contains(d) {
                lemma_offer_stmt_subset(r1, r2, s, d);
            } else {
                lemma_walk_expr_subset(r1, r2, expr, d);
            }
            lemma_contains_cat(h2.0, spec_walk_expr(r2, expr).0, d);
        },
        Stmt::VarDecl { decls, .. } => {
            let k1 = spec_walk_decls(r1, decls@, 0);
            lemma_contains_cat(h1.0, k1.0, d);
            if h1.0.contains(d) {
                lemma_offer_stmt_subset(r1, r2, s, d);
            } else {
                lemma_walk_decls_subset(r1, r2, decls@, 0, d);
            }
            lemma_contains_cat(h2.0, spec_walk_decls(r2, decls@, 0).0, d);
        },
        Stmt::If { cond, cons, alt, .. } => {
            let c1 = spec_walk_expr(r1, cond);
            let s1 = spec_walk_stmt(r1, *cons);
            let a1 = match alt {
                Some(a) => spec_walk_stmt(r1, *a),
                None => crate::dispatch::pempty(),
            };
            lemma_contains_cat(h1.0, c1.0 + (s1.0 + a1.0), d);
            lemma_contains_cat(c1.0, s1.0 + a1.0, d);
            lemma_contains_cat(s1.0, a1.0, d);
            if h1.0.contains(d) {
                lemma_offer_stmt_subset(r1, r2, s, d);
            } else if c1.0.contains(d) {
                lemma_walk_expr_subset(r1, r2, cond, d);
            } else if s1.0.contains(d) {
                lemma_walk_stmt_subset(r1, r2, *cons, d);
            } else {
                match alt {
                    Some(a) => {
                        lemma_walk_stmt_subset(r1, r2, *a, d);
                    },
                    None => {},
                }
            }
            let c2 = spec_walk_expr(r2, cond);
            let s2 = spec_walk_stmt(r2, *cons);
            let a2 = match alt {
                Some(a) => spec_walk_stmt(r2, *a),
                None => crate::dispatch::pempty(),
            };
            lemma_contains_cat(s2.0, a2.0, d);
            lemma_contains_cat(c2.0, s2.0 + a2.0, d);
            lemma_contains_cat(h2.0, c2.0 + (s2.0 + a2.0), d);
        },
        Stmt::Block { stmts, .. } => {
            let k1 = spec_walk_stmts(r1, stmts@, 0);
            lemma_contains_cat(h1.0, k1.0, d);
            if h1.0.contains(d) {
                lemma_offer_stmt_subset(r1, r2, s, d);
            } else {
                lemma_walk_stmts_subset(r1, r2, stmts@, 0, d);
            }
            lemma_contains_cat(h2.0, spec_walk_stmts(r2, stmts@, 0).0, d);
        },
        Stmt::While { cond, body, .. } => {
            let c1 = spec_walk_expr(r1, cond);
            let b1 = spec_walk_stmt(r1, *body);
            lemma_contains_cat(h1.0, c1.0 + b1.0, d);
            lemma_contains_cat(c1.0, b1.0, d);
            if h1.0.contains(d) {
                lemma_offer_stmt_subset(r1, r2, s, d);
            } else if c1.0.contains(d) {
                lemma_walk_expr_subset(r1, r2, cond, d);
            } else {
                lemma_walk_stmt_subset(r1, r2, *body, d);
            }
            lemma_contains_cat(spec_walk_expr(r2, cond).0, spec_walk_stmt(r2, *body).0, d);
            lemma_contains_cat(h2.0, spec_walk_expr(r2, cond).0 + spec_walk_stmt(r2, *body).0, d);
        },
        Stmt::Return { arg, .. } => {
            let k1 = match arg {
                Some(e) => spec_walk_expr(r1, e),
                None => crate::dispatch::pempty(),
            };
            lemma_contains_cat(h1.0, k1.0, d);
            if h1.0.contains(d) {
                lemma_offer_stmt_subset(r1, r2, s, d);
            } else {
                match arg {
                    Some(e) => {
                        lemma_walk_expr_subset(r1, r2, e, d);
                    },
                    None => {},
                }
            }
            let k2 = match arg {
                Some(e) => spec_walk_expr(r2, e),
                None => crate::dispatch::pempty(),
            };
            lemma_contains_cat(h2.0, k2.0, d);
        },
        Stmt::Throw { arg, .. } => {
            let k1 = spec_walk_expr(r1, arg);
            lemma_contains_cat(h1.0, k1.0, d);
            if h1.0.contains(d) {
                lemma_offer_stmt_subset(r1, r2, s, d);
            } else {
                lemma_walk_expr_subset(r1, r2, arg, d);
            }
            lemma_contains_cat(h2.0, spec_walk_expr(r2, arg).0, d);
        },
        Stmt::Try { block, catch, finally, .. } => {
            let t1 = spec_walk_stmts(r1, block@, 0);
            let c1 = match catch {
                Some(cs) => spec_walk_stmts(r1, cs@, 0),
                None => crate::dispatch::pempty(),
            };
            let f1 = match finally {
                Some(fs) => spec_walk_stmts(r1, fs@, 0),
                None => crate::dispatch::pempty(),
            };
            lemma_contains_cat(h1.0, t1.0 + (c1.0 + f1.0), d);
            lemma_contains_cat(t1.0, c1.0 + f1.0, d);
            lemma_contains_cat(c1.0, f1.0, d);
            if h1.0.contains(d) {
                lemma_offer_stmt_subset(r1, r2, s, d);
            } else if t1.0.contains(d) {
                lemma_walk_stmts_subset(r1, r2, block@, 0, d);
            } else if c1.0.contains(d) {
                match catch {
                    Some(cs) => {
                        lemma_walk_stmts_subset(r1, r2, cs@, 0, d);
                    },
                    None => {},
                }
            } else {
                match finally {
                    Some(fs) => {
                        lemma_walk_stmts_subset(r1, r2, fs@, 0, d);
                    },
                    None => {},
                }
            }
            let t2 = spec_walk_stmts(r2, block@, 0);
            let c2 = match catch {
                Some(cs) => spec_walk_stmts(r2, cs@, 0),
                None => crate::dispatch::pempty(),
            };
            let f2 = match finally {
                Some(fs) => spec_walk_stmts(r2, fs@, 0),
                None => crate::dispatch::pempty(),
            };
            lemma_contains_cat(c2.0, f2.0, d);
            lemma_contains_cat(t2.0, c2.0 + f2.0, d);
            lemma_contains_cat(h2.0, t2.0 + (c2.0 + f2.0), d);
        },
        Stmt::Switch { disc, cases, .. } => {
            let c1 = spec_walk_expr(r1, disc);
            let k1 = spec_walk_cases(r1, cases@, 0);
            lemma_contains_cat(h1.0, c1.0 + k1.0, d);
            lemma_contains_cat(c1.0, k1.0, d);
            if h1.0.contains(d) {
                lemma_offer_stmt_subset(r1, r2, s, d);
            } else if c1.0.contains(d) {
                lemma_walk_expr_subset(r1, r2, disc, d);
            } else {
                lemma_walk_cases_subset(r1, r2, cases@, 0, d);
            }
            lemma_contains_cat(spec_walk_expr(r2, disc).0, spec_walk_cases(r2, cases@, 0).0, d);
            lemma_contains_cat(h2.0, spec_walk_expr(r2, disc).0 + spec_walk_cases(r2, cases@, 0).0, d);
        },
        Stmt::Debugger { .. } => {
            lemma_contains_cat(h1.0, Seq::empty(), d);
            lemma_offer_stmt_subset(r1, r2, s, d);
            lemma_contains_cat(h2.0, Seq::empty(), d);
        },
        Stmt::With { obj, body, .. } => {
            let c1 = spec_walk_expr(r1, obj);
            let b1 = spec_walk_stmt(r1, *body);
            lemma_contains_cat(h1.0, c1.0 + b1.0, d);
            lemma_contains_cat(c1.0, b1.0, d);
            if h1.0.contains(d) {
                lemma_offer_stmt_subset(r1, r2, s, d);
            } else if c1.0.contains(d) {
                lemma_walk_expr_subset(r1, r2, obj, d);
            } else {
                lemma_walk_stmt_subset(r1, r2, *body, d);
            }
            lemma_contains_cat(spec_walk_expr(r2, obj).0, spec_walk_stmt(r2, *body).0, d);
            lemma_contains_cat(h2.0, spec_walk_expr(r2, obj).0 + spec_walk_stmt(r2, *body).0, d);
        },
        Stmt::Empty { .. } => {
            lemma_contains_cat(h1.0, Seq::empty(), d);
            lemma_offer_stmt_subset(r1, r2, s, d);
            lemma_contains_cat(h2.0, Seq::empty(), d);
        },
        Stmt::Class { class, .. } => {
            let k1 = match class.ctor {
                Some(ctor) => spec_walk_stmts(r1, ctor.body@, 0),
                None => crate::dispatch::pempty(),
            };
            lemma_contains_cat(h1.0, k1.0, d);
            if h1.0.contains(d) {
                lemma_offer_stmt_subset(r1, r2, s, d);
            } else {
                match class.ctor {
                    Some(ctor) => {
                        lemma_walk_stmts_subset(r1, r2, ctor.body@, 0, d);
                    },
                    None => {},
                }
            }
            let k2 = match class.ctor {
                Some(ctor) => spec_walk_stmts(r2, ctor.body@, 0),
                None => crate::dispatch::pempty(),
            };
            lemma_contains_cat(h2.0, k2.0, d);
        },
    }
}

proof fn lemma_walk_cases_subset(
    r1: Seq<Rule>,
    r2: Seq<Rule>,
    cs: Seq<SwitchCase>,
    i: int,
    d: Diagnostic,
)
    requires
        subset_rules(r1, r2),
        spec_walk_cases(r1, cs, i).0.contains(d),
    ensures
        spec_walk_cases(r2, cs, i).0.contains(d),
    decreases cs, cs.len() - i,
{
    if 0 <= i < cs.len() {
        let t1 = match cs[i].test {
            Some(e) => spec_walk_expr(r1, e),
            None => crate::dispatch::pempty(),
        };
        let b1 = spec_walk_stmts(r1, cs[i].body@, 0);
        let rest1 = spec_walk_cases(r1, cs, i + 1);
        lemma_contains_cat(t1.0 + b1.0, rest1.0, d);
        lemma_contains_cat(t1.0, b1.0, d);
        if t1.0.contains(d) {
            match cs[i].test {
                Some(e) => {
                    lemma_walk_expr_subset(r1, r2, e, d);
                },
                None => {},
            }
        } else if b1.0.contains(d) {
            lemma_walk_stmts_subset(r1, r2, cs[i].body@, 0, d);
        } else {
            lemma_walk_cases_subset(r1, r2, cs, i + 1, d);
        }
        let t2 = match cs[i].test {
            Some(e) => spec_walk_expr(r2, e),
            None => crate::dispatch::pempty(),
        };
        let b2 = spec_walk_stmts(r2, cs[i].body@, 0);
        lemma_contains_cat(t2.0, b2.0, d);
        lemma_contains_cat(t2.0 + b2.0, spec_walk_cases(r2, cs, i + 1).0, d);
    }
}

proof fn lemma_walk_stmts_subset(r1: Seq<Rule>, r2: Seq<Rule>, ss: Seq<Stmt>, i: int, d: Diagnostic)
    requires
        subset_rules(r1, r2),
        spec_walk_stmts(r1, ss, i).0.contains(d),
    ensures
        spec_walk_stmts(r2, ss, i).0.contains(d),
    decreases ss, ss.len() - i,
{
    if 0 <= i < ss.len() {
        let a1 = spec_walk_stmt(r1, ss[i]);
        let b1 = spec_walk_stmts(r1, ss, i + 1);
        lemma_contains_cat(a1.0, b1.0, d);
        if a1.0.contains(d) {
            lemma_walk_stmt_subset(r1, r2, ss[i], d);
        } else {
            lemma_walk_stmts_subset(r1, r2, ss, i + 1, d);
        }
        lemma_contains_cat(spec_walk_stmt(r2, ss[i]).0, spec_walk_stmts(r2, ss, i + 1).0, d);
    }
}

proof fn lemma_comment_diags_subset(
    r1: Seq<Rule>,
    r2: Seq<Rule>,
    cs: Seq<Comment>,
    i: int,
    d: Diagnostic,
)
    requires
        subset_rules(r1, r2),
        spec_comment_diags(r1, cs, i).contains(d),
    ensures
        spec_comment_diags(r2, cs, i).contains(d),
    decreases cs.len() - i,
{
    if 0 <= i < cs.len() {
        lemma_contains_cat(spec_offer_comment(r1, 0, cs[i]), spec_comment_diags(r1, cs, i + 1), d);
        if spec_offer_comment(r1, 0, cs[i]).contains(d) {
            lemma_offer_comment_subset(r1, r2, cs[i], d);
        } else {
            lemma_comment_diags_subset(r1, r2, cs, i + 1, d);
        }
        lemma_contains_cat(spec_offer_comment(r2, 0, cs[i]), spec_comment_diags(r2, cs, i + 1), d);
    }
}

/// Every diagnostic of the raw run of `r1` is in the raw run of `r2`
/// whenever every rule of `r1` is in `r2`.
pub proof fn lemma_raw_diags_subset(m: Module, r1: Seq<Rule>, r2: Seq<Rule>, d: Diagnostic)
    requires
        subset_rules(r1, r2),
        spec_raw_diags(m, r1).contains(d),
    ensures
        spec_raw_diags(m, r2).contains(d),
{
    lemma_contains_cat(spec_dispatch(r1, m).0, spec_comment_diags(r1, m.comments@, 0), d);
    if spec_dispatch(r1, m).0.contains(d) {
        lemma_walk_stmts_subset(r1, r2, m.stmts@, 0, d);
    } else {
        lemma_comment_diags_subset(r1, r2, m.comments@, 0, d);
    }
    lemma_contains_cat(spec_dispatch(r2, m).0, spec_comment_diags(r2, m.comments@, 0), d);
}

proof fn lemma_filter_contains(
    ds: Seq<Diagnostic>,
    dms: Seq<DirectiveModel>,
    starts: Seq<u32>,
    i: int,
    d: Diagnostic,
)
    requires
        0 <= i <= ds.len(),
    ensures
        spec_filter(ds, dms, starts, i).contains(d) <==> ((exists|j: int|
            i <= j < ds.len() && ds[j] == d) && !spec_suppressed(d, dms, starts)),
    decreases ds.len() - i,
{
    if i < ds.len() {
        lemma_filter_contains(ds, dms, starts, i + 1, d);
        if !spec_suppressed(ds[i], dms, starts) {
            lemma_contains_cat(seq![ds[i]], spec_filter(ds, dms, starts, i + 1), d);
            if seq![ds[i]].contains(d) {
                assert(seq![ds[i]][0] == ds[i]);
                assert(ds[i] == d);
            }
        }
        if (exists|j: int| i <= j < ds.len() && ds[j] == d) && !spec_suppressed(d, dms, starts) {
            let j = choose|j: int| i <= j < ds.len() && ds[j] == d;
            if j == i {
                assert(ds[i] == d);
                if !spec_suppressed(ds[i], dms, starts) {
                    assert(seq![ds[i]][0] == d);
                    assert(seq![ds[i]].contains(d));
                }
            } else {
                assert(i + 1 <= j < ds.len() && ds[j] == d);
            }
        }
        if spec_filter(ds, dms, starts, i).contains(d) {
            if spec_suppressed(ds[i], dms, starts) {
                let j = choose|j: int| i + 1 <= j < ds.len() && ds[j] == d;
                assert(i <= j < ds.len() && ds[j] == d);
            } else {
                if seq![ds[i]].contains(d) {
                    assert(ds[i] == d);
                } else {
                    let j = choose|j: int| i + 1 <= j < ds.len() && ds[j] == d;
                    assert(i <= j < ds.len() && ds[j] == d);
                }
            }
        }
    }
}

/// The law of the rule collections: on any module, every diagnostic of the
/// recommended collection's run also appears when the full collection runs,
/// both before and after suppression filtering.
pub proof fn lemma_all_collection_superset(m: Module, d: Diagnostic)
    requires
        spec_lint_diags(m, spec_recommended_rules()).contains(d),
    ensures
        spec_lint_diags(m, spec_all_rules()).contains(d),
{
    let rec = spec_recommended_rules();
    let all = spec_all_rules();
    assert(all[0] == Rule::BanUntaggedIgnore);
    assert(all[2] == Rule::ConstructorSuper);
    assert(all[4] == Rule::NoCompareNegZero);
    assert(all[5] == Rule::NoDebugger);
    assert(all[6] == Rule::NoDeleteVar);
    assert(all[8] == Rule::NoOctal);
    assert(all[12] == Rule::NoWith);
    assert forall|i: int| 0 <= i < rec.len() implies all.contains(#[trigger] rec[i]) by {
        if i == 0 {
            assert(all[0] == rec[0]);
        } else if i == 1 {
            assert(all[2] == rec[1]);
        } else if i == 2 {
            assert(all[4] == rec[2]);
        } else if i == 3 {
            assert(all[5] == rec[3]);
        } else if i == 4 {
            assert(all[6] == rec[4]);
        } else if i == 5 {
            assert(all[8] == rec[5]);
        } else {
            assert(all[12] == rec[6]);
        }
    }
    let dms = spec_directives(m.comments@, m.line_starts@, 0);
    lemma_filter_contains(spec_raw_diags(m, rec), dms, m.line_starts@, 0, d);
    lemma_raw_diags_subset(m, rec, all, d);
    lemma_filter_contains(spec_raw_diags(m, all), dms, m.line_starts@, 0, d);
}

/// The isolation law: whatever one rule of the collection reports — even
/// while any other rule faults on some node of the same walk — appears in
/// the collection's raw run.
pub proof fn lemma_rule_isolation(m: Module, rules: Seq<Rule>, k: int, d: Diagnostic)
    requires
        0 <= k < rules.len(),
        spec_raw_diags(m, seq![rules[k]]).contains(d),
    ensures
        spec_raw_diags(m, rules).contains(d),
{
    let single = seq![rules[k]];
    assert forall|i: int| 0 <= i < single.len() implies rules.contains(#[trigger] single[i]) by {
        assert(single[0] == rules[k]);
    }
    lemma_raw_diags_subset(m, single, rules, d);
}

proof fn lemma_filter_no_dirs(
    ds: Seq<Diagnostic>,
    dms: Seq<DirectiveModel>,
    starts: Seq<u32>,
    i: int,
)
    requires
        0 <= i <= ds.len(),
        dms.len() == 0,
    ensures
        spec_filter(ds, dms, starts, i) == ds.subrange(i, ds.len() as int),
    decreases ds.len() - i,
{
    if i < ds.len() {
        lemma_filter_no_dirs(ds, dms, starts, i + 1);
        assert(spec_filter(ds, dms, starts, i) =~= ds.subrange(i, ds.len() as int));
    } else {
        assert(spec_filter(ds, dms, starts, i) =~= ds.subrange(i, ds.len() as int));
    }
}

proof fn lemma_no_directive_comments(cs: Seq<Comment>, starts: Seq<u32>, i: int)
    requires
        0 <= i <= cs.len(),
        forall|j: int| 0 <= j < cs.len() ==> !spec_is_directive(#[trigger] cs[j].text@),
    ensures
        spec_directives(cs, starts, i) == Seq::<DirectiveModel>::empty(),
    decreases cs.len() - i,
{
    if i < cs.len() {
        lemma_no_directive_comments(cs, starts, i + 1);
    }
}

/// The no-suppression law: on a module none of whose comments is a
/// suppression directive, the filtered diagnostic list is exactly the raw
/// diagnostic list.
pub proof fn lemma_no_directives_filter_is_identity(m: Module, rules: Seq<Rule>)
    requires
        forall|j: int| 0 <= j < m.comments@.len() ==> !spec_is_directive(#[trigger] m.comments@[j].text@),
    ensures
        spec_lint_diags(m, rules) == spec_raw_diags(m, rules),
{
    lemma_no_directive_comments(m.comments@, m.line_starts@, 0);
    let raw = spec_raw_diags(m, rules);
    lemma_filter_no_dirs(raw, spec_directives(m.comments@, m.line_starts@, 0), m.line_starts@, 0);
    assert(raw.subrange(0, raw.len() as int) =~= raw);
}

/// A comment that is a bare blanket suppression directive without the
/// allow-blanket tag.
pub open spec fn is_untagged_blanket(c: Comment) -> bool {
    &&& spec_is_directive(c.text@)
    &&& !crate::suppress::spec_directive_scan(c.text@).1
    &&& !crate::suppress::spec_directive_scan(c.text@).2
}

/// How many comments from index `i` on are untagged blanket directives.
pub open spec fn count_untagged_blanket(cs: Seq<Comment>, i: int) -> int
    decreases cs.len() - i,
{
    if i < 0 || i >= cs.len() {
        0
    } else {
        (if is_untagged_blanket(cs[i]) {
            1int
        } else {
            0int
        }) + count_untagged_blanket(cs, i + 1)
    }
}

/// The untagged-ignore ban's yield: running the rule over the comment list
/// produces exactly one diagnostic per untagged blanket directive.
pub proof fn lemma_ban_untagged_ignore_count(cs: Seq<Comment>, i: int)
    requires
        0 <= i <= cs.len(),
    ensures
        spec_comment_diags(seq![Rule::BanUntaggedIgnore], cs, i).len() == count_untagged_blanket(
            cs,
            i,
        ),
    decreases cs.len() - i,
{
    if i < cs.len() {
        lemma_ban_untagged_ignore_count(cs, i + 1);
        let single = seq![Rule::BanUntaggedIgnore];
        assert(spec_offer_comment(single, 1, cs[i]) =~= Seq::<Diagnostic>::empty());
        assert(spec_offer_comment(single, 0, cs[i]) =~= spec_check_comment(
            Rule::BanUntaggedIgnore,
            cs[i],
        ) + Seq::<Diagnostic>::empty());
    }
}

/// The self-suppression exemption: a directive written on the same line as
/// a ban-rule diagnostic never suppresses it, so a malformed directive
/// cannot silence its own violation.
pub proof fn lemma_ban_diag_not_self_suppressed(
    d: Diagnostic,
    dm: DirectiveModel,
    starts: Seq<u32>,
)
    requires
        is_ban_code(d.code),
        dm.comment_line == spec_line_of(starts, d.span.start),
    ensures
        !spec_matches(dm, d, starts),
{
}

/// Determinism: the pipeline's output is a function of the module and the
/// collection alone, so two runs on identical input are identical.
pub proof fn lemma_pipeline_deterministic(
    m: Module,
    rules: Seq<Rule>,
    d1: Seq<Diagnostic>,
    f1: Seq<crate::diag::Fault>,
    d2: Seq<Diagnostic>,
    f2: Seq<crate::diag::Fault>,
)
    requires
        d1 == spec_lint_diags(m, rules),
        f1 == spec_lint_faults(m, rules),
        d2 == spec_lint_diags(m, rules),
        f2 == spec_lint_faults(m, rules),
    ensures
        d1 == d2,
        f1 == f2,
{
}

} // verus!
