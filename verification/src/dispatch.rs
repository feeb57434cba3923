//! The dispatch engine: one pre-order traversal of a module's tree, offering
//! every node to every active rule in collection order, and one pass over
//! the comment list for the comment rules.
//!
//! Each rule invocation is isolated: a fault becomes a record in the fault
//! list and the traversal continues with the next rule and the next node.

use vstd::prelude::*;
use crate::ast::{Comment, Expr, Module, Stmt, SwitchCase};
use crate::diag::{Diagnostic, Fault};
use crate::rules::{spec_check_comment, spec_check_expr, spec_check_stmt, Rule};

verus! {

/// A pair of diagnostic and fault sequences.
pub open spec fn pempty() -> (Seq<Diagnostic>, Seq<Fault>) {
    (Seq::empty(), Seq::empty())
}

pub open spec fn pcat(a: (Seq<Diagnostic>, Seq<Fault>), b: (Seq<Diagnostic>, Seq<Fault>)) -> (
    Seq<Diagnostic>,
    Seq<Fault>,
) {
    (a.0 + b.0, a.1 + b.1)
}

/// Offer statement `s` to the rules from index `i` on, in order.
pub open spec fn spec_offer_stmt(rules: Seq<Rule>, i: int, s: Stmt) -> (
    Seq<Diagnostic>,
    Seq<Fault>,
)
    decreases rules.len() - i,
{
    if i < 0 || i >= rules.len() {
        pempty()
    } else {
        let rest = spec_offer_stmt(rules, i + 1, s);
        match spec_check_stmt(rules[i], s) {
            Ok(d) => (d + rest.0, rest.1),
            Err(f) => (rest.0, seq![f] + rest.1),
        }
    }
}

/// Offer expression `e` to the rules from index `i` on, in order.
pub open spec fn spec_offer_expr(rules: Seq<Rule>, i: int, e: Expr) -> (
    Seq<Diagnostic>,
    Seq<Fault>,
)
    decreases rules.len() - i,
{
    if i < 0 || i >= rules.len() {
        pempty()
    } else {
        let rest = spec_offer_expr(rules, i + 1, e);
        match spec_check_expr(rules[i], e) {
            Ok(d) => (d + rest.0, rest.1),
            Err(f) => (rest.0, seq![f] + rest.1),
        }
    }
}

/// Offer comment `c` to the rules from index `i` on, in order.
pub open spec fn spec_offer_comment(rules: Seq<Rule>, i: int, c: Comment) -> Seq<Diagnostic>
    decreases rules.len() - i,
{
    if i < 0 || i >= rules.len() {
        Seq::empty()
    } else {
        spec_check_comment(rules[i], c) + spec_offer_comment(rules, i + 1, c)
    }
}

/// Pre-order walk of one expression: the node itself, then its children in
/// source order.
pub open spec fn spec_walk_expr(rules: Seq<Rule>, e: Expr) -> (Seq<Diagnostic>, Seq<Fault>)
    decreases e, 0int,
{
    let here = spec_offer_expr(rules, 0, e);
    let kids = match e {
        Expr::This { .. } => pempty(),
        Expr::SuperProp { .. } => pempty(),
        Expr::Ident { .. } => pempty(),
        Expr::Num { .. } => pempty(),
        Expr::Str { .. } => pempty(),
        Expr::Bool { .. } => pempty(),
        Expr::Null { .. } => pempty(),
        Expr::SuperCall { args, .. } => spec_walk_exprs(rules, args@, 0),
        Expr::Array { elems, .. } => spec_walk_opt_exprs(rules, elems@, 0),
        Expr::Unary { arg, .. } => spec_walk_expr(rules, *arg),
        Expr::Binary { left, right, .. } => pcat(
            spec_walk_expr(rules, *left),
            spec_walk_expr(rules, *right),
        ),
        Expr::Assign { target, value, .. } => pcat(
            spec_walk_expr(rules, *target),
            spec_walk_expr(rules, *value),
        ),
        Expr::Call { callee, args, .. } => pcat(
            spec_walk_expr(rules, *callee),
            spec_walk_exprs(rules, args@, 0),
        ),
        Expr::Member { obj, .. } => spec_walk_expr(rules, *obj),
        Expr::Cond { cond, cons, alt, .. } => pcat(
            spec_walk_expr(rules, *cond),
            pcat(spec_walk_expr(rules, *cons), spec_walk_expr(rules, *alt)),
        ),
    };
    pcat(here, kids)
}

pub open spec fn spec_walk_exprs(rules: Seq<Rule>, es: Seq<Expr>, i: int) -> (
    Seq<Diagnostic>,
    Seq<Fault>,
)
    decreases es, es.len() - i,
{
    if i < 0 || i >= es.len() {
        pempty()
    } else {
        pcat(spec_walk_expr(rules, es[i]), spec_walk_exprs(rules, es, i + 1))
    }
}

pub open spec fn spec_walk_opt_exprs(rules: Seq<Rule>, es: Seq<Option<Expr>>, i: int) -> (
    Seq<Diagnostic>,
    Seq<Fault>,
)
    decreases es, es.len() - i,
{
    if i < 0 || i >= es.len() {
        pempty()
    } else {
        let here = match es[i] {
            Some(e) => spec_walk_expr(rules, e),
            None => pempty(),
        };
        pcat(here, spec_walk_opt_exprs(rules, es, i + 1))
    }
}

pub open spec fn spec_walk_decls(rules: Seq<Rule>, ds: Seq<(Vec<char>, Option<Expr>)>, i: int)
    -> (Seq<Diagnostic>, Seq<Fault>)
    decreases ds, ds.len() - i,
{
    if i < 0 || i >= ds.len() {
        pempty()
    } else {
        let here = match ds[i].1 {
            Some(e) => spec_walk_expr(rules, e),
            None => pempty(),
        };
        pcat(here, spec_walk_decls(rules, ds, i + 1))
    }
}

/// Pre-order walk of one statement: the node itself, then its children in
/// source order.
pub open spec fn spec_walk_stmt(rules: Seq<Rule>, s: Stmt) -> (Seq<Diagnostic>, Seq<Fault>)
    decreases s, 0int,
{
    let here = spec_offer_stmt(rules, 0, s);
    let kids = match s {
        Stmt::Expr { expr, .. } => spec_walk_expr(rules, expr),
        Stmt::VarDecl { decls, .. } => spec_walk_decls(rules, decls@, 0),
        Stmt::If { cond, cons, alt, .. } => pcat(
            spec_walk_expr(rules, cond),
            pcat(
                spec_walk_stmt(rules, *cons),
                match alt {
                    Some(a) => spec_walk_stmt(rules, *a),
                    None => pempty(),
                },
            ),
        ),
        Stmt::Block { stmts, .. } => spec_walk_stmts(rules, stmts@, 0),
        Stmt::While { cond, body, .. } => pcat(
            spec_walk_expr(rules, cond),
            spec_walk_stmt(rules, *body),
        ),
        Stmt::Return { arg, .. } => match arg {
            Some(e) => spec_walk_expr(rules, e),
            None => pempty(),
        },
        Stmt::Throw { arg, .. } => spec_walk_expr(rules, arg),
        Stmt::Try { block, catch, finally, .. } => pcat(
            spec_walk_stmts(rules, block@, 0),
            pcat(
                match catch {
                    Some(cs) => spec_walk_stmts(rules, cs@, 0),
                    None => pempty(),
                },
                match finally {
                    Some(fs) => spec_walk_stmts(rules, fs@, 0),
                    None => pempty(),
                },
            ),
        ),
        Stmt::Switch { disc, cases, .. } => pcat(
            spec_walk_expr(rules, disc),
            spec_walk_cases(rules, cases@, 0),
        ),
        Stmt::Debugger { .. } => pempty(),
        Stmt::With { obj, body, .. } => pcat(
            spec_walk_expr(rules, obj),
            spec_walk_stmt(rules, *body),
        ),
        Stmt::Empty { .. } => pempty(),
        Stmt::Class { class, .. } => match class.ctor {
            Some(ctor) => spec_walk_stmts(rules, ctor.body@, 0),
            None => pempty(),
        },
    };
    pcat(here, kids)
}

/// The case arms of a `switch`, in source order: each test expression, then
/// each body.
pub open spec fn spec_walk_cases(rules: Seq<Rule>, cs: Seq<SwitchCase>, i: int) -> (
    Seq<Diagnostic>,
    Seq<Fault>,
)
    decreases cs, cs.len() - i,
{
    if i < 0 || i >= cs.len() {
        pempty()
    } else {
        let here = pcat(
            match cs[i].test {
                Some(e) => spec_walk_expr(rules, e),
                None => pempty(),
            },
            spec_walk_stmts(rules, cs[i].body@, 0),
        );
        pcat(here, spec_walk_cases(rules, cs, i + 1))
    }
}

pub open spec fn spec_walk_stmts(rules: Seq<Rule>, ss: Seq<Stmt>, i: int) -> (
    Seq<Diagnostic>,
    Seq<Fault>,
)
    decreases ss, ss.len() - i,
{
    if i < 0 || i >= ss.len() {
        pempty()
    } else {
        pcat(spec_walk_stmt(rules, ss[i]), spec_walk_stmts(rules, ss, i + 1))
    }
}

/// The whole walk of one module's statements.
pub open spec fn spec_dispatch(rules: Seq<Rule>, m: Module) -> (Seq<Diagnostic>, Seq<Fault>) {
    spec_walk_stmts(rules, m.stmts@, 0)
}

/// The comment pass: every comment offered to every rule, in order.
pub open spec fn spec_comment_diags(rules: Seq<Rule>, cs: Seq<Comment>, i: int) -> Seq<
    Diagnostic,
>
    decreases cs.len() - i,
{
    if i < 0 || i >= cs.len() {
        Seq::empty()
    } else {
        spec_offer_comment(rules, 0, cs[i]) + spec_comment_diags(rules, cs, i + 1)
    }
}

fn offer_stmt(
    rules: &Vec<Rule>,
    i: usize,
    s: &Stmt,
    diags: &mut Vec<Diagnostic>,
    faults: &mut Vec<Fault>,
)
    requires
        i <= rules@.len(),
    ensures
        ({
            let sp = spec_offer_stmt(rules@, i as int, *s);
            final(diags)@ == old(diags)@ + sp.0 && final(faults)@ == old(faults)@ + sp.1
        }),
    decreases rules@.len() - i,
{
    if i == rules.len() {
        proof {
            assert(diags@ =~= old(diags)@ + spec_offer_stmt(rules@, i as int, *s).0);
            assert(faults@ =~= old(faults)@ + spec_offer_stmt(rules@, i as int, *s).1);
        }
        return ;
    }
    match rules[i].check_stmt(s) {
        Ok(mut v) => {
            diags.append(&mut v);
        },
        Err(f) => {
            faults.push(f);
        },
    }
    offer_stmt(rules, i + 1, s, diags, faults);
    proof {
        assert(diags@ =~= old(diags)@ + spec_offer_stmt(rules@, i as int, *s).0);
        assert(faults@ =~= old(faults)@ + spec_offer_stmt(rules@, i as int, *s).1);
    }
}

fn offer_expr(
    rules: &Vec<Rule>,
    i: usize,
    e: &Expr,
    diags: &mut Vec<Diagnostic>,
    faults: &mut Vec<Fault>,
)
    requires
        i <= rules@.len(),
    ensures
        ({
            let sp = spec_offer_expr(rules@, i as int, *e);
            final(diags)@ == old(diags)@ + sp.0 && final(faults)@ == old(faults)@ + sp.1
        }),
    decreases rules@.len() - i,
{
    if i == rules.len() {
        proof {
            assert(diags@ =~= old(diags)@ + spec_offer_expr(rules@, i as int, *e).0);
            assert(faults@ =~= old(faults)@ + spec_offer_expr(rules@, i as int, *e).1);
        }
        return ;
    }
    match rules[i].check_expr(e) {
        Ok(mut v) => {
            diags.append(&mut v);
        },
        Err(f) => {
            faults.push(f);
        },
    }
    offer_expr(rules, i + 1, e, diags, faults);
    proof {
        assert(diags@ =~= old(diags)@ + spec_offer_expr(rules@, i as int, *e).0);
        assert(faults@ =~= old(faults)@ + spec_offer_expr(rules@, i as int, *e).1);
    }
}

fn offer_comment(rules: &Vec<Rule>, i: usize, c: &Comment, diags: &mut Vec<Diagnostic>)
    requires
        i <= rules@.len(),
    ensures
        final(diags)@ == old(diags)@ + spec_offer_comment(rules@, i as int, *c),
    decreases rules@.len() - i,
{
    if i == rules.len() {
        proof {
            assert(diags@ =~= old(diags)@ + spec_offer_comment(rules@, i as int, *c));
        }
        return ;
    }
    let mut v = rules[i].check_comment(c);
    diags.append(&mut v);
    offer_comment(rules, i + 1, c, diags);
    proof {
        assert(diags@ =~= old(diags)@ + spec_offer_comment(rules@, i as int, *c));
    }
}

#[verifier::rlimit(60)]
#[verifier::spinoff_prover]
fn walk_expr(rules: &Vec<Rule>, e: &Expr, diags: &mut Vec<Diagnostic>, faults: &mut Vec<Fault>)
    ensures
        ({
            let sp = spec_walk_expr(rules@, *e);
            final(diags)@ == old(diags)@ + sp.0 && final(faults)@ == old(faults)@ + sp.1
        }),
    decreases *e, 0int,
{
    offer_expr(rules, 0, e, diags, faults);
    match e {
        Expr::This { .. } => {},
        Expr::SuperProp { .. } => {},
        Expr::Ident { .. } => {},
        Expr::Num { .. } => {},
        Expr::Str { .. } => {},
        Expr::Bool { .. } => {},
        Expr::Null { .. } => {},
        Expr::SuperCall { args, .. } => {
            walk_exprs(rules, args, 0, diags, faults);
        },
        Expr::Array { elems, .. } => {
            walk_opt_exprs(rules, elems, 0, diags, faults);
        },
        Expr::Unary { arg, .. } => {
            walk_expr(rules, arg, diags, faults);
        },
        Expr::Binary { left, right, .. } => {
            walk_expr(rules, left, diags, faults);
            walk_expr(rules, right, diags, faults);
        },
        Expr::Assign { target, value, .. } => {
            walk_expr(rules, target, diags, faults);
            walk_expr(rules, value, diags, faults);
        },
        Expr::Call { callee, args, .. } => {
            walk_expr(rules, callee, diags, faults);
            walk_exprs(rules, args, 0, diags, faults);
        },
        Expr::Member { obj, .. } => {
            walk_expr(rules, obj, diags, faults);
        },
        Expr::Cond { cond, cons, alt, .. } => {
            walk_expr(rules, cond, diags, faults);
            walk_expr(rules, cons, diags, faults);
            walk_expr(rules, alt, diags, faults);
        },
    }
    proof {
        assert(diags@ =~= old(diags)@ + spec_walk_expr(rules@, *e).0);
        assert(faults@ =~= old(faults)@ + spec_walk_expr(rules@, *e).1);
    }
}

fn walk_exprs(
    rules: &Vec<Rule>,
    es: &Vec<Expr>,
    i: usize,
    diags: &mut Vec<Diagnostic>,
    faults: &mut Vec<Fault>,
)
    requires
        i <= es@.len(),
    ensures
        ({
            let sp = spec_walk_exprs(rules@, es@, i as int);
            final(diags)@ == old(diags)@ + sp.0 && final(faults)@ == old(faults)@ + sp.1
        }),
    decreases es@, es@.len() - i,
{
    if i < es.len() {
        walk_expr(rules, &es[i], diags, faults);
        walk_exprs(rules, es, i + 1, diags, faults);
    }
    proof {
        assert(diags@ =~= old(diags)@ + spec_walk_exprs(rules@, es@, i as int).0);
        assert(faults@ =~= old(faults)@ + spec_walk_exprs(rules@, es@, i as int).1);
    }
}

fn walk_opt_exprs(
    rules: &Vec<Rule>,
    es: &Vec<Option<Expr>>,
    i: usize,
    diags: &mut Vec<Diagnostic>,
    faults: &mut Vec<Fault>,
)
    requires
        i <= es@.len(),
    ensures
        ({
            let sp = spec_walk_opt_exprs(rules@, es@, i as int);
            final(diags)@ == old(diags)@ + sp.0 && final(faults)@ == old(faults)@ + sp.1
        }),
    decreases es@, es@.len() - i,
{
    if i < es.len() {
        match &es[i] {
            Some(e) => {
                walk_expr(rules, e, diags, faults);
            },
            None => {},
        }
        walk_opt_exprs(rules, es, i + 1, diags, faults);
    }
    proof {
        assert(diags@ =~= old(diags)@ + spec_walk_opt_exprs(rules@, es@, i as int).0);
        assert(faults@ =~= old(faults)@ + spec_walk_opt_exprs(rules@, es@, i as int).1);
    }
}

fn walk_decls(
    rules: &Vec<Rule>,
    ds: &Vec<(Vec<char>, Option<Expr>)>,
    i: usize,
    diags: &mut Vec<Diagnostic>,
    faults: &mut Vec<Fault>,
)
    requires
        i <= ds@.len(),
    ensures
        ({
            let sp = spec_walk_decls(rules@, ds@, i as int);
            final(diags)@ == old(diags)@ + sp.0 && final(faults)@ == old(faults)@ + sp.1
        }),
    decreases ds@, ds@.len() - i,
{
    if i < ds.len() {
        match &ds[i].1 {
            Some(e) => {
                walk_expr(rules, e, diags, faults);
            },
            None => {},
        }
        walk_decls(rules, ds, i + 1, diags, faults);
    }
    proof {
        assert(diags@ =~= old(diags)@ + spec_walk_decls(rules@, ds@, i as int).0);
        assert(faults@ =~= old(faults)@ + spec_walk_decls(rules@, ds@, i as int).1);
    }
}

#[verifier::rlimit(60)]
#[verifier::spinoff_prover]
fn walk_stmt(rules: &Vec<Rule>, s: &Stmt, diags: &mut Vec<Diagnostic>, faults: &mut Vec<Fault>)
    ensures
        ({
            let sp = spec_walk_stmt(rules@, *s);
            final(diags)@ == old(diags)@ + sp.0 && final(faults)@ == old(faults)@ + sp.1
        }),
    decreases *s, 1int,
{
    match s {
        Stmt::If { .. } => {
            walk_stmt_branching(rules, s, diags, faults);
            return ;
        },
        Stmt::While { .. } => {
            walk_stmt_branching(rules, s, diags, faults);
            return ;
        },
        Stmt::Try { .. } => {
            walk_stmt_branching(rules, s, diags, faults);
            return ;
        },
        Stmt::With { .. } => {
            walk_stmt_branching(rules, s, diags, faults);
            return ;
        },
        Stmt::Switch { .. } => {
            walk_stmt_branching(rules, s, diags, faults);
            return ;
        },
        _ => {},
    }
    offer_stmt(rules, 0, s, diags, faults);
    match s {
        Stmt::Expr { expr, .. } => {
            walk_expr(rules, expr, diags, faults);
        },
        Stmt::VarDecl { decls, .. } => {
            walk_decls(rules, decls, 0, diags, faults);
        },
        Stmt::Block { stmts, .. } => {
            walk_stmts(rules, stmts, 0, diags, faults);
        },
        Stmt::Return { arg, .. } => {
            match arg {
                Some(e) => {
                    walk_expr(rules, e, diags, faults);
                },
                None => {},
            }
        },
        Stmt::Throw { arg, .. } => {
            walk_expr(rules, arg, diags, faults);
        },
        Stmt::Debugger { .. } => {},
        Stmt::Empty { .. } => {},
        Stmt::Class { class, .. } => {
            match &class.ctor {
                Some(ctor) => {
                    walk_stmts(rules, &ctor.body, 0, diags, faults);
                },
                None => {},
            }
        },
        _ => {},
    }
    proof {
        assert(diags@ =~= old(diags)@ + spec_walk_stmt(rules@, *s).0);
        assert(faults@ =~= old(faults)@ + spec_walk_stmt(rules@, *s).1);
    }
}

/// The statement forms with several children, split out so each prover
/// query stays small.
#[verifier::rlimit(100)]
#[verifier::spinoff_prover]
fn walk_stmt_branching(
    rules: &Vec<Rule>,
    s: &Stmt,
    diags: &mut Vec<Diagnostic>,
    faults: &mut Vec<Fault>,
)
    requires
        (matches!(s, Stmt::If { .. }) || matches!(s, Stmt::While { .. }) || matches!(
            s,
            Stmt::Try { .. },
        ) || matches!(s, Stmt::With { .. }) || matches!(s, Stmt::Switch { .. })),
    ensures
        ({
            let sp = spec_walk_stmt(rules@, *s);
            final(diags)@ == old(diags)@ + sp.0 && final(faults)@ == old(faults)@ + sp.1
        }),
    decreases *s, 0int,
{
    offer_stmt(rules, 0, s, diags, faults);
    match s {
        Stmt::If { cond, cons, alt, .. } => {
            walk_expr(rules, cond, diags, faults);
            walk_stmt(rules, cons, diags, faults);
            match alt {
                Some(a) => {
                    walk_stmt(rules, a, diags, faults);
                },
                None => {},
            }
        },
        Stmt::While { cond, body, .. } => {
            walk_expr(rules, cond, diags, faults);
            walk_stmt(rules, body, diags, faults);
        },
        Stmt::Try { block, catch, finally, .. } => {
            walk_stmts(rules, block, 0, diags, faults);
            match catch {
                Some(cs) => {
                    walk_stmts(rules, cs, 0, diags, faults);
                },
                None => {},
            }
            match finally {
                Some(fs) => {
                    walk_stmts(rules, fs, 0, diags, faults);
                },
                None => {},
            }
        },
        Stmt::With { obj, body, .. } => {
            walk_expr(rules, obj, diags, faults);
            walk_stmt(rules, body, diags, faults);
        },
        Stmt::Switch { disc, cases, .. } => {
            walk_expr(rules, disc, diags, faults);
            walk_cases(rules, cases, 0, diags, faults);
        },
        _ => {},
    }
    proof {
        assert(diags@ =~= old(diags)@ + spec_walk_stmt(rules@, *s).0);
        assert(faults@ =~= old(faults)@ + spec_walk_stmt(rules@, *s).1);
    }
}

fn walk_cases(
    rules: &Vec<Rule>,
    cs: &Vec<SwitchCase>,
    i: usize,
    diags: &mut Vec<Diagnostic>,
    faults: &mut Vec<Fault>,
)
    requires
        i <= cs@.len(),
    ensures
        ({
            let sp = spec_walk_cases(rules@, cs@, i as int);
            final(diags)@ == old(diags)@ + sp.0 && final(faults)@ == old(faults)@ + sp.1
        }),
    decreases cs@, cs@.len() - i,
{
    if i < cs.len() {
        match &cs[i].test {
            Some(e) => {
                walk_expr(rules, e, diags, faults);
            },
            None => {},
        }
        walk_stmts(rules, &cs[i].body, 0, diags, faults);
        walk_cases(rules, cs, i + 1, diags, faults);
    }
    proof {
        assert(diags@ =~= old(diags)@ + spec_walk_cases(rules@, cs@, i as int).0);
        assert(faults@ =~= old(faults)@ + spec_walk_cases(rules@, cs@, i as int).1);
    }
}

fn walk_stmts(
    rules: &Vec<Rule>,
    ss: &Vec<Stmt>,
    i: usize,
    diags: &mut Vec<Diagnostic>,
    faults: &mut Vec<Fault>,
)
    requires
        i <= ss@.len(),
    ensures
        ({
            let sp = spec_walk_stmts(rules@, ss@, i as int);
            final(diags)@ == old(diags)@ + sp.0 && final(faults)@ == old(faults)@ + sp.1
        }),
    decreases ss@, ss@.len() - i,
{
    if i < ss.len() {
        walk_stmt(rules, &ss[i], diags, faults);
        walk_stmts(rules, ss, i + 1, diags, faults);
    }
    proof {
        assert(diags@ =~= old(diags)@ + spec_walk_stmts(rules@, ss@, i as int).0);
        assert(faults@ =~= old(faults)@ + spec_walk_stmts(rules@, ss@, i as int).1);
    }
}

fn comment_pass(rules: &Vec<Rule>, cs: &Vec<Comment>, i: usize, diags: &mut Vec<Diagnostic>)
    requires
        i <= cs@.len(),
    ensures
        final(diags)@ == old(diags)@ + spec_comment_diags(rules@, cs@, i as int),
    decreases cs@.len() - i,
{
    if i < cs.len() {
        offer_comment(rules, 0, &cs[i], diags);
        comment_pass(rules, cs, i + 1, diags);
    }
    proof {
        assert(diags@ =~= old(diags)@ + spec_comment_diags(rules@, cs@, i as int));
    }
}

/// Walk the module's tree once, offering every node to every rule of the
/// collection; diagnostics in traversal order, isolated rule faults
/// alongside.
pub fn dispatch_module(m: &Module, rules: &Vec<Rule>) -> (r: (Vec<Diagnostic>, Vec<Fault>))
    ensures
        r.0@ == spec_dispatch(rules@, *m).0,
        r.1@ == spec_dispatch(rules@, *m).1,
{
    let mut diags: Vec<Diagnostic> = Vec::new();
    let mut faults: Vec<Fault> = Vec::new();
    walk_stmts(rules, &m.stmts, 0, &mut diags, &mut faults);
    (diags, faults)
}

/// Run the comment rules of the collection over the module's comment list.
pub fn run_comment_rules(m: &Module, rules: &Vec<Rule>) -> (r: Vec<Diagnostic>)
    ensures
        r@ == spec_comment_diags(rules@, m.comments@, 0),
{
    let mut diags: Vec<Diagnostic> = Vec::new();
    comment_pass(rules, &m.comments, 0, &mut diags);
    diags
}

} // verus!
