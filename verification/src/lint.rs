//! The full per-file pipeline: dispatch the rule collection over the tree,
//! run the comment rules, resolve suppression directives, and filter.

use vstd::prelude::*;
use crate::ast::{Comment, Expr, Module, Stmt};
use crate::diag::{Diagnostic, Fault, RuleCode};
use crate::dispatch::{
    dispatch_module, run_comment_rules, spec_comment_diags, spec_dispatch,
};
use crate::rules::{res_view, Rule};
use crate::suppress::{
    build_directives, filter_diagnostics, module_wf, spec_directives, spec_filter, Directive,
};

verus! {

/// What one lint run returns: the suppressed-filtered diagnostics in
/// traversal order, and the records of isolated rule faults.
pub struct LintOutcome {
    pub diagnostics: Vec<Diagnostic>,
    pub faults: Vec<Fault>,
}

/// The raw, unsuppressed diagnostic list: the tree walk's findings, then
/// the comment rules' findings.
pub open spec fn spec_raw_diags(m: Module, rules: Seq<Rule>) -> Seq<Diagnostic> {
    spec_dispatch(rules, m).0 + spec_comment_diags(rules, m.comments@, 0)
}

/// The final diagnostic list: the raw list with every directive-suppressed
/// entry removed.
pub open spec fn spec_lint_diags(m: Module, rules: Seq<Rule>) -> Seq<Diagnostic> {
    spec_filter(
        spec_raw_diags(m, rules),
        spec_directives(m.comments@, m.line_starts@, 0),
        m.line_starts@,
        0,
    )
}

pub open spec fn spec_lint_faults(m: Module, rules: Seq<Rule>) -> Seq<Fault> {
    spec_dispatch(rules, m).1
}

/// Lint one module with the given rule collection.
pub fn lint_module(m: &Module, rules: &Vec<Rule>) -> (r: LintOutcome)
    requires
        module_wf(*m),
    ensures
        r.diagnostics@ == spec_lint_diags(*m, rules@),
        r.faults@ == spec_lint_faults(*m, rules@),
{
    let (mut raw, faults) = dispatch_module(m, rules);
    let mut cd = run_comment_rules(m, rules);
    raw.append(&mut cd);
    let dirs: Vec<Directive> = build_directives(m);
    let filtered = filter_diagnostics(&raw, &dirs, &m.line_starts);
    LintOutcome { diagnostics: filtered, faults }
}

/// The uniform capability every rule offers: its stable code, and what it
/// reports when offered a statement, an expression, or a comment.
pub trait LintRule: Sized {
    spec fn spec_code(&self) -> RuleCode;

    spec fn spec_lint_stmt(&self, s: Stmt) -> Result<Seq<Diagnostic>, Fault>;

    spec fn spec_lint_expr(&self, e: Expr) -> Result<Seq<Diagnostic>, Fault>;

    spec fn spec_lint_comment(&self, c: Comment) -> Seq<Diagnostic>;

    fn code(&self) -> (r: RuleCode)
        ensures
            r == self.spec_code(),
    ;

    fn lint_stmt(&self, s: &Stmt) -> (r: Result<Vec<Diagnostic>, Fault>)
        ensures
            res_view(r) == self.spec_lint_stmt(*s),
    ;

    fn lint_expr(&self, e: &Expr) -> (r: Result<Vec<Diagnostic>, Fault>)
        ensures
            res_view(r) == self.spec_lint_expr(*e),
    ;

    fn lint_comment(&self, c: &Comment) -> (r: Vec<Diagnostic>)
        ensures
            r@ == self.spec_lint_comment(*c),
    ;
}

impl LintRule for Rule {
    open spec fn spec_code(&self) -> RuleCode {
        crate::rules::spec_rule_code(*self)
    }

    open spec fn spec_lint_stmt(&self, s: Stmt) -> Result<Seq<Diagnostic>, Fault> {
        crate::rules::spec_check_stmt(*self, s)
    }

    open spec fn spec_lint_expr(&self, e: Expr) -> Result<Seq<Diagnostic>, Fault> {
        crate::rules::spec_check_expr(*self, e)
    }

    open spec fn spec_lint_comment(&self, c: Comment) -> Seq<Diagnostic> {
        crate::rules::spec_check_comment(*self, c)
    }

    fn code(&self) -> (r: RuleCode) {
        Rule::code(self)
    }

    fn lint_stmt(&self, s: &Stmt) -> (r: Result<Vec<Diagnostic>, Fault>) {
        Rule::check_stmt(self, s)
    }

    fn lint_expr(&self, e: &Expr) -> (r: Result<Vec<Diagnostic>, Fault>) {
        Rule::check_expr(self, e)
    }

    fn lint_comment(&self, c: &Comment) -> (r: Vec<Diagnostic>) {
        Rule::check_comment(self, c)
    }
}

} // verus!
