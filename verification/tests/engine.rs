//! Pipeline tests: dispatch, suppression directives, rule collections,
//! determinism, and fault isolation.

use deno_lint::ast::{BinOp, Class, Comment, Constructor, Expr, Module, Stmt, UnaryOp};
use deno_lint::diag::RuleCode;
use deno_lint::lint::lint_module;
use deno_lint::rules::{get_all_rules, get_recommended_rules, rules_from_codes, Rule};
use deno_lint::Span;

fn sp(start: u32, end: u32) -> Span {
    Span { start, end }
}

fn chars(s: &str) -> Vec<char> {
    s.chars().collect()
}

/// Lines are 100 bytes wide: line 1 is [0, 100), line 2 is [100, 200), ...
fn starts(n: u32) -> Vec<u32> {
    (0..n).map(|i| i * 100).collect()
}

fn debugger_on_line(line: u32) -> Stmt {
    let at = (line - 1) * 100 + 2;
    Stmt::Debugger { span: sp(at, at + 8) }
}

fn comment_on_line(line: u32, text: &str, trailing: bool) -> Comment {
    let at = (line - 1) * 100 + 50;
    Comment { span: sp(at, at + 2 + text.len() as u32), text: chars(text), trailing }
}

#[test]
fn no_directives_filtered_equals_raw() {
    let m = Module {
        stmts: vec![debugger_on_line(1), debugger_on_line(2)],
        comments: vec![comment_on_line(3, "just words", false)],
        line_starts: starts(4),
    };
    let out = lint_module(&m, &get_recommended_rules());
    assert_eq!(out.diagnostics.len(), 2);
    assert!(out.diagnostics.iter().all(|d| d.code == RuleCode::NoDebugger));
    assert_eq!(out.faults.len(), 0);
}

#[test]
fn untagged_blanket_yields_one_ban_diagnostic_and_still_suppresses() {
    let m = Module {
        stmts: vec![debugger_on_line(2)],
        comments: vec![comment_on_line(1, "lint-ignore", false)],
        line_starts: starts(3),
    };
    let out = lint_module(&m, &get_recommended_rules());
    assert_eq!(out.diagnostics.len(), 1);
    assert_eq!(out.diagnostics[0].code, RuleCode::BanUntaggedIgnore);
}

#[test]
fn tagged_blanket_suppresses_without_ban_diagnostic() {
    let m = Module {
        stmts: vec![debugger_on_line(2)],
        comments: vec![comment_on_line(1, "lint-ignore allow-blanket", false)],
        line_starts: starts(3),
    };
    let out = lint_module(&m, &get_recommended_rules());
    assert_eq!(out.diagnostics.len(), 0);
}

#[test]
fn directive_with_code_suppresses_only_that_code() {
    let octal_stmt = Stmt::Expr {
        span: sp(105, 110),
        expr: Expr::Num { span: sp(105, 108), raw: chars("017") },
    };
    let m = Module {
        stmts: vec![debugger_on_line(2), octal_stmt],
        comments: vec![comment_on_line(1, "lint-ignore no-debugger", false)],
        line_starts: starts(3),
    };
    let out = lint_module(&m, &get_recommended_rules());
    assert_eq!(out.diagnostics.len(), 1);
    assert_eq!(out.diagnostics[0].code, RuleCode::NoOctal);
}

#[test]
fn directive_with_unknown_code_is_inert() {
    let m = Module {
        stmts: vec![debugger_on_line(2)],
        comments: vec![comment_on_line(1, "lint-ignore no-such-rule", false)],
        line_starts: starts(3),
    };
    let out = lint_module(&m, &get_recommended_rules());
    assert_eq!(out.diagnostics.len(), 1);
    assert_eq!(out.diagnostics[0].code, RuleCode::NoDebugger);
}

#[test]
fn directive_skips_comment_lines_to_next_code_line() {
    let m = Module {
        stmts: vec![debugger_on_line(3)],
        comments: vec![
            comment_on_line(1, "lint-ignore no-debugger", false),
            comment_on_line(2, "explains the next line", false),
        ],
        line_starts: starts(4),
    };
    let out = lint_module(&m, &get_recommended_rules());
    assert_eq!(out.diagnostics.len(), 0);
}

#[test]
fn trailing_directive_targets_its_own_line() {
    let m = Module {
        stmts: vec![debugger_on_line(2)],
        comments: vec![comment_on_line(2, "lint-ignore no-debugger", true)],
        line_starts: starts(3),
    };
    let out = lint_module(&m, &get_recommended_rules());
    assert_eq!(out.diagnostics.len(), 0);
}

#[test]
fn trailing_blanket_directive_cannot_suppress_its_own_ban_diagnostic() {
    let m = Module {
        stmts: vec![],
        comments: vec![comment_on_line(1, "lint-ignore", true)],
        line_starts: starts(2),
    };
    let out = lint_module(&m, &get_recommended_rules());
    assert_eq!(out.diagnostics.len(), 1);
    assert_eq!(out.diagnostics[0].code, RuleCode::BanUntaggedIgnore);
}

#[test]
fn all_collection_is_superset_of_recommended_by_code() {
    let eq_stmt = Stmt::Expr {
        span: sp(102, 110),
        expr: Expr::Binary {
            span: sp(102, 110),
            op: BinOp::EqEq,
            left: Box::new(Expr::Ident { span: sp(102, 103), name: chars("a") }),
            right: Box::new(Expr::Ident { span: sp(109, 110), name: chars("b") }),
        },
    };
    let m = Module {
        stmts: vec![debugger_on_line(1), eq_stmt],
        comments: vec![comment_on_line(3, "TODO fix", false)],
        line_starts: starts(4),
    };
    let rec = lint_module(&m, &get_recommended_rules());
    let all = lint_module(&m, &get_all_rules());
    for d in &rec.diagnostics {
        assert!(all.diagnostics.iter().any(|e| e.code == d.code));
    }
    assert!(all.diagnostics.iter().any(|e| e.code == RuleCode::Eqeqeq));
    assert!(all.diagnostics.iter().any(|e| e.code == RuleCode::BanUntaggedTodo));
}

#[test]
fn pipeline_is_deterministic_on_identical_input() {
    let build = || Module {
        stmts: vec![debugger_on_line(1), debugger_on_line(2)],
        comments: vec![
            comment_on_line(3, "lint-ignore", false),
            comment_on_line(4, "TODO fix", false),
        ],
        line_starts: starts(5),
    };
    let out1 = lint_module(&build(), &get_all_rules());
    let out2 = lint_module(&build(), &get_all_rules());
    assert_eq!(out1.diagnostics, out2.diagnostics);
    assert_eq!(out1.faults, out2.faults);
}

#[test]
fn faulting_rule_does_not_stop_other_rules_or_nodes() {
    let crafted = Stmt::Expr {
        span: sp(2, 9),
        expr: Expr::Binary {
            span: sp(2, 9),
            op: BinOp::EqEq,
            left: Box::new(Expr::Ident { span: sp(2, 3), name: chars("x") }),
            right: Box::new(Expr::Unary {
                span: sp(7, 9),
                op: UnaryOp::Minus,
                arg: Box::new(Expr::Num { span: sp(8, 9), raw: vec![] }),
            }),
        },
    };
    let m = Module {
        stmts: vec![crafted, debugger_on_line(2)],
        comments: vec![],
        line_starts: starts(3),
    };
    let out = lint_module(&m, &get_all_rules());
    assert_eq!(out.faults.len(), 1);
    assert_eq!(out.faults[0].rule, RuleCode::NoCompareNegZero);
    assert!(out.diagnostics.iter().any(|d| d.code == RuleCode::Eqeqeq));
    assert!(out.diagnostics.iter().any(|d| d.code == RuleCode::NoDebugger));
}

#[test]
fn explicit_rule_selection_resolves_known_codes() {
    let codes = vec![chars("no-debugger"), chars("eqeqeq")];
    let rules = rules_from_codes(&codes).unwrap();
    assert_eq!(rules, vec![Rule::NoDebugger, Rule::Eqeqeq]);
}

#[test]
fn explicit_rule_selection_rejects_unknown_codes() {
    let codes = vec![chars("no-debugger"), chars("no-such-rule")];
    let err = rules_from_codes(&codes).unwrap_err();
    assert_eq!(err.index, 1);
}

#[test]
fn recommended_codes_are_all_in_the_full_catalog() {
    let all: Vec<RuleCode> = get_all_rules().iter().map(|r| r.code()).collect();
    for r in get_recommended_rules() {
        assert!(all.contains(&r.code()));
    }
}

#[test]
fn nested_class_in_constructor_is_analyzed_separately() {
    let inner = Class {
        span: sp(120, 160),
        name: chars("D"),
        has_super_class: true,
        ctor: Some(Constructor { span: sp(130, 155), body: vec![] }),
    };
    let outer_body = vec![
        Stmt::Expr { span: sp(110, 118), expr: Expr::SuperCall { span: sp(110, 118), args: vec![] } },
        Stmt::Class { span: sp(120, 160), class: inner },
    ];
    let outer = Class {
        span: sp(100, 180),
        name: chars("C"),
        has_super_class: true,
        ctor: Some(Constructor { span: sp(105, 175), body: outer_body }),
    };
    let m = Module {
        stmts: vec![Stmt::Class { span: sp(100, 180), class: outer }],
        comments: vec![],
        line_starts: starts(3),
    };
    let out = lint_module(&m, &get_recommended_rules());
    // The outer constructor calls super(); only the inner, empty one is
    // missing its call.
    assert_eq!(out.diagnostics.len(), 1);
    assert_eq!(out.diagnostics[0].code, RuleCode::ConstructorSuper);
    assert_eq!(out.diagnostics[0].span, sp(130, 155));
}
