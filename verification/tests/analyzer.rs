//! Constructor-super analyzer scenarios and single-rule checks.

use deno_lint::ast::{BinOp, Class, Comment, Constructor, Expr, Stmt, SwitchCase, UnaryOp, VarKind};
use deno_lint::ctor_super::class_diags;
use deno_lint::diag::{Message, RuleCode};
use deno_lint::rules::Rule;
use deno_lint::Span;

fn sp(start: u32, end: u32) -> Span {
    Span { start, end }
}

fn chars(s: &str) -> Vec<char> {
    s.chars().collect()
}

fn derived_class(body: Vec<Stmt>) -> Class {
    Class {
        span: sp(0, 100),
        name: chars("C"),
        has_super_class: true,
        ctor: Some(Constructor { span: sp(10, 90), body }),
    }
}

fn super_call(start: u32, end: u32) -> Stmt {
    Stmt::Expr {
        span: sp(start, end),
        expr: Expr::SuperCall { span: sp(start, end), args: vec![] },
    }
}

fn this_assign(start: u32, end: u32) -> Stmt {
    Stmt::Expr {
        span: sp(start, end),
        expr: Expr::Assign {
            span: sp(start, end),
            target: Box::new(Expr::Member {
                span: sp(start, start + 6),
                obj: Box::new(Expr::This { span: sp(start, start + 4) }),
                prop: chars("x"),
            }),
            value: Box::new(Expr::Num { span: sp(start + 9, start + 10), raw: chars("1") }),
        },
    }
}

#[test]
fn super_then_this_is_clean() {
    let c = derived_class(vec![super_call(20, 28), this_assign(30, 40)]);
    let diags = class_diags(&c);
    assert_eq!(diags.len(), 0);
}

#[test]
fn this_before_super_is_flagged_at_the_access_span() {
    let c = derived_class(vec![this_assign(20, 30), super_call(32, 40)]);
    let diags = class_diags(&c);
    assert_eq!(diags.len(), 1);
    assert_eq!(diags[0].code, RuleCode::ConstructorSuper);
    assert_eq!(diags[0].message, Message::ThisBeforeSuper);
    // The span of the whole `this.x` access, not of the bare `this` token.
    assert_eq!(diags[0].span, sp(20, 26));
}

#[test]
fn conditional_super_without_else_is_maybe_missing() {
    let body = vec![Stmt::If {
        span: sp(20, 60),
        cond: Expr::Ident { span: sp(24, 25), name: chars("c") },
        cons: Box::new(Stmt::Block { span: sp(27, 60), stmts: vec![super_call(30, 38)] }),
        alt: None,
    }];
    let c = derived_class(body);
    let diags = class_diags(&c);
    assert_eq!(diags.len(), 1);
    assert_eq!(diags[0].message, Message::MissingSuper);
    assert_eq!(diags[0].span, sp(10, 90));
}

#[test]
fn duplicate_super_is_flagged_at_second_call() {
    let c = derived_class(vec![super_call(20, 28), super_call(30, 38)]);
    let diags = class_diags(&c);
    assert_eq!(diags.len(), 1);
    assert_eq!(diags[0].message, Message::DuplicateSuper);
    assert_eq!(diags[0].span, sp(30, 38));
}

#[test]
fn missing_super_entirely() {
    let c = derived_class(vec![this_assign(20, 30)]);
    let diags = class_diags(&c);
    assert_eq!(diags.len(), 2);
    assert_eq!(diags[0].message, Message::ThisBeforeSuper);
    assert_eq!(diags[1].message, Message::MissingSuper);
}

#[test]
fn non_derived_class_is_not_analyzed() {
    let c = Class {
        span: sp(0, 50),
        name: chars("P"),
        has_super_class: false,
        ctor: Some(Constructor { span: sp(5, 45), body: vec![this_assign(10, 20)] }),
    };
    assert_eq!(class_diags(&c).len(), 0);
}

#[test]
fn derived_class_without_constructor_is_clean() {
    let c = Class { span: sp(0, 50), name: chars("C"), has_super_class: true, ctor: None };
    assert_eq!(class_diags(&c).len(), 0);
}

#[test]
fn super_in_loop_is_maybe_missing() {
    let body = vec![Stmt::While {
        span: sp(20, 60),
        cond: Expr::Ident { span: sp(26, 27), name: chars("c") },
        body: Box::new(Stmt::Block { span: sp(29, 60), stmts: vec![super_call(32, 40)] }),
    }];
    let diags = class_diags(&derived_class(body));
    assert_eq!(diags.len(), 1);
    assert_eq!(diags[0].message, Message::MissingSuper);
}

#[test]
fn super_in_try_with_empty_catch_is_maybe_missing() {
    let body = vec![Stmt::Try {
        span: sp(20, 70),
        block: vec![super_call(26, 34)],
        catch: Some(vec![]),
        finally: None,
    }];
    let diags = class_diags(&derived_class(body));
    assert_eq!(diags.len(), 1);
    assert_eq!(diags[0].message, Message::MissingSuper);
}

#[test]
fn super_in_both_branches_is_clean() {
    let body = vec![Stmt::If {
        span: sp(20, 60),
        cond: Expr::Ident { span: sp(24, 25), name: chars("c") },
        cons: Box::new(Stmt::Block { span: sp(27, 40), stmts: vec![super_call(28, 36)] }),
        alt: Some(Box::new(Stmt::Block { span: sp(42, 58), stmts: vec![super_call(44, 52)] })),
    }];
    assert_eq!(class_diags(&derived_class(body)).len(), 0);
}

#[test]
fn return_before_super_is_flagged() {
    let body = vec![Stmt::Return { span: sp(20, 27), arg: None }];
    let diags = class_diags(&derived_class(body));
    assert_eq!(diags.len(), 1);
    assert_eq!(diags[0].message, Message::MissingSuper);
    assert_eq!(diags[0].span, sp(20, 27));
}

#[test]
fn no_debugger_rule_flags_debugger_statement() {
    let r = Rule::NoDebugger;
    let s = Stmt::Debugger { span: sp(3, 12) };
    let diags = r.check_stmt(&s).unwrap();
    assert_eq!(diags.len(), 1);
    assert_eq!(diags[0].code, RuleCode::NoDebugger);
    assert_eq!(diags[0].span, sp(3, 12));
}

#[test]
fn no_var_rule_flags_only_var_kind() {
    let r = Rule::NoVar;
    let mk = |kind: VarKind| Stmt::VarDecl {
        span: sp(0, 10),
        kind,
        decls: vec![(chars("x"), None)],
    };
    assert_eq!(r.check_stmt(&mk(VarKind::Var)).unwrap().len(), 1);
    assert_eq!(r.check_stmt(&mk(VarKind::Let)).unwrap().len(), 0);
    assert_eq!(r.check_stmt(&mk(VarKind::Const)).unwrap().len(), 0);
}

#[test]
fn no_eval_rule_flags_direct_eval_call() {
    let r = Rule::NoEval;
    let call = |name: &str| Expr::Call {
        span: sp(0, 10),
        callee: Box::new(Expr::Ident { span: sp(0, 4), name: chars(name) }),
        args: vec![],
    };
    assert_eq!(r.check_expr(&call("eval")).unwrap().len(), 1);
    assert_eq!(r.check_expr(&call("evil")).unwrap().len(), 0);
}

#[test]
fn no_delete_var_rule_flags_delete_of_identifier() {
    let r = Rule::NoDeleteVar;
    let del_ident = Expr::Unary {
        span: sp(0, 10),
        op: UnaryOp::Delete,
        arg: Box::new(Expr::Ident { span: sp(7, 8), name: chars("x") }),
    };
    let del_member = Expr::Unary {
        span: sp(0, 12),
        op: UnaryOp::Delete,
        arg: Box::new(Expr::Member {
            span: sp(7, 10),
            obj: Box::new(Expr::Ident { span: sp(7, 8), name: chars("o") }),
            prop: chars("p"),
        }),
    };
    assert_eq!(r.check_expr(&del_ident).unwrap().len(), 1);
    assert_eq!(r.check_expr(&del_member).unwrap().len(), 0);
}

#[test]
fn no_octal_rule_flags_leading_zero_literals() {
    let r = Rule::NoOctal;
    let num = |raw: &str| Expr::Num { span: sp(0, 4), raw: chars(raw) };
    assert_eq!(r.check_expr(&num("017")).unwrap().len(), 1);
    assert_eq!(r.check_expr(&num("0")).unwrap().len(), 0);
    assert_eq!(r.check_expr(&num("0x17")).unwrap().len(), 0);
    assert_eq!(r.check_expr(&num("17")).unwrap().len(), 0);
}

#[test]
fn no_sparse_array_rule_flags_holes() {
    let r = Rule::NoSparseArray;
    let some = |a: u32| Some(Expr::Num { span: sp(a, a + 1), raw: chars("1") });
    let sparse = Expr::Array { span: sp(0, 10), elems: vec![some(1), None, some(5)] };
    let dense = Expr::Array { span: sp(0, 10), elems: vec![some(1), some(3)] };
    assert_eq!(r.check_expr(&sparse).unwrap().len(), 1);
    assert_eq!(r.check_expr(&dense).unwrap().len(), 0);
}

#[test]
fn no_throw_literal_rule_flags_literal_throws() {
    let r = Rule::NoThrowLiteral;
    let thr_str = Stmt::Throw { span: sp(0, 12), arg: Expr::Str { span: sp(6, 11) } };
    let thr_ident = Stmt::Throw {
        span: sp(0, 9),
        arg: Expr::Ident { span: sp(6, 7), name: chars("e") },
    };
    let d = r.check_stmt(&thr_str).unwrap();
    assert_eq!(d.len(), 1);
    assert_eq!(d[0].span, sp(6, 11));
    assert_eq!(r.check_stmt(&thr_ident).unwrap().len(), 0);
}

#[test]
fn eqeqeq_rule_flags_loose_equality_only() {
    let r = Rule::Eqeqeq;
    let bin = |op: BinOp| Expr::Binary {
        span: sp(0, 10),
        op,
        left: Box::new(Expr::Ident { span: sp(0, 1), name: chars("a") }),
        right: Box::new(Expr::Ident { span: sp(9, 10), name: chars("b") }),
    };
    assert_eq!(r.check_expr(&bin(BinOp::EqEq)).unwrap().len(), 1);
    assert_eq!(r.check_expr(&bin(BinOp::NotEq)).unwrap().len(), 1);
    assert_eq!(r.check_expr(&bin(BinOp::EqEqEq)).unwrap().len(), 0);
}

#[test]
fn no_compare_neg_zero_rule_flags_comparison_with_minus_zero() {
    let r = Rule::NoCompareNegZero;
    let neg_zero = Expr::Unary {
        span: sp(5, 7),
        op: UnaryOp::Minus,
        arg: Box::new(Expr::Num { span: sp(6, 7), raw: chars("0") }),
    };
    let cmp = Expr::Binary {
        span: sp(0, 7),
        op: BinOp::EqEqEq,
        left: Box::new(Expr::Ident { span: sp(0, 1), name: chars("x") }),
        right: Box::new(neg_zero),
    };
    let d = r.check_expr(&cmp).unwrap();
    assert_eq!(d.len(), 1);
    assert_eq!(d[0].code, RuleCode::NoCompareNegZero);
    assert_eq!(d[0].message, Message::CompareToNegZero);
}

#[test]
fn no_compare_neg_zero_rule_faults_on_empty_literal() {
    let r = Rule::NoCompareNegZero;
    let broken = Expr::Unary {
        span: sp(5, 7),
        op: UnaryOp::Minus,
        arg: Box::new(Expr::Num { span: sp(6, 7), raw: vec![] }),
    };
    let cmp = Expr::Binary {
        span: sp(0, 7),
        op: BinOp::EqEq,
        left: Box::new(Expr::Ident { span: sp(0, 1), name: chars("x") }),
        right: Box::new(broken),
    };
    let f = r.check_expr(&cmp).unwrap_err();
    assert_eq!(f.rule, RuleCode::NoCompareNegZero);
    assert_eq!(f.span, sp(0, 7));
}

#[test]
fn ban_untagged_todo_rule_requires_parenthesized_tag() {
    let r = Rule::BanUntaggedTodo;
    let mk = |text: &str| Comment { span: sp(0, 20), text: chars(text), trailing: false };
    assert_eq!(r.check_comment(&mk("TODO fix this later")).len(), 1);
    assert_eq!(r.check_comment(&mk("TODO(alice) fix it")).len(), 0);
    assert_eq!(r.check_comment(&mk("TODO()")).len(), 1);
    assert_eq!(r.check_comment(&mk("a note, not a marker")).len(), 0);
}

#[test]
fn super_prop_before_super_is_flagged() {
    let body = vec![
        Stmt::Expr {
            span: sp(20, 32),
            expr: Expr::Call {
                span: sp(20, 32),
                callee: Box::new(Expr::SuperProp { span: sp(20, 28) }),
                args: vec![],
            },
        },
        super_call(34, 42),
    ];
    let diags = class_diags(&derived_class(body));
    assert_eq!(diags.len(), 1);
    assert_eq!(diags[0].message, Message::ThisBeforeSuper);
    assert_eq!(diags[0].span, sp(20, 28));
}

#[test]
fn super_behind_short_circuit_is_maybe_missing() {
    let body = vec![Stmt::Expr {
        span: sp(20, 40),
        expr: Expr::Binary {
            span: sp(20, 40),
            op: BinOp::LogicalAnd,
            left: Box::new(Expr::Ident { span: sp(20, 21), name: chars("c") }),
            right: Box::new(Expr::SuperCall { span: sp(25, 33), args: vec![] }),
        },
    }];
    let diags = class_diags(&derived_class(body));
    assert_eq!(diags.len(), 1);
    assert_eq!(diags[0].message, Message::MissingSuper);
}

#[test]
fn super_in_both_arms_of_conditional_expression_is_clean() {
    let body = vec![Stmt::Expr {
        span: sp(20, 50),
        expr: Expr::Cond {
            span: sp(20, 50),
            cond: Box::new(Expr::Ident { span: sp(20, 21), name: chars("c") }),
            cons: Box::new(Expr::SuperCall { span: sp(24, 32), args: vec![] }),
            alt: Box::new(Expr::SuperCall { span: sp(35, 43), args: vec![] }),
        },
    }];
    assert_eq!(class_diags(&derived_class(body)).len(), 0);
}

#[test]
fn this_inside_super_call_arguments_is_flagged() {
    let body = vec![Stmt::Expr {
        span: sp(20, 35),
        expr: Expr::SuperCall {
            span: sp(20, 35),
            args: vec![Expr::Member {
                span: sp(26, 33),
                obj: Box::new(Expr::This { span: sp(26, 30) }),
                prop: chars("x"),
            }],
        },
    }];
    let diags = class_diags(&derived_class(body));
    assert_eq!(diags.len(), 1);
    assert_eq!(diags[0].message, Message::ThisBeforeSuper);
    assert_eq!(diags[0].span, sp(26, 33));
}

#[test]
fn super_in_every_switch_arm_with_default_is_clean() {
    let body = vec![Stmt::Switch {
        span: sp(20, 80),
        disc: Expr::Ident { span: sp(28, 29), name: chars("k") },
        cases: vec![
            SwitchCase {
                span: sp(32, 48),
                test: Some(Expr::Num { span: sp(37, 38), raw: chars("1") }),
                body: vec![super_call(40, 48)],
            },
            SwitchCase { span: sp(50, 70), test: None, body: vec![super_call(60, 68)] },
        ],
    }];
    assert_eq!(class_diags(&derived_class(body)).len(), 0);
}

#[test]
fn switch_without_default_is_maybe_missing() {
    let body = vec![Stmt::Switch {
        span: sp(20, 60),
        disc: Expr::Ident { span: sp(28, 29), name: chars("k") },
        cases: vec![SwitchCase {
            span: sp(32, 48),
            test: Some(Expr::Num { span: sp(37, 38), raw: chars("1") }),
            body: vec![super_call(40, 48)],
        }],
    }];
    let diags = class_diags(&derived_class(body));
    assert_eq!(diags.len(), 1);
    assert_eq!(diags[0].message, Message::MissingSuper);
}

#[test]
fn bare_this_before_super_is_flagged_at_its_own_span() {
    let body = vec![
        Stmt::Expr { span: sp(20, 25), expr: Expr::This { span: sp(20, 24) } },
        super_call(27, 35),
    ];
    let diags = class_diags(&derived_class(body));
    assert_eq!(diags.len(), 1);
    assert_eq!(diags[0].message, Message::ThisBeforeSuper);
    assert_eq!(diags[0].span, sp(20, 24));
}

#[test]
fn nested_this_access_is_reported_once_at_the_inner_access() {
    // this.a.b: the access on `this` itself is `this.a`; one diagnostic, at
    // its span.
    let body = vec![Stmt::Expr {
        span: sp(20, 29),
        expr: Expr::Member {
            span: sp(20, 28),
            obj: Box::new(Expr::Member {
                span: sp(20, 26),
                obj: Box::new(Expr::This { span: sp(20, 24) }),
                prop: chars("a"),
            }),
            prop: chars("b"),
        },
    }];
    let diags = class_diags(&derived_class(body));
    assert_eq!(diags.len(), 2);
    assert_eq!(diags[0].message, Message::ThisBeforeSuper);
    assert_eq!(diags[0].span, sp(20, 26));
    assert_eq!(diags[1].message, Message::MissingSuper);
}
