//! The syntax-tree model the rules read: statements, expressions, classes,
//! and source comments, each carrying a byte span.

use vstd::prelude::*;
use crate::Span;

verus! {

/// Unary operator kinds the rules distinguish.
#[derive(Clone, Copy, PartialEq, Eq, Structural, Debug)]
pub enum UnaryOp {
    Minus,
    Not,
    Delete,
    TypeOf,
}

/// Binary operator kinds the rules distinguish.
#[derive(Clone, Copy, PartialEq, Eq, Structural, Debug)]
pub enum BinOp {
    EqEq,
    NotEq,
    EqEqEq,
    NotEqEq,
    Lt,
    Gt,
    Add,
    LogicalAnd,
    LogicalOr,
    Other,
}

/// How a variable declaration was introduced.
#[derive(Clone, Copy, PartialEq, Eq, Structural, Debug)]
pub enum VarKind {
    Var,
    Let,
    Const,
}

/// An expression node.
pub enum Expr {
    /// A `this` expression.
    This { span: Span },
    /// A direct `super(...)` constructor call; arguments are analyzed first.
    SuperCall { span: Span, args: Vec<Expr> },
    /// A `super.member` or `super[member]` access.
    SuperProp { span: Span },
    /// An identifier reference; the name as characters.
    Ident { span: Span, name: Vec<char> },
    /// A numeric literal, kept as its source characters.
    Num { span: Span, raw: Vec<char> },
    /// A string literal.
    Str { span: Span },
    /// `true` or `false`.
    Bool { span: Span, value: bool },
    /// `null`.
    Null { span: Span },
    /// An array literal; a `None` element is an elision (hole).
    Array { span: Span, elems: Vec<Option<Expr>> },
    /// A unary operator application.
    Unary { span: Span, op: UnaryOp, arg: Box<Expr> },
    /// A binary or logical operator application.
    Binary { span: Span, op: BinOp, left: Box<Expr>, right: Box<Expr> },
    /// An assignment `target = value`.
    Assign { span: Span, target: Box<Expr>, value: Box<Expr> },
    /// A call `callee(args)`.
    Call { span: Span, callee: Box<Expr>, args: Vec<Expr> },
    /// A member access `obj.prop`.
    Member { span: Span, obj: Box<Expr>, prop: Vec<char> },
    /// A conditional `cond ? cons : alt`.
    Cond { span: Span, cond: Box<Expr>, cons: Box<Expr>, alt: Box<Expr> },
}

/// A statement node.
pub enum Stmt {
    /// An expression statement.
    Expr { span: Span, expr: Expr },
    /// A variable declaration; each declarator is a name with an optional
    /// initializer.
    VarDecl { span: Span, kind: VarKind, decls: Vec<(Vec<char>, Option<Expr>)> },
    /// An `if` statement with optional `else`.
    If { span: Span, cond: Expr, cons: Box<Stmt>, alt: Option<Box<Stmt>> },
    /// A block `{ ... }`.
    Block { span: Span, stmts: Vec<Stmt> },
    /// A `while` (or any zero-or-more-times) loop.
    While { span: Span, cond: Expr, body: Box<Stmt> },
    /// A `return`, with optional argument.
    Return { span: Span, arg: Option<Expr> },
    /// A `throw`.
    Throw { span: Span, arg: Expr },
    /// A `try` block with optional `catch` and `finally` clauses.
    Try {
        span: Span,
        block: Vec<Stmt>,
        catch: Option<Vec<Stmt>>,
        finally: Option<Vec<Stmt>>,
    },
    /// A `switch` statement; each case arm is analyzed independently.
    Switch { span: Span, disc: Expr, cases: Vec<SwitchCase> },
    /// A `debugger` statement.
    Debugger { span: Span },
    /// A `with` statement.
    With { span: Span, obj: Expr, body: Box<Stmt> },
    /// An empty statement `;`.
    Empty { span: Span },
    /// A class declaration.
    Class { span: Span, class: Class },
}

/// One arm of a `switch`: its test expression (`None` for `default`) and
/// its body.
pub struct SwitchCase {
    pub span: Span,
    pub test: Option<Expr>,
    pub body: Vec<Stmt>,
}

/// A class declaration: its name, whether it extends a base class, and its
/// constructor if it declares one.
pub struct Class {
    pub span: Span,
    pub name: Vec<char>,
    pub has_super_class: bool,
    pub ctor: Option<Constructor>,
}

/// An explicit class constructor: its body in source order.
pub struct Constructor {
    pub span: Span,
    pub body: Vec<Stmt>,
}

/// A source comment: its span, its text (without the comment delimiters),
/// and whether it trails code on its own line.
pub struct Comment {
    pub span: Span,
    pub text: Vec<char>,
    pub trailing: bool,
}

/// One parsed source file: top-level statements in source order, the file's
/// comments in source order, and the byte offset at which each source line
/// starts.
pub struct Module {
    pub stmts: Vec<Stmt>,
    pub comments: Vec<Comment>,
    pub line_starts: Vec<u32>,
}

impl Expr {
    /// The source span of this expression.
    pub open spec fn spec_span(self) -> Span {
        match self {
            Expr::This { span } => span,
            Expr::SuperCall { span, .. } => span,
            Expr::SuperProp { span } => span,
            Expr::Ident { span, .. } => span,
            Expr::Num { span, .. } => span,
            Expr::Str { span } => span,
            Expr::Bool { span, .. } => span,
            Expr::Null { span } => span,
            Expr::Array { span, .. } => span,
            Expr::Unary { span, .. } => span,
            Expr::Binary { span, .. } => span,
            Expr::Assign { span, .. } => span,
            Expr::Call { span, .. } => span,
            Expr::Member { span, .. } => span,
            Expr::Cond { span, .. } => span,
        }
    }

    pub fn span(&self) -> (r: Span)
        ensures
            r == self.spec_span(),
    {
        match self {
            Expr::This { span } => *span,
            Expr::SuperCall { span, .. } => *span,
            Expr::SuperProp { span } => *span,
            Expr::Ident { span, .. } => *span,
            Expr::Num { span, .. } => *span,
            Expr::Str { span } => *span,
            Expr::Bool { span, .. } => *span,
            Expr::Null { span } => *span,
            Expr::Array { span, .. } => *span,
            Expr::Unary { span, .. } => *span,
            Expr::Binary { span, .. } => *span,
            Expr::Assign { span, .. } => *span,
            Expr::Call { span, .. } => *span,
            Expr::Cond { span, .. } => *span,
            Expr::Member { span, .. } => *span,
        }
    }
}

} // verus!
