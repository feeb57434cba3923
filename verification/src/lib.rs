//! A small lint engine for JavaScript-like source: a catalog of diagnostic
//! rules, a dispatch engine that offers every node of a module's syntax tree
//! to every active rule, a suppression resolver that interprets inline
//! `lint-ignore` comments, and a control-flow analysis of `super()` calls in
//! derived-class constructors.

use vstd::prelude::*;

pub mod ast;
pub mod diag;
pub mod ctor_super;
pub mod suppress;
pub mod rules;
pub mod dispatch;
pub mod lint;
pub mod laws;

verus! {

/// A half-open range of byte offsets into the source text.
#[derive(Clone, Copy, PartialEq, Eq, Structural, Debug)]
pub struct Span {
    pub start: u32,
    pub end: u32,
}

} // verus!
