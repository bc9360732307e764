//! The library's own picture of a parsed Rust source file: the parts of the
//! syntax tree that the checks read, held as plain values.
//!
//! A function body is held as what a full syntax-tree walk of it meets:
//! every method call, every `if` condition, every binary operation and every
//! macro invocation in expression or statement position, each in the order
//! the walk reaches it.  The
//! checks only ask whether such a node occurs, never where.
use vstd::prelude::*;

verus! {

/// A literal: only the value of a string literal is read.
pub enum Lit {
    /// A string literal, with its escapes resolved.
    Str(String),
    /// Any other literal.
    Other,
}

/// An expression, as deep as the checks read it.
pub enum Expr {
    /// A path such as `a` or `DataKey::Admin`: the identifiers of its segments.
    Path { segments: Vec<String> },
    /// `receiver.method(..)`.
    MethodCall { receiver: Box<Expr>, method: String },
    /// `base.field`.
    Field { base: Box<Expr> },
    /// `&expr` or `&mut expr`.
    Reference { expr: Box<Expr> },
    /// `left <op> right`, for any binary operator.
    Binary { left: Box<Expr>, right: Box<Expr> },
    /// A literal.
    Lit { lit: Lit },
    /// A macro invocation such as `symbol_short!("owner")`: the identifiers
    /// of its path's segments and its input tokens printed as text.
    Macro { path: Vec<String>, tokens: String },
    /// Any other expression.
    Other,
}

/// A method call met in a function body, with its receiver and arguments.
pub struct MethodCall {
    pub receiver: Expr,
    pub method: String,
    pub args: Vec<Expr>,
}

/// A binary operation met in a function body.
pub struct Binary {
    pub left: Expr,
    pub right: Expr,
}

/// A macro invocation met in a function body, in expression position
/// (`let x = m!(..)`) or in statement position (`m!(..);`).
pub struct MacroCall {
    /// The identifiers of the macro path's segments (`assert` for `assert!`).
    pub path: Vec<String>,
    /// The macro's input tokens, printed as text.
    pub tokens: String,
}

/// What a walk of a function body meets.
pub struct Block {
    pub method_calls: Vec<MethodCall>,
    pub if_conditions: Vec<Expr>,
    pub binaries: Vec<Binary>,
    pub macros: Vec<MacroCall>,
}

/// A pattern of a function parameter.
pub enum Pat {
    /// A plain binding `name` (or `mut name`).
    Ident(String),
    /// Any other pattern.
    Other,
}

/// A type, as deep as the checks read it.
pub enum Type {
    /// A path type: the identifiers of its segments, generics left out.
    Path { segments: Vec<String> },
    /// `&T` or `&mut T`.
    Reference { elem: Box<Type> },
    /// Any other type.
    Other,
}

/// A function parameter.
pub enum FnArg {
    /// `self`, `&self` or `&mut self`.
    Receiver,
    /// `pat: ty`.
    Typed { pat: Pat, ty: Type },
}

/// A function of an `impl` block.
pub struct ImplFn {
    pub name: String,
    /// The function is declared `pub`.
    pub is_pub: bool,
    /// The line of its `fn` keyword.
    pub line: usize,
    pub inputs: Vec<FnArg>,
    pub block: Block,
}

/// An attribute on an `impl` block: the identifiers of its path's segments.
pub struct Attribute {
    pub path: Vec<String>,
}

/// An `impl` block with its attributes and its functions.
pub struct ItemImpl {
    pub attrs: Vec<Attribute>,
    pub fns: Vec<ImplFn>,
}

/// A source file: its top-level `impl` blocks, in order.
pub struct SourceFile {
    pub impls: Vec<ItemImpl>,
}

} // verus!
