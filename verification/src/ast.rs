//! The declaration model.
//!
//! Declarations refer to each other: a domain lists its functions, and the
//! functions return the domain. So no declaration holds another by value. A
//! context keeps every declaration in a store of its own, and a [`DeclRef`]
//! is a position in that store. A handle can be copied freely; all copies
//! denote the one declaration, and a change made through one is seen through
//! every other.

use crate::symbol::Symbol;
use std::marker::PhantomData;
use vstd::prelude::*;

verus! {

/// Where a piece of syntax came from.
#[derive(Clone, Copy, PartialEq, Eq, Structural, Debug, Hash)]
pub enum Span {
    /// A range of the source text.
    Source { start: usize, end: usize },
    /// No place in the source: the compiler made the item itself.
    Synthetic,
}

impl Span {
    /// The span of the source text from `start` to `end`.
    #[verifier::allow_in_spec]
    pub fn new(start: usize, end: usize) -> Span
        returns
            (Span::Source { start, end }),
    {
        Span::Source { start, end }
    }

    /// The span of what the compiler made itself.
    #[verifier::allow_in_spec]
    pub fn dummy_span() -> Span
        returns
            Span::Synthetic,
    {
        Span::Synthetic
    }

    /// Whether the span stands for no place in the source.
    pub fn is_dummy(&self) -> (r: bool)
        ensures
            r == (*self == Span::Synthetic),
    {
        match self {
            Span::Synthetic => true,
            Span::Source { .. } => false,
        }
    }
}

/// A name where it is written. Two identifiers name the same thing when their
/// symbols are equal, wherever they stand.
#[derive(Clone, Copy, PartialEq, Eq, Structural, Debug, Hash)]
pub struct Ident {
    pub name: Symbol,
    pub span: Span,
}

impl Ident {
    /// The identifier of a name written at `span`.
    #[verifier::allow_in_spec]
    pub fn new(name: Symbol, span: Span) -> Ident
        returns
            (Ident { name, span }),
    {
        Ident { name, span }
    }

    /// The identifier of a name that the compiler made itself.
    #[verifier::allow_in_spec]
    pub fn with_dummy_span(name: Symbol) -> Ident
        returns
            (Ident { name, span: Span::Synthetic }),
    {
        Ident { name, span: Span::Synthetic }
    }
}

/// A value together with the place it was written at.
#[derive(Debug, PartialEq, Eq)]
pub struct Spanned<T> {
    pub node: T,
    pub span: Span,
}

impl<T> Spanned<T> {
    pub fn new(span: Span, node: T) -> (r: Spanned<T>)
        ensures
            r == (Spanned { node, span }),
    {
        Spanned { node, span }
    }

    pub fn with_dummy_span(node: T) -> (r: Spanned<T>)
        ensures
            r == (Spanned { node, span: Span::Synthetic }),
    {
        Spanned { node, span: Span::Synthetic }
    }
}

/// Handle of a declaration of kind `T`: its position among the declarations
/// of that kind in the context that holds it.
#[derive(Debug)]
pub struct DeclRef<T> {
    pub index: usize,
    pub marker: PhantomData<T>,
}

impl<T> DeclRef<T> {
    /// The handle of the declaration at position `index`.
    #[verifier::allow_in_spec]
    pub fn at(index: usize) -> DeclRef<T>
        returns
            (DeclRef::<T> { index, marker: PhantomData }),
    {
        DeclRef { index, marker: PhantomData }
    }
}

impl<T> Clone for DeclRef<T> {
    fn clone(&self) -> (r: Self)
        ensures
            r == *self,
    {
        DeclRef { index: self.index, marker: PhantomData }
    }
}

impl<T> Copy for DeclRef<T> {}

impl<T> PartialEq for DeclRef<T> {
    fn eq(&self, other: &Self) -> (r: bool) {
        self.index == other.index
    }
}

impl<T> vstd::std_specs::cmp::PartialEqSpecImpl for DeclRef<T> {
    open spec fn obeys_eq_spec() -> bool {
        true
    }

    open spec fn eq_spec(&self, other: &Self) -> bool {
        self.index == other.index
    }
}

impl<T> Eq for DeclRef<T> {}

/// A type. A domain type holds the handle of its declaration, so that it can
/// be written down while the domain's body is still empty.
#[derive(Clone, Copy, Debug, PartialEq, Eq)]
pub enum TyKind {
    Bool,
    Int,
    UInt,
    Domain(DeclRef<DomainDecl>),
}

/// An expression as the registry stores it. The registry gives it no meaning.
#[derive(Clone, Copy, Debug, PartialEq, Eq)]
pub enum Expr {
    Var(Ident),
    UInt(u64),
    Bool(bool),
}

/// A parameter of a function.
#[derive(Debug, PartialEq, Eq)]
pub struct Param {
    pub name: Ident,
    pub span: Span,
    pub ty: Box<TyKind>,
    /// Whether only literal values may be passed.
    pub literal_only: bool,
}

/// A member of a domain's body.
#[derive(Clone, Copy, Debug, PartialEq, Eq)]
pub enum DomainSpec {
    Function(DeclRef<FuncDecl>),
}

/// A domain: a named type with the members that belong to it.
#[derive(Debug, PartialEq, Eq)]
pub struct DomainDecl {
    pub name: Ident,
    pub span: Span,
    pub body: Vec<DomainSpec>,
}

/// A domain as a value: its body is the sequence of its members.
pub struct DomainDeclView {
    pub name: Ident,
    pub span: Span,
    pub body: Seq<DomainSpec>,
}

impl View for DomainDecl {
    type V = DomainDeclView;

    open spec fn view(&self) -> DomainDeclView {
        DomainDeclView { name: self.name, span: self.span, body: self.body@ }
    }
}

/// A function. A built-in function has no body.
#[derive(Debug, PartialEq, Eq)]
pub struct FuncDecl {
    pub name: Ident,
    pub span: Span,
    pub inputs: Spanned<Vec<Param>>,
    pub output: TyKind,
    pub body: Option<Expr>,
}

/// A function as a value: its inputs are the sequence of its parameters.
pub struct FuncDeclView {
    pub name: Ident,
    pub span: Span,
    pub inputs: Spanned<Seq<Param>>,
    pub output: TyKind,
    pub body: Option<Expr>,
}

impl View for FuncDecl {
    type V = FuncDeclView;

    open spec fn view(&self) -> FuncDeclView {
        FuncDeclView {
            name: self.name,
            span: self.span,
            inputs: Spanned { node: self.inputs.node@, span: self.inputs.span },
            output: self.output,
            body: self.body,
        }
    }
}

/// What role a variable plays where it is declared.
#[derive(Clone, Copy, PartialEq, Eq, Structural, Debug, Hash)]
pub enum VarKind {
    /// An input of a function or procedure.
    Input,
    /// An output of a procedure.
    Output,
    /// A local variable.
    Local,
    /// A variable bound by a quantifier.
    Quant,
}

/// A variable.
#[derive(Clone, Copy, Debug, PartialEq, Eq)]
pub struct VarDecl {
    pub name: Ident,
    pub ty: TyKind,
    pub kind: VarKind,
    pub span: Span,
    pub init: Option<Expr>,
    /// The name of the declaration that this one was made from, if any.
    pub created_from: Option<Ident>,
}

/// A declaration of any kind, by its handle.
#[derive(Clone, Copy, Debug, PartialEq, Eq)]
pub enum DeclKind {
    VarDecl(DeclRef<VarDecl>),
    FuncDecl(DeclRef<FuncDecl>),
    DomainDecl(DeclRef<DomainDecl>),
}

} // verus!
