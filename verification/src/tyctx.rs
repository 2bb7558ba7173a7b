//! The declaration registry of one compilation context.
//!
//! A [`TyCtx`] does two things. It is the store of the declarations: a
//! declaration is put in once and from then on known by its handle. And it is
//! the table of names: `declare` binds the name of a stored declaration to its
//! handle, `get` finds the handle again. A declaration can be stored and
//! changed before it is declared, which is how a domain and the functions
//! that return it are built.

use crate::ast::{
    DeclKind, DeclRef, DomainDecl, DomainDeclView, DomainSpec, FuncDecl, FuncDeclView, Ident,
    TyKind, VarDecl,
};
use crate::symbol::{table_wf, text_of, Symbol};
use std::collections::{HashMap, HashSet};
use vstd::prelude::*;

verus! {

broadcast use vstd::std_specs::hash::group_hash_axioms;

/// Why the registry turned a request down.
#[derive(Clone, Copy, PartialEq, Eq, Structural, Debug)]
pub enum DeclError {
    /// The name is already bound.
    DuplicateDeclaration(Symbol),
    /// A built-in was asked for that the context does not hold.
    UnresolvedBuiltin(Symbol),
}

/// What a context holds: the stored declarations of each kind by position,
/// the names that are bound, and the names that are marked global.
pub struct TyCtxView {
    pub domains: Seq<DomainDeclView>,
    pub funcs: Seq<FuncDeclView>,
    pub vars: Seq<VarDecl>,
    pub declarations: Map<Symbol, DeclKind>,
    pub globals: Set<Symbol>,
}

impl TyCtxView {
    /// A context that holds nothing.
    pub open spec fn empty() -> TyCtxView {
        TyCtxView {
            domains: Seq::empty(),
            funcs: Seq::empty(),
            vars: Seq::empty(),
            declarations: Map::empty(),
            globals: Set::empty(),
        }
    }

    pub open spec fn holds_domain(self, r: DeclRef<DomainDecl>) -> bool {
        r.index < self.domains.len()
    }

    pub open spec fn holds_func(self, r: DeclRef<FuncDecl>) -> bool {
        r.index < self.funcs.len()
    }

    pub open spec fn holds_var(self, r: DeclRef<VarDecl>) -> bool {
        r.index < self.vars.len()
    }

    /// Whether the handle denotes a declaration of this context.
    pub open spec fn holds(self, decl: DeclKind) -> bool {
        match decl {
            DeclKind::VarDecl(r) => self.holds_var(r),
            DeclKind::FuncDecl(r) => self.holds_func(r),
            DeclKind::DomainDecl(r) => self.holds_domain(r),
        }
    }

    pub open spec fn holds_member(self, member: DomainSpec) -> bool {
        match member {
            DomainSpec::Function(r) => self.holds_func(r),
        }
    }

    /// Whether every domain that the type names is a declaration of this
    /// context.
    pub open spec fn holds_ty(self, ty: TyKind) -> bool {
        match ty {
            TyKind::Domain(r) => self.holds_domain(r),
            _ => true,
        }
    }

    pub open spec fn domain(self, r: DeclRef<DomainDecl>) -> DomainDeclView {
        self.domains[r.index as int]
    }

    pub open spec fn func(self, r: DeclRef<FuncDecl>) -> FuncDeclView {
        self.funcs[r.index as int]
    }

    pub open spec fn var(self, r: DeclRef<VarDecl>) -> VarDecl {
        self.vars[r.index as int]
    }

    /// The identifier that the declaration was given.
    pub open spec fn name_of(self, decl: DeclKind) -> Ident {
        match decl {
            DeclKind::VarDecl(r) => self.var(r).name,
            DeclKind::FuncDecl(r) => self.func(r).name,
            DeclKind::DomainDecl(r) => self.domain(r).name,
        }
    }

    /// A domain can be stored when it has a name and every member of its
    /// body is a declaration of this context.
    pub open spec fn admits_domain(self, decl: DomainDeclView) -> bool {
        &&& decl.name.name != Symbol::empty()
        &&& forall|i: int| 0 <= i < decl.body.len() ==> self.holds_member(#[trigger] decl.body[i])
    }

    /// A function can be stored when it has a name and its types name
    /// domains of this context only.
    pub open spec fn admits_func(self, decl: FuncDeclView) -> bool {
        &&& decl.name.name != Symbol::empty()
        &&& self.holds_ty(decl.output)
        &&& forall|i: int|
            0 <= i < decl.inputs.node.len() ==> self.holds_ty(*(#[trigger] decl.inputs.node[i]).ty)
    }

    /// A variable can be stored when it has a name and its type names a
    /// domain of this context only.
    pub open spec fn admits_var(self, decl: VarDecl) -> bool {
        &&& decl.name.name != Symbol::empty()
        &&& self.holds_ty(decl.ty)
    }

    /// The invariant of a context. Every stored declaration has a name and
    /// refers to stored declarations only, every bound name is bound to a
    /// stored declaration that goes by that name, and every position is a
    /// handle.
    pub open spec fn wf(self) -> bool {
        &&& self.domains.len() <= usize::MAX
        &&& self.funcs.len() <= usize::MAX
        &&& self.vars.len() <= usize::MAX
        &&& forall|i: int|
            0 <= i < self.domains.len() ==> self.admits_domain(#[trigger] self.domains[i])
        &&& forall|i: int| 0 <= i < self.funcs.len() ==> self.admits_func(#[trigger] self.funcs[i])
        &&& forall|i: int| 0 <= i < self.vars.len() ==> self.admits_var(#[trigger] self.vars[i])
        &&& forall|name: Symbol| #[trigger]
            self.declarations.contains_key(name) ==> {
                &&& self.holds(self.declarations[name])
                &&& self.name_of(self.declarations[name]).name == name
            }
    }

    /// The handle that the next stored domain gets.
    pub open spec fn next_domain(self) -> DeclRef<DomainDecl> {
        DeclRef::at(self.domains.len() as usize)
    }

    /// The handle that the next stored function gets.
    pub open spec fn next_func(self) -> DeclRef<FuncDecl> {
        DeclRef::at(self.funcs.len() as usize)
    }

    /// The handle that the next stored variable gets.
    pub open spec fn next_var(self) -> DeclRef<VarDecl> {
        DeclRef::at(self.vars.len() as usize)
    }

    pub open spec fn with_domain(self, decl: DomainDeclView) -> TyCtxView {
        TyCtxView { domains: self.domains.push(decl), ..self }
    }

    pub open spec fn with_func(self, decl: FuncDeclView) -> TyCtxView {
        TyCtxView { funcs: self.funcs.push(decl), ..self }
    }

    pub open spec fn with_var(self, decl: VarDecl) -> TyCtxView {
        TyCtxView { vars: self.vars.push(decl), ..self }
    }

    /// The context after `member` was appended to the body of `domain`.
    pub open spec fn with_member(self, domain: DeclRef<DomainDecl>, member: DomainSpec) -> TyCtxView {
        let decl = self.domain(domain);
        let longer = DomainDeclView { body: decl.body.push(member), ..decl };
        TyCtxView { domains: self.domains.update(domain.index as int, longer), ..self }
    }

    /// The context after the name of `decl` was bound to it.
    pub open spec fn declared(self, decl: DeclKind) -> TyCtxView {
        TyCtxView {
            declarations: self.declarations.insert(self.name_of(decl).name, decl),
            ..self
        }
    }

    pub open spec fn with_global(self, name: Symbol) -> TyCtxView {
        TyCtxView { globals: self.globals.insert(name), ..self }
    }

    /// The declaration that the name is bound to, if it is bound.
    pub open spec fn lookup(self, name: Symbol) -> Option<DeclKind> {
        if self.declarations.contains_key(name) {
            Some(self.declarations[name])
        } else {
            None
        }
    }
}

/// Every declaration of a context has a name: its symbol is not the empty
/// one, so in no table of names does it stand for the empty text. This holds
/// of the declarations that are bound and of those that they refer to.
pub proof fn lemma_declarations_are_named(cx: TyCtxView, decl: DeclKind, table: Seq<Seq<char>>)
    requires
        cx.wf(),
        cx.holds(decl),
        table_wf(table),
    ensures
        cx.name_of(decl).name != Symbol::empty(),
        text_of(table, cx.name_of(decl).name) != Some(Seq::<char>::empty()),
{
    match decl {
        DeclKind::VarDecl(r) => {
            assert(cx.admits_var(cx.vars[r.index as int]));
        },
        DeclKind::FuncDecl(r) => {
            assert(cx.admits_func(cx.funcs[r.index as int]));
        },
        DeclKind::DomainDecl(r) => {
            assert(cx.admits_domain(cx.domains[r.index as int]));
        },
    }
    crate::symbol::lemma_reserved_handles(table);
}

/// No two bound names are bound to the same declaration: a declaration is
/// known to the registry under its own name and no other.
pub proof fn lemma_one_name_per_declaration(cx: TyCtxView, a: Symbol, b: Symbol)
    requires
        cx.wf(),
        cx.lookup(a) is Some,
        cx.lookup(a) == cx.lookup(b),
    ensures
        a == b,
{
}

/// A domain has one body, whichever copy of its handle is used: what is
/// appended through one handle is found through every equal handle, and the
/// other domains, the names and the globals stay as they were.
pub proof fn lemma_member_seen_through_every_handle(
    cx: TyCtxView,
    writer: DeclRef<DomainDecl>,
    reader: DeclRef<DomainDecl>,
    member: DomainSpec,
)
    requires
        cx.wf(),
        cx.holds_domain(writer),
        cx.holds_domain(reader),
        cx.holds_member(member),
    ensures
        cx.with_member(writer, member).wf(),
        writer == reader ==> cx.with_member(writer, member).domain(reader).body == cx.domain(
            reader,
        ).body.push(member),
        writer != reader ==> cx.with_member(writer, member).domain(reader) == cx.domain(reader),
        cx.with_member(writer, member).declarations == cx.declarations,
        cx.with_member(writer, member).globals == cx.globals,
{
    let after = cx.with_member(writer, member);
    assert forall|i: int| 0 <= i < after.domains.len() implies after.admits_domain(
        #[trigger] after.domains[i],
    ) by {
        assert(cx.admits_domain(cx.domains[i]));
    }
    assert forall|i: int| 0 <= i < after.funcs.len() implies after.admits_func(
        #[trigger] after.funcs[i],
    ) by {
        assert(cx.admits_func(cx.funcs[i]));
    }
    assert forall|i: int| 0 <= i < after.vars.len() implies after.admits_var(
        #[trigger] after.vars[i],
    ) by {
        assert(cx.admits_var(cx.vars[i]));
    }
}

/// The registry of one compilation context, with the declarations it stores.
pub struct TyCtx {
    domains: Vec<DomainDecl>,
    funcs: Vec<FuncDecl>,
    vars: Vec<VarDecl>,
    declarations: HashMap<usize, DeclKind>,
    globals: HashSet<usize>,
}

impl View for TyCtx {
    type V = TyCtxView;

    closed spec fn view(&self) -> TyCtxView {
        TyCtxView {
            domains: Seq::new(self.domains@.len(), |i: int| self.domains@[i]@),
            funcs: Seq::new(self.funcs@.len(), |i: int| self.funcs@[i]@),
            vars: self.vars@,
            declarations: Map::new(
                |name: Symbol| self.declarations@.contains_key(name.index),
                |name: Symbol| self.declarations@[name.index],
            ),
            globals: Set::new(|name: Symbol| self.globals@.contains(name.index)),
        }
    }
}

impl TyCtx {
    /// The invariant of the context: see [`TyCtxView::wf`].
    pub open spec fn wf(&self) -> bool {
        self@.wf()
    }

    /// A fresh context: nothing stored, no name bound, no global.
    pub fn new() -> (tcx: TyCtx)
        ensures
            tcx.wf(),
            tcx@ == TyCtxView::empty(),
    {
        let tcx = TyCtx {
            domains: Vec::new(),
            funcs: Vec::new(),
            vars: Vec::new(),
            declarations: HashMap::new(),
            globals: HashSet::new(),
        };
        proof {
            assert(tcx@.domains =~= Seq::empty());
            assert(tcx@.funcs =~= Seq::empty());
            assert(tcx@.vars =~= Seq::empty());
            assert(tcx@.declarations =~= Map::empty());
            assert(tcx@.globals =~= Set::empty());
        }
        tcx
    }

    /// Whether the handle denotes a declaration of this context.
    pub fn holds(&self, decl: DeclKind) -> (r: bool)
        ensures
            r == self@.holds(decl),
    {
        match decl {
            DeclKind::VarDecl(r) => r.index < self.vars.len(),
            DeclKind::FuncDecl(r) => r.index < self.funcs.len(),
            DeclKind::DomainDecl(r) => r.index < self.domains.len(),
        }
    }

    /// Whether every domain that the type names is a declaration of this
    /// context.
    pub fn holds_ty(&self, ty: &TyKind) -> (r: bool)
        ensures
            r == self@.holds_ty(*ty),
    {
        match ty {
            TyKind::Domain(r) => r.index < self.domains.len(),
            _ => true,
        }
    }

    /// Whether `alloc_domain` takes the declaration.
    pub fn admits_domain(&self, decl: &DomainDecl) -> (r: bool)
        ensures
            r == self@.admits_domain(decl@),
    {
        if decl.name.name.is_empty() {
            return false;
        }
        let mut i: usize = 0;
        while i < decl.body.len()
            invariant
                i <= decl.body.len(),
                forall|j: int| 0 <= j < i ==> self@.holds_member(#[trigger] decl@.body[j]),
            decreases decl.body.len() - i,
        {
            match decl.body[i] {
                DomainSpec::Function(r) => {
                    if r.index >= self.funcs.len() {
                        assert(!self@.holds_member(decl@.body[i as int]));
                        return false;
                    }
                },
            }
            i = i + 1;
        }
        true
    }

    /// Whether `alloc_func` takes the declaration.
    pub fn admits_func(&self, decl: &FuncDecl) -> (r: bool)
        ensures
            r == self@.admits_func(decl@),
    {
        if decl.name.name.is_empty() || !self.holds_ty(&decl.output) {
            return false;
        }
        let mut i: usize = 0;
        while i < decl.inputs.node.len()
            invariant
                i <= decl.inputs.node.len(),
                forall|j: int|
                    0 <= j < i ==> self@.holds_ty(*(#[trigger] decl@.inputs.node[j]).ty),
            decreases decl.inputs.node.len() - i,
        {
            if !self.holds_ty(&*decl.inputs.node[i].ty) {
                assert(!self@.holds_ty(*decl@.inputs.node[i as int].ty));
                return false;
            }
            i = i + 1;
        }
        true
    }

    /// Whether `alloc_var` takes the declaration.
    pub fn admits_var(&self, decl: &VarDecl) -> (r: bool)
        ensures
            r == self@.admits_var(*decl),
    {
        !decl.name.name.is_empty() && self.holds_ty(&decl.ty)
    }

    /// Stores a domain and gives its handle. The domain is not yet declared:
    /// no name is bound by this.
    pub fn alloc_domain(&mut self, decl: DomainDecl) -> (r: DeclRef<DomainDecl>)
        requires
            old(self).wf(),
            old(self)@.admits_domain(decl@),
        ensures
            final(self).wf(),
            r == old(self)@.next_domain(),
            final(self)@ == old(self)@.with_domain(decl@),
    {
        let r = DeclRef::at(self.domains.len());
        self.domains.push(decl);
        proof {
            let before = old(self)@;
            assert(self@.domains =~= before.domains.push(decl@));
            assert(self@.funcs =~= before.funcs);
            assert(self@.declarations =~= before.declarations);
            assert(self@.globals =~= before.globals);
            assert(self@.domains.len() == self.domains.len());
            Self::lemma_grown(before, self@);
        }
        r
    }

    /// Stores a function and gives its handle.
    pub fn alloc_func(&mut self, decl: FuncDecl) -> (r: DeclRef<FuncDecl>)
        requires
            old(self).wf(),
            old(self)@.admits_func(decl@),
        ensures
            final(self).wf(),
            r == old(self)@.next_func(),
            final(self)@ == old(self)@.with_func(decl@),
    {
        let r = DeclRef::at(self.funcs.len());
        self.funcs.push(decl);
        proof {
            let before = old(self)@;
            assert(self@.domains =~= before.domains);
            assert(self@.funcs =~= before.funcs.push(decl@));
            assert(self@.declarations =~= before.declarations);
            assert(self@.globals =~= before.globals);
            assert(self@.funcs.len() == self.funcs.len());
            Self::lemma_grown(before, self@);
        }
        r
    }

    /// Stores a variable and gives its handle.
    pub fn alloc_var(&mut self, decl: VarDecl) -> (r: DeclRef<VarDecl>)
        requires
            old(self).wf(),
            old(self)@.admits_var(decl),
        ensures
            final(self).wf(),
            r == old(self)@.next_var(),
            final(self)@ == old(self)@.with_var(decl),
    {
        let r = DeclRef::at(self.vars.len());
        self.vars.push(decl);
        proof {
            let before = old(self)@;
            assert(self@.domains =~= before.domains);
            assert(self@.funcs =~= before.funcs);
            assert(self@.declarations =~= before.declarations);
            assert(self@.globals =~= before.globals);
            assert(self@.vars.len() == self.vars.len());
            Self::lemma_grown(before, self@);
        }
        r
    }

    /// A context stays well formed when declarations are added at the end of
    /// its stores, as long as each of them is admitted.
    proof fn lemma_grown(before: TyCtxView, after: TyCtxView)
        requires
            before.wf(),
            before.domains.is_prefix_of(after.domains),
            before.funcs.is_prefix_of(after.funcs),
            before.vars.is_prefix_of(after.vars),
            after.declarations == before.declarations,
            after.domains.len() <= usize::MAX,
            after.funcs.len() <= usize::MAX,
            after.vars.len() <= usize::MAX,
            forall|i: int|
                before.domains.len() <= i < after.domains.len() ==> before.admits_domain(
                    #[trigger] after.domains[i],
                ),
            forall|i: int|
                before.funcs.len() <= i < after.funcs.len() ==> before.admits_func(
                    #[trigger] after.funcs[i],
                ),
            forall|i: int|
                before.vars.len() <= i < after.vars.len() ==> before.admits_var(
                    #[trigger] after.vars[i],
                ),
        ensures
            after.wf(),
    {
        assert forall|i: int| 0 <= i < after.domains.len() implies after.admits_domain(
            #[trigger] after.domains[i],
        ) by {
            if i < before.domains.len() {
                assert(after.domains[i] == before.domains[i]);
                assert(before.admits_domain(before.domains[i]));
            }
        }
        assert forall|i: int| 0 <= i < after.funcs.len() implies after.admits_func(
            #[trigger] after.funcs[i],
        ) by {
            if i < before.funcs.len() {
                assert(after.funcs[i] == before.funcs[i]);
                assert(before.admits_func(before.funcs[i]));
            }
        }
        assert forall|i: int| 0 <= i < after.vars.len() implies after.admits_var(
            #[trigger] after.vars[i],
        ) by {
            if i < before.vars.len() {
                assert(after.vars[i] == before.vars[i]);
                assert(before.admits_var(before.vars[i]));
            }
        }
        assert forall|name: Symbol| #[trigger] after.declarations.contains_key(name) implies {
            &&& after.holds(after.declarations[name])
            &&& after.name_of(after.declarations[name]).name == name
        } by {
            let decl = before.declarations[name];
            assert(before.holds(decl));
            match decl {
                DeclKind::VarDecl(r) => {
                    assert(after.vars[r.index as int] == before.vars[r.index as int]);
                },
                DeclKind::FuncDecl(r) => {
                    assert(after.funcs[r.index as int] == before.funcs[r.index as int]);
                },
                DeclKind::DomainDecl(r) => {
                    assert(after.domains[r.index as int] == before.domains[r.index as int]);
                },
            }
        }
    }

    /// The domain behind a handle.
    pub fn domain(&self, r: DeclRef<DomainDecl>) -> (decl: &DomainDecl)
        requires
            self@.holds_domain(r),
        ensures
            decl@ == self@.domain(r),
    {
        &self.domains[r.index]
    }

    /// The function behind a handle.
    pub fn func(&self, r: DeclRef<FuncDecl>) -> (decl: &FuncDecl)
        requires
            self@.holds_func(r),
        ensures
            decl@ == self@.func(r),
    {
        &self.funcs[r.index]
    }

    /// The variable behind a handle.
    pub fn var(&self, r: DeclRef<VarDecl>) -> (decl: &VarDecl)
        requires
            self@.holds_var(r),
        ensures
            *decl == self@.var(r),
    {
        &self.vars[r.index]
    }

    /// The identifier that the declaration was given.
    pub fn name_of(&self, decl: DeclKind) -> (name: Ident)
        requires
            self@.holds(decl),
        ensures
            name == self@.name_of(decl),
    {
        match decl {
            DeclKind::VarDecl(r) => self.vars[r.index].name,
            DeclKind::FuncDecl(r) => self.funcs[r.index].name,
            DeclKind::DomainDecl(r) => self.domains[r.index].name,
        }
    }

    /// Appends a member to the body of a stored domain, in place: every
    /// holder of the domain's handle sees the longer body.
    pub fn push_domain_spec(&mut self, domain: DeclRef<DomainDecl>, member: DomainSpec)
        requires
            old(self).wf(),
            old(self)@.holds_domain(domain),
            old(self)@.holds_member(member),
        ensures
            final(self).wf(),
            final(self)@ == old(self)@.with_member(domain, member),
    {
        self.domains[domain.index].body.push(member);
        proof {
            let before = old(self)@;
            assert(self@.domains =~= before.with_member(domain, member).domains);
            assert(self@.funcs =~= before.funcs);
            assert(self@.declarations =~= before.declarations);
            assert(self@.globals =~= before.globals);
            lemma_member_seen_through_every_handle(before, domain, domain, member);
        }
    }

    /// Binds the name of a stored declaration to it. A name that is bound
    /// already is never bound anew: the call fails and changes nothing.
    pub fn declare(&mut self, decl: DeclKind) -> (res: Result<(), DeclError>)
        requires
            old(self).wf(),
            old(self)@.holds(decl),
        ensures
            final(self).wf(),
            match res {
                Ok(()) => {
                    &&& old(self)@.lookup(old(self)@.name_of(decl).name) is None
                    &&& final(self)@ == old(self)@.declared(decl)
                },
                Err(e) => {
                    &&& old(self)@.lookup(old(self)@.name_of(decl).name) is Some
                    &&& e == DeclError::DuplicateDeclaration(old(self)@.name_of(decl).name)
                    &&& final(self)@ == old(self)@
                },
            },
    {
        let name = self.name_of(decl).name;
        if self.declarations.contains_key(&name.index) {
            return Err(DeclError::DuplicateDeclaration(name));
        }
        self.declarations.insert(name.index, decl);
        proof {
            let before = old(self)@;
            assert(self@.domains =~= before.domains);
            assert(self@.funcs =~= before.funcs);
            assert(self@.declarations =~= before.declarations.insert(name, decl));
            assert(self@.globals =~= before.globals);
        }
        Ok(())
    }

    /// The declaration that the identifier's symbol is bound to, if it is
    /// bound. Where the identifier was written plays no part.
    pub fn get(&self, ident: Ident) -> (r: Option<DeclKind>)
        ensures
            r == self@.lookup(ident.name),
    {
        match self.declarations.get(&ident.name.index) {
            Some(decl) => Some(*decl),
            None => None,
        }
    }

    /// Marks the identifier's symbol as visible from every scope.
    pub fn add_global(&mut self, ident: Ident)
        ensures
            final(self)@ == old(self)@.with_global(ident.name),
            old(self).wf() ==> final(self).wf(),
    {
        self.globals.insert(ident.name.index);
        proof {
            let before = old(self)@;
            assert(self@.domains =~= before.domains);
            assert(self@.funcs =~= before.funcs);
            assert(self@.declarations =~= before.declarations);
            assert(self@.globals =~= before.globals.insert(ident.name));
        }
    }

    /// Whether the identifier's symbol is marked as visible from every scope.
    pub fn is_global(&self, ident: Ident) -> (r: bool)
        ensures
            r == self@.globals.contains(ident.name),
    {
        self.globals.contains(&ident.name.index)
    }
}

} // verus!
