//! The fuel domain.
//!
//! `Fuel` is a built-in domain of unary counters: `Z` is no fuel, `S(f)` is
//! one unit more than `f`. Its values bound how often the definition of a
//! recursive function is unfolded when proof obligations are made: each
//! unfolding takes one unit, and at `Z` it stops. This module puts the
//! domain, its two constructors and the two variables that range over it into
//! a context, before anything else is declared there.

use crate::ast::{
    DeclKind, DeclRef, DomainDecl, DomainDeclView, DomainSpec, FuncDecl, FuncDeclView, Ident,
    Param, Span, Spanned, TyKind, VarDecl, VarKind,
};
use crate::symbol::Symbol;
use crate::tyctx::{DeclError, TyCtx, TyCtxView};
use vstd::prelude::*;

verus! {

/// The identifier of the fuel domain.
#[verifier::allow_in_spec]
pub fn fuel_ident() -> Ident
    returns
        Ident::with_dummy_span(Symbol::fuel()),
{
    Ident::with_dummy_span(Symbol::fuel())
}

/// The handles of the fuel declarations.
pub struct FuelDecls {
    pub domain: DeclRef<DomainDecl>,
    pub zero: DeclRef<FuncDecl>,
    pub succ: DeclRef<FuncDecl>,
    pub input: DeclRef<VarDecl>,
    pub quant: DeclRef<VarDecl>,
}

/// The handles that the fuel declarations get when they are put into `cx`.
pub open spec fn fuel_decls(cx: TyCtxView) -> FuelDecls {
    FuelDecls {
        domain: cx.next_domain(),
        zero: cx.next_func(),
        succ: DeclRef::at((cx.funcs.len() + 1) as usize),
        input: cx.next_var(),
        quant: DeclRef::at((cx.vars.len() + 1) as usize),
    }
}

/// The domain `Fuel` with its two constructors.
pub open spec fn fuel_domain_decl(zero: DeclRef<FuncDecl>, succ: DeclRef<FuncDecl>) -> DomainDeclView {
    DomainDeclView {
        name: fuel_ident(),
        span: Span::Synthetic,
        body: seq![DomainSpec::Function(zero), DomainSpec::Function(succ)],
    }
}

/// The constructor `Z`: no argument, a value of the domain.
pub open spec fn zero_decl(domain: DeclRef<DomainDecl>) -> FuncDeclView {
    FuncDeclView {
        name: Ident::with_dummy_span(Symbol::zero()),
        span: Span::Synthetic,
        inputs: Spanned { node: Seq::empty(), span: Span::Synthetic },
        output: TyKind::Domain(domain),
        body: None,
    }
}

/// The one parameter of `S`: a value `f` of the domain.
pub open spec fn succ_param(domain: DeclRef<DomainDecl>) -> Param {
    Param {
        name: Ident::with_dummy_span(Symbol::fuel_input()),
        span: Span::Synthetic,
        ty: Box::new(TyKind::Domain(domain)),
        literal_only: false,
    }
}

/// The constructor `S`: from a value of the domain to a value of the domain.
pub open spec fn succ_decl(domain: DeclRef<DomainDecl>) -> FuncDeclView {
    FuncDeclView {
        name: Ident::with_dummy_span(Symbol::succ()),
        span: Span::Synthetic,
        inputs: Spanned { node: seq![succ_param(domain)], span: Span::Synthetic },
        output: TyKind::Domain(domain),
        body: None,
    }
}

/// The input variable `f` of the domain.
pub open spec fn fuel_input_decl(domain: DeclRef<DomainDecl>) -> VarDecl {
    VarDecl {
        name: Ident::with_dummy_span(Symbol::fuel_input()),
        ty: TyKind::Domain(domain),
        kind: VarKind::Input,
        span: Span::Synthetic,
        init: None,
        created_from: None,
    }
}

/// The quantified variable `fuel` of the domain.
pub open spec fn fuel_quant_decl(domain: DeclRef<DomainDecl>) -> VarDecl {
    VarDecl {
        name: Ident::with_dummy_span(Symbol::fuel_quant()),
        ty: TyKind::Domain(domain),
        kind: VarKind::Quant,
        span: Span::Synthetic,
        init: None,
        created_from: None,
    }
}

/// The first of the five fuel names that is bound in `cx`, in the order in
/// which they are declared, if one is.
pub open spec fn taken_fuel_name(cx: TyCtxView) -> Option<Symbol> {
    if cx.declarations.contains_key(Symbol::fuel()) {
        Some(Symbol::fuel())
    } else if cx.declarations.contains_key(Symbol::zero()) {
        Some(Symbol::zero())
    } else if cx.declarations.contains_key(Symbol::succ()) {
        Some(Symbol::succ())
    } else if cx.declarations.contains_key(Symbol::fuel_input()) {
        Some(Symbol::fuel_input())
    } else if cx.declarations.contains_key(Symbol::fuel_quant()) {
        Some(Symbol::fuel_quant())
    } else {
        None
    }
}

/// How far the bootstrap of a context has come. It goes through the phases
/// in this order and leaves none out.
pub enum Phase {
    /// Nothing has been done.
    Uninitialized,
    /// The domain is stored, with an empty body.
    Constructing,
    /// The constructors are stored and listed in the domain's body.
    Populated,
    /// The variables are stored, and the five names are bound.
    Registered,
    /// The domain and its constructors are global.
    Done,
}

/// The context once the domain is stored: its body is empty, and nothing
/// else has changed.
pub open spec fn constructing(cx: TyCtxView) -> TyCtxView {
    let fuel = fuel_decls(cx);
    let empty = DomainDeclView { body: Seq::empty(), ..fuel_domain_decl(fuel.zero, fuel.succ) };
    TyCtxView { domains: cx.domains.push(empty), ..cx }
}

/// The context once the constructors are stored and listed in the body of
/// the domain. No name is bound yet.
pub open spec fn populated(cx: TyCtxView) -> TyCtxView {
    let fuel = fuel_decls(cx);
    TyCtxView {
        domains: cx.domains.push(fuel_domain_decl(fuel.zero, fuel.succ)),
        funcs: cx.funcs.push(zero_decl(fuel.domain)).push(succ_decl(fuel.domain)),
        ..cx
    }
}

/// The context once the variables are stored too and each of the five
/// declarations is bound to its name.
pub open spec fn registered(cx: TyCtxView) -> TyCtxView {
    let fuel = fuel_decls(cx);
    TyCtxView {
        vars: cx.vars.push(fuel_input_decl(fuel.domain)).push(fuel_quant_decl(fuel.domain)),
        declarations: cx.declarations.insert(
            Symbol::fuel(),
            DeclKind::DomainDecl(fuel.domain),
        ).insert(Symbol::zero(), DeclKind::FuncDecl(fuel.zero)).insert(
            Symbol::succ(),
            DeclKind::FuncDecl(fuel.succ),
        ).insert(Symbol::fuel_input(), DeclKind::VarDecl(fuel.input)).insert(
            Symbol::fuel_quant(),
            DeclKind::VarDecl(fuel.quant),
        ),
        ..populated(cx)
    }
}

/// The context `cx` with the fuel declarations: stored behind the stored
/// declarations of `cx`, bound to their names, the domain and its
/// constructors global.
pub open spec fn with_fuel_domain(cx: TyCtxView) -> TyCtxView {
    TyCtxView {
        globals: cx.globals.insert(Symbol::fuel()).insert(Symbol::zero()).insert(Symbol::succ()),
        ..registered(cx)
    }
}

/// The context that the bootstrap has made of `cx` when it has reached
/// `phase`.
pub open spec fn at_phase(cx: TyCtxView, phase: Phase) -> TyCtxView {
    match phase {
        Phase::Uninitialized => cx,
        Phase::Constructing => constructing(cx),
        Phase::Populated => populated(cx),
        Phase::Registered => registered(cx),
        Phase::Done => with_fuel_domain(cx),
    }
}

/// The first of the five fuel names that is bound in the context.
fn taken_fuel_name_in(tcx: &TyCtx) -> (r: Option<Symbol>)
    ensures
        r == taken_fuel_name(tcx@),
{
    if tcx.get(fuel_ident()).is_some() {
        Some(Symbol::fuel())
    } else if tcx.get(Ident::with_dummy_span(Symbol::zero())).is_some() {
        Some(Symbol::zero())
    } else if tcx.get(Ident::with_dummy_span(Symbol::succ())).is_some() {
        Some(Symbol::succ())
    } else if tcx.get(Ident::with_dummy_span(Symbol::fuel_input())).is_some() {
        Some(Symbol::fuel_input())
    } else if tcx.get(Ident::with_dummy_span(Symbol::fuel_quant())).is_some() {
        Some(Symbol::fuel_quant())
    } else {
        None
    }
}

/// Initializes the fuel domain for this context.
///
/// The five declarations go in together or not at all. If one of their names
/// is bound already, nothing is stored, bound or marked, and the error names
/// the first such name. That is also what happens on a second call.
pub fn init_limited(tcx: &mut TyCtx) -> (res: Result<(), DeclError>)
    requires
        old(tcx).wf(),
    ensures
        final(tcx).wf(),
        match res {
            Ok(()) => {
                &&& taken_fuel_name(old(tcx)@) is None
                &&& final(tcx)@ == with_fuel_domain(old(tcx)@)
            },
            Err(e) => {
                &&& taken_fuel_name(old(tcx)@) is Some
                &&& e == DeclError::DuplicateDeclaration(taken_fuel_name(old(tcx)@).unwrap())
                &&& final(tcx)@ == old(tcx)@
            },
        },
{
    if let Some(name) = taken_fuel_name_in(tcx) {
        return Err(DeclError::DuplicateDeclaration(name));
    }
    let ghost before = tcx@;

    let fuel_name = fuel_ident();
    let z_name = Ident::with_dummy_span(Symbol::zero());
    let s_name = Ident::with_dummy_span(Symbol::succ());

    let domain_decl = DomainDecl { name: fuel_name, span: Span::dummy_span(), body: vec![] };
    assert(domain_decl@.body =~= Seq::empty());
    let fuel_domain = tcx.alloc_domain(domain_decl);
    let fuel_domain_ty = TyKind::Domain(fuel_domain);
    assert(tcx@ == at_phase(before, Phase::Constructing));

    let z_decl = FuncDecl {
        name: z_name,
        span: Span::dummy_span(),
        inputs: Spanned::with_dummy_span(vec![]),
        output: fuel_domain_ty,
        body: None,
    };
    assert(z_decl@.inputs.node =~= Seq::empty());
    let z_function = tcx.alloc_func(z_decl);
    let s_decl = FuncDecl {
        name: s_name,
        span: Span::dummy_span(),
        inputs: Spanned::with_dummy_span(
            vec![
                Param {
                    name: Ident::with_dummy_span(Symbol::fuel_input()),
                    span: Span::dummy_span(),
                    literal_only: false,
                    ty: Box::new(fuel_domain_ty),
                },
            ],
        ),
        output: fuel_domain_ty,
        body: None,
    };
    assert(s_decl@.inputs.node =~= seq![succ_param(fuel_domain)]);
    let s_function = tcx.alloc_func(s_decl);

    tcx.push_domain_spec(fuel_domain, DomainSpec::Function(z_function));
    tcx.push_domain_spec(fuel_domain, DomainSpec::Function(s_function));
    proof {
        let populated = at_phase(before, Phase::Populated);
        assert(tcx@.domain(fuel_domain).body =~= fuel_domain_decl(z_function, s_function).body);
        assert(tcx@.domains =~= populated.domains);
        assert(tcx@ == populated);
    }

    tcx.declare(DeclKind::DomainDecl(fuel_domain))?;
    tcx.declare(DeclKind::FuncDecl(z_function))?;
    tcx.declare(DeclKind::FuncDecl(s_function))?;
    let f_var = tcx.alloc_var(
        VarDecl {
            name: Ident::with_dummy_span(Symbol::fuel_input()),
            ty: fuel_domain_ty,
            kind: VarKind::Input,
            span: Span::dummy_span(),
            init: None,
            created_from: None,
        },
    );
    tcx.declare(DeclKind::VarDecl(f_var))?;
    let fuel_var = tcx.alloc_var(
        VarDecl {
            name: Ident::with_dummy_span(Symbol::fuel_quant()),
            ty: fuel_domain_ty,
            kind: VarKind::Quant,
            span: Span::dummy_span(),
            init: None,
            created_from: None,
        },
    );
    tcx.declare(DeclKind::VarDecl(fuel_var))?;
    assert(tcx@ == at_phase(before, Phase::Registered));

    tcx.add_global(fuel_name);
    tcx.add_global(z_name);
    tcx.add_global(s_name);
    assert(tcx@ == at_phase(before, Phase::Done));
    Ok(())
}

/// Whether the name `Fuel` is bound to a domain.
pub open spec fn has_fuel_domain(cx: TyCtxView) -> bool {
    cx.lookup(Symbol::fuel()) matches Some(DeclKind::DomainDecl(_))
}

/// The domain that a built-in name is bound to. Where the name is not bound,
/// or is bound to something that is no domain, the built-in is unresolved.
pub fn lookup_builtin_domain(tcx: &TyCtx, name: Ident) -> (res: Result<
    DeclRef<DomainDecl>,
    DeclError,
>)
    ensures
        match res {
            Ok(domain) => tcx@.lookup(name.name) == Some(DeclKind::DomainDecl(domain)),
            Err(e) => {
                &&& e == DeclError::UnresolvedBuiltin(name.name)
                &&& !(tcx@.lookup(name.name) matches Some(DeclKind::DomainDecl(_)))
            },
        },
{
    match tcx.get(name) {
        Some(DeclKind::DomainDecl(domain)) => Ok(domain),
        _ => Err(DeclError::UnresolvedBuiltin(name.name)),
    }
}

/// The fuel domain of a context in which it was initialized. The handle is
/// the one that `get` gives for the domain's name.
pub fn get_fuel_domain(tcx: &TyCtx) -> (domain: DeclRef<DomainDecl>)
    requires
        has_fuel_domain(tcx@),
    ensures
        tcx@.lookup(Symbol::fuel()) == Some(DeclKind::DomainDecl(domain)),
        tcx.wf() ==> tcx@.holds_domain(domain),
{
    lookup_builtin_domain(tcx, fuel_ident()).unwrap()
}

/// The bootstrap of a fresh context succeeds: none of the fuel names is
/// bound there.
pub proof fn lemma_fresh_context_is_free()
    ensures
        TyCtxView::empty().wf(),
        taken_fuel_name(TyCtxView::empty()) is None,
        with_fuel_domain(TyCtxView::empty()).wf(),
{
    lemma_phases_well_formed(TyCtxView::empty());
}

/// Every phase of the bootstrap leaves a well-formed context behind, as long
/// as the stores have room for the new declarations.
pub proof fn lemma_phases_well_formed(cx: TyCtxView)
    requires
        cx.wf(),
        cx.domains.len() + 1 <= usize::MAX,
        cx.funcs.len() + 2 <= usize::MAX,
        cx.vars.len() + 2 <= usize::MAX,
    ensures
        constructing(cx).wf(),
        populated(cx).wf(),
        registered(cx).wf(),
        with_fuel_domain(cx).wf(),
{
    let fuel = fuel_decls(cx);
    let c = constructing(cx);
    assert forall|i: int| 0 <= i < c.domains.len() implies c.admits_domain(
        #[trigger] c.domains[i],
    ) by {
        if i < cx.domains.len() {
            assert(cx.admits_domain(cx.domains[i]));
        }
    }
    assert forall|i: int| 0 <= i < c.funcs.len() implies c.admits_func(#[trigger] c.funcs[i]) by {
        assert(cx.admits_func(cx.funcs[i]));
    }
    assert forall|i: int| 0 <= i < c.vars.len() implies c.admits_var(#[trigger] c.vars[i]) by {
        assert(cx.admits_var(cx.vars[i]));
    }
    assert(c.wf());
    let p = populated(cx);
    assert forall|i: int| 0 <= i < p.domains.len() implies p.admits_domain(
        #[trigger] p.domains[i],
    ) by {
        if i < cx.domains.len() {
            assert(cx.admits_domain(cx.domains[i]));
        }
    }
    assert forall|i: int| 0 <= i < p.funcs.len() implies p.admits_func(#[trigger] p.funcs[i]) by {
        if i < cx.funcs.len() {
            assert(cx.admits_func(cx.funcs[i]));
        }
    }
    assert forall|i: int| 0 <= i < p.vars.len() implies p.admits_var(#[trigger] p.vars[i]) by {
        assert(cx.admits_var(cx.vars[i]));
    }
    assert(p.wf());
    let r = registered(cx);
    assert forall|i: int| 0 <= i < r.domains.len() implies r.admits_domain(
        #[trigger] r.domains[i],
    ) by {
        assert(p.admits_domain(p.domains[i]));
    }
    assert forall|i: int| 0 <= i < r.funcs.len() implies r.admits_func(#[trigger] r.funcs[i]) by {
        assert(p.admits_func(p.funcs[i]));
    }
    assert forall|i: int| 0 <= i < r.vars.len() implies r.admits_var(#[trigger] r.vars[i]) by {
        if i < cx.vars.len() {
            assert(cx.admits_var(cx.vars[i]));
        }
    }
    assert forall|name: Symbol| #[trigger] r.declarations.contains_key(name) implies {
        &&& r.holds(r.declarations[name])
        &&& r.name_of(r.declarations[name]).name == name
    } by {
        if cx.declarations.contains_key(name) {
            assert(cx.holds(cx.declarations[name]));
        }
    }
    assert(r.wf());
}

/// After the bootstrap the name `Fuel` is bound to a domain whose body lists
/// exactly two functions. They go by different names, and each returns the
/// domain itself: its output type holds the very handle that the name is
/// bound to.
pub proof fn lemma_fuel_domain_shape(cx: TyCtxView)
    requires
        cx.wf(),
        with_fuel_domain(cx).wf(),
    ensures
        ({
            let after = with_fuel_domain(cx);
            let fuel = fuel_decls(cx);
            &&& after.lookup(fuel_ident().name) == Some(DeclKind::DomainDecl(fuel.domain))
            &&& after.holds_domain(fuel.domain)
            &&& after.domain(fuel.domain).body == seq![
                DomainSpec::Function(fuel.zero),
                DomainSpec::Function(fuel.succ),
            ]
            &&& after.holds_func(fuel.zero)
            &&& after.holds_func(fuel.succ)
            &&& fuel.zero != fuel.succ
            &&& after.func(fuel.zero).name.name != after.func(fuel.succ).name.name
            &&& after.func(fuel.zero).output == TyKind::Domain(fuel.domain)
            &&& after.func(fuel.succ).output == TyKind::Domain(fuel.domain)
        }),
{
}

/// The bootstrap runs at most once: in a context that has been through it,
/// `Fuel` is the first of the fuel names that is taken. So a second
/// `init_limited` fails with a duplicate of `Fuel` and leaves the context as
/// the first call made it.
pub proof fn lemma_bootstrap_at_most_once(cx: TyCtxView)
    ensures
        taken_fuel_name(with_fuel_domain(cx)) == Some(Symbol::fuel()),
        has_fuel_domain(with_fuel_domain(cx)),
{
}

/// The handle that `get` gives for the name `Fuel` and the handle that
/// `get_fuel_domain` gives are one handle. A member appended through it is
/// seen by whoever reads the body through either.
pub proof fn lemma_fuel_handles_agree(
    cx: TyCtxView,
    by_name: DeclRef<DomainDecl>,
    by_builtin: DeclRef<DomainDecl>,
    member: DomainSpec,
)
    requires
        cx.wf(),
        cx.lookup(fuel_ident().name) == Some(DeclKind::DomainDecl(by_name)),
        cx.lookup(Symbol::fuel()) == Some(DeclKind::DomainDecl(by_builtin)),
        cx.holds_member(member),
    ensures
        by_name == by_builtin,
        cx.holds_domain(by_name),
        cx.with_member(by_name, member).domain(by_builtin).body == cx.domain(by_builtin).body.push(
            member,
        ),
        cx.with_member(by_builtin, member).domain(by_name).body == cx.domain(by_name).body.push(
            member,
        ),
{
    assert(cx.holds(cx.declarations[Symbol::fuel()]));
}

/// After the bootstrap the names of the domain and of its two constructors
/// are bound and global: they resolve from every scope, with no import.
pub proof fn lemma_fuel_names_global(cx: TyCtxView)
    ensures
        ({
            let after = with_fuel_domain(cx);
            let fuel = fuel_decls(cx);
            &&& after.lookup(Symbol::fuel()) == Some(DeclKind::DomainDecl(fuel.domain))
            &&& after.lookup(Symbol::zero()) == Some(DeclKind::FuncDecl(fuel.zero))
            &&& after.lookup(Symbol::succ()) == Some(DeclKind::FuncDecl(fuel.succ))
            &&& after.globals.contains(Symbol::fuel())
            &&& after.globals.contains(Symbol::zero())
            &&& after.globals.contains(Symbol::succ())
        }),
{
}

/// The bootstrap binds nothing before it registers and marks nothing global
/// before it is done: a lookup in between finds what it found before.
pub proof fn lemma_names_bound_late(cx: TyCtxView, phase: Phase)
    ensures
        phase is Uninitialized || phase is Constructing || phase is Populated ==> at_phase(
            cx,
            phase,
        ).declarations == cx.declarations,
        !(phase is Done) ==> at_phase(cx, phase).globals == cx.globals,
{
}

/// The bootstrap leaves what the context held alone: the stored declarations
/// keep their places, and every other name is bound as it was.
pub proof fn lemma_bootstrap_keeps_context(cx: TyCtxView, name: Symbol)
    requires
        name != Symbol::fuel(),
        name != Symbol::zero(),
        name != Symbol::succ(),
        name != Symbol::fuel_input(),
        name != Symbol::fuel_quant(),
    ensures
        with_fuel_domain(cx).lookup(name) == cx.lookup(name),
        cx.domains.is_prefix_of(with_fuel_domain(cx).domains),
        cx.funcs.is_prefix_of(with_fuel_domain(cx).funcs),
        cx.vars.is_prefix_of(with_fuel_domain(cx).vars),
{
}

} // verus!
