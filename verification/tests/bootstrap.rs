use decl_registry::ast::{
    DeclKind, DeclRef, DomainDecl, DomainSpec, FuncDecl, Ident, Param, Span, Spanned, TyKind,
    VarDecl, VarKind,
};
use decl_registry::limited::{fuel_ident, get_fuel_domain, init_limited, lookup_builtin_domain};
use decl_registry::symbol::{Interner, Symbol};
use decl_registry::tyctx::{DeclError, TyCtx};

fn ident(name: Symbol) -> Ident {
    Ident::with_dummy_span(name)
}

fn user_var(tcx: &mut TyCtx, name: Symbol, kind: VarKind) -> DeclRef<VarDecl> {
    let decl = VarDecl {
        name: ident(name),
        ty: TyKind::Int,
        kind,
        span: Span::new(10, 12),
        init: None,
        created_from: None,
    };
    assert!(tcx.admits_var(&decl));
    tcx.alloc_var(decl)
}

fn user_func(tcx: &mut TyCtx, name: Symbol) -> DeclRef<FuncDecl> {
    let decl = FuncDecl {
        name: ident(name),
        span: Span::new(0, 4),
        inputs: Spanned::with_dummy_span(vec![]),
        output: TyKind::Bool,
        body: None,
    };
    assert!(tcx.admits_func(&decl));
    tcx.alloc_func(decl)
}

/// What a lookup of each fuel name gives, and which of them are global.
fn fuel_bindings(tcx: &TyCtx) -> Vec<(Option<DeclKind>, bool)> {
    let names = [
        Symbol::fuel(),
        Symbol::zero(),
        Symbol::succ(),
        Symbol::fuel_input(),
        Symbol::fuel_quant(),
    ];
    names.iter().map(|name| (tcx.get(ident(*name)), tcx.is_global(ident(*name)))).collect()
}

#[test]
fn fuel_ident_is_the_reserved_name_without_a_place() {
    assert_eq!(fuel_ident(), Ident { name: Symbol { index: 1 }, span: Span::Synthetic });
    assert_eq!(fuel_ident().name, Symbol::fuel());
    assert!(fuel_ident().span.is_dummy());
}

#[test]
fn fresh_context_gets_the_fuel_domain() {
    let mut tcx = TyCtx::new();
    assert_eq!(init_limited(&mut tcx), Ok(()));

    let domain = match tcx.get(fuel_ident()) {
        Some(DeclKind::DomainDecl(domain)) => domain,
        other => panic!("expected a domain, found {:?}", other),
    };
    assert_eq!(domain, DeclRef::at(0));
    let decl = tcx.domain(domain);
    assert_eq!(decl.name, fuel_ident());
    assert_eq!(decl.span, Span::Synthetic);
    assert_eq!(decl.body.len(), 2);

    let DomainSpec::Function(zero) = decl.body[0];
    let DomainSpec::Function(succ) = decl.body[1];
    assert_eq!(zero, DeclRef::at(0));
    assert_eq!(succ, DeclRef::at(1));
    assert_ne!(zero, succ);

    let zero_decl = tcx.func(zero);
    let succ_decl = tcx.func(succ);
    assert_eq!(zero_decl.name.name, Symbol::zero());
    assert_eq!(succ_decl.name.name, Symbol::succ());
    assert_ne!(zero_decl.name.name, succ_decl.name.name);
    assert_eq!(zero_decl.output, TyKind::Domain(domain));
    assert_eq!(succ_decl.output, TyKind::Domain(domain));
    assert!(zero_decl.body.is_none());
    assert!(succ_decl.body.is_none());

    assert!(zero_decl.inputs.node.is_empty());
    assert_eq!(succ_decl.inputs.node.len(), 1);
    let param = &succ_decl.inputs.node[0];
    assert_eq!(param.name.name, Symbol::fuel_input());
    assert_eq!(*param.ty, TyKind::Domain(domain));
    assert!(!param.literal_only);
}

#[test]
fn bootstrap_declares_the_two_variables() {
    let mut tcx = TyCtx::new();
    assert_eq!(init_limited(&mut tcx), Ok(()));
    let domain = get_fuel_domain(&tcx);

    let input = match tcx.get(ident(Symbol::fuel_input())) {
        Some(DeclKind::VarDecl(var)) => var,
        other => panic!("expected a variable, found {:?}", other),
    };
    let quant = match tcx.get(ident(Symbol::fuel_quant())) {
        Some(DeclKind::VarDecl(var)) => var,
        other => panic!("expected a variable, found {:?}", other),
    };
    assert_eq!(
        *tcx.var(input),
        VarDecl {
            name: ident(Symbol::fuel_input()),
            ty: TyKind::Domain(domain),
            kind: VarKind::Input,
            span: Span::Synthetic,
            init: None,
            created_from: None,
        }
    );
    assert_eq!(
        *tcx.var(quant),
        VarDecl {
            name: ident(Symbol::fuel_quant()),
            ty: TyKind::Domain(domain),
            kind: VarKind::Quant,
            span: Span::Synthetic,
            init: None,
            created_from: None,
        }
    );
}

#[test]
fn second_bootstrap_fails_and_changes_nothing() {
    let mut tcx = TyCtx::new();
    assert_eq!(init_limited(&mut tcx), Ok(()));
    let bindings = fuel_bindings(&tcx);
    let domain = get_fuel_domain(&tcx);
    let body = tcx.domain(domain).body.clone();

    assert_eq!(
        init_limited(&mut tcx),
        Err(DeclError::DuplicateDeclaration(Symbol::fuel()))
    );

    assert_eq!(fuel_bindings(&tcx), bindings);
    assert_eq!(get_fuel_domain(&tcx), domain);
    assert_eq!(tcx.domain(domain).body, body);
    // Nothing was stored by the failed call: the next declarations of each
    // kind get the handles that follow those of the first call.
    assert_eq!(user_func(&mut tcx, Symbol { index: 40 }), DeclRef::at(2));
    assert_eq!(user_var(&mut tcx, Symbol { index: 41 }, VarKind::Local), DeclRef::at(2));
    let later = DomainDecl { name: ident(Symbol { index: 42 }), span: Span::Synthetic, body: vec![] };
    assert_eq!(tcx.alloc_domain(later), DeclRef::at(1));
}

#[test]
fn both_ways_to_the_fuel_domain_give_one_handle() {
    let mut tcx = TyCtx::new();
    assert_eq!(init_limited(&mut tcx), Ok(()));
    let by_name = match tcx.get(fuel_ident()) {
        Some(DeclKind::DomainDecl(domain)) => domain,
        other => panic!("expected a domain, found {:?}", other),
    };
    let by_builtin = get_fuel_domain(&tcx);
    assert_eq!(by_name, by_builtin);
    assert_eq!(lookup_builtin_domain(&tcx, fuel_ident()), Ok(by_name));

    let extra = user_func(&mut tcx, Symbol { index: 17 });
    tcx.push_domain_spec(by_name, DomainSpec::Function(extra));
    assert_eq!(tcx.domain(by_builtin).body.len(), 3);
    assert_eq!(tcx.domain(by_builtin).body[2], DomainSpec::Function(extra));

    let more = user_func(&mut tcx, Symbol { index: 18 });
    tcx.push_domain_spec(by_builtin, DomainSpec::Function(more));
    assert_eq!(tcx.domain(by_name).body.len(), 4);
    assert_eq!(tcx.domain(by_name).body[3], DomainSpec::Function(more));
    // The name still leads to the same handle.
    assert_eq!(tcx.get(fuel_ident()), Some(DeclKind::DomainDecl(by_name)));
}

#[test]
fn fuel_names_resolve_and_are_global() {
    let mut tcx = TyCtx::new();
    for name in [Symbol::fuel(), Symbol::zero(), Symbol::succ()] {
        assert_eq!(tcx.get(ident(name)), None);
        assert!(!tcx.is_global(ident(name)));
    }
    assert_eq!(init_limited(&mut tcx), Ok(()));
    assert_eq!(tcx.get(ident(Symbol::fuel())), Some(DeclKind::DomainDecl(DeclRef::at(0))));
    assert_eq!(tcx.get(ident(Symbol::zero())), Some(DeclKind::FuncDecl(DeclRef::at(0))));
    assert_eq!(tcx.get(ident(Symbol::succ())), Some(DeclKind::FuncDecl(DeclRef::at(1))));
    for name in [Symbol::fuel(), Symbol::zero(), Symbol::succ()] {
        assert!(tcx.is_global(ident(name)));
    }
    // The variables are declared, but not global.
    assert_eq!(tcx.get(ident(Symbol::fuel_input())), Some(DeclKind::VarDecl(DeclRef::at(0))));
    assert_eq!(tcx.get(ident(Symbol::fuel_quant())), Some(DeclKind::VarDecl(DeclRef::at(1))));
    assert!(!tcx.is_global(ident(Symbol::fuel_input())));
    assert!(!tcx.is_global(ident(Symbol::fuel_quant())));
}

#[test]
fn bootstrap_is_refused_when_a_fuel_name_is_taken() {
    let mut tcx = TyCtx::new();
    let taken = user_func(&mut tcx, Symbol::succ());
    assert_eq!(tcx.declare(DeclKind::FuncDecl(taken)), Ok(()));
    let bindings = fuel_bindings(&tcx);

    assert_eq!(
        init_limited(&mut tcx),
        Err(DeclError::DuplicateDeclaration(Symbol::succ()))
    );

    // Not one of the fuel declarations went in.
    assert_eq!(fuel_bindings(&tcx), bindings);
    assert_eq!(tcx.get(fuel_ident()), None);
    assert_eq!(tcx.get(ident(Symbol::succ())), Some(DeclKind::FuncDecl(taken)));
    assert_eq!(
        lookup_builtin_domain(&tcx, fuel_ident()),
        Err(DeclError::UnresolvedBuiltin(Symbol::fuel()))
    );
    assert_eq!(user_func(&mut tcx, Symbol { index: 40 }), DeclRef::at(1));
    let later = DomainDecl { name: ident(Symbol { index: 42 }), span: Span::Synthetic, body: vec![] };
    assert_eq!(tcx.alloc_domain(later), DeclRef::at(0));
}

#[test]
fn the_first_taken_fuel_name_is_reported() {
    let mut tcx = TyCtx::new();
    let quant = user_var(&mut tcx, Symbol::fuel_quant(), VarKind::Local);
    assert_eq!(tcx.declare(DeclKind::VarDecl(quant)), Ok(()));
    assert_eq!(
        init_limited(&mut tcx),
        Err(DeclError::DuplicateDeclaration(Symbol::fuel_quant()))
    );
    let input = user_var(&mut tcx, Symbol::fuel_input(), VarKind::Local);
    assert_eq!(tcx.declare(DeclKind::VarDecl(input)), Ok(()));
    assert_eq!(
        init_limited(&mut tcx),
        Err(DeclError::DuplicateDeclaration(Symbol::fuel_input()))
    );
    let zero = user_func(&mut tcx, Symbol::zero());
    assert_eq!(tcx.declare(DeclKind::FuncDecl(zero)), Ok(()));
    assert_eq!(
        init_limited(&mut tcx),
        Err(DeclError::DuplicateDeclaration(Symbol::zero()))
    );
}

#[test]
fn bootstrap_after_other_declarations_keeps_them() {
    let mut interner = Interner::new();
    let mut tcx = TyCtx::new();
    let x = interner.intern("x");
    let helper = interner.intern("helper");
    let x_var = user_var(&mut tcx, x, VarKind::Local);
    let helper_func = user_func(&mut tcx, helper);
    assert_eq!(tcx.declare(DeclKind::VarDecl(x_var)), Ok(()));
    assert_eq!(tcx.declare(DeclKind::FuncDecl(helper_func)), Ok(()));

    assert_eq!(init_limited(&mut tcx), Ok(()));

    assert_eq!(tcx.get(ident(x)), Some(DeclKind::VarDecl(x_var)));
    assert_eq!(tcx.get(ident(helper)), Some(DeclKind::FuncDecl(helper_func)));
    assert_eq!(tcx.var(x_var).kind, VarKind::Local);
    assert_eq!(tcx.func(helper_func).output, TyKind::Bool);
    assert!(!tcx.is_global(ident(x)));
    // The fuel declarations stand behind the ones that were there.
    assert_eq!(get_fuel_domain(&tcx), DeclRef::at(0));
    assert_eq!(tcx.get(ident(Symbol::zero())), Some(DeclKind::FuncDecl(DeclRef::at(1))));
    assert_eq!(tcx.get(ident(Symbol::succ())), Some(DeclKind::FuncDecl(DeclRef::at(2))));
    assert_eq!(tcx.get(ident(Symbol::fuel_input())), Some(DeclKind::VarDecl(DeclRef::at(1))));
    assert_eq!(tcx.get(ident(Symbol::fuel_quant())), Some(DeclKind::VarDecl(DeclRef::at(2))));
}

#[test]
fn a_built_in_that_is_not_there_is_unresolved() {
    let mut tcx = TyCtx::new();
    assert_eq!(
        lookup_builtin_domain(&tcx, fuel_ident()),
        Err(DeclError::UnresolvedBuiltin(Symbol::fuel()))
    );
    assert_eq!(init_limited(&mut tcx), Ok(()));
    assert_eq!(lookup_builtin_domain(&tcx, fuel_ident()), Ok(DeclRef::at(0)));
    // `Z` is bound, but to a function.
    assert_eq!(
        lookup_builtin_domain(&tcx, ident(Symbol::zero())),
        Err(DeclError::UnresolvedBuiltin(Symbol::zero()))
    );
    assert_eq!(
        lookup_builtin_domain(&tcx, ident(Symbol { index: 99 })),
        Err(DeclError::UnresolvedBuiltin(Symbol { index: 99 }))
    );
}

#[test]
fn fuel_group_built_by_hand() {
    let mut interner = Interner::new();
    let fuel = interner.intern("Fuel");
    let z = interner.intern("Z");
    let s = interner.intern("S");
    let mut tcx = TyCtx::new();

    let domain = tcx.alloc_domain(DomainDecl {
        name: ident(fuel),
        span: Span::dummy_span(),
        body: vec![],
    });
    assert!(tcx.domain(domain).body.is_empty());
    let domain_ty = TyKind::Domain(domain);

    let z_function = tcx.alloc_func(FuncDecl {
        name: ident(z),
        span: Span::dummy_span(),
        inputs: Spanned::with_dummy_span(vec![]),
        output: domain_ty,
        body: None,
    });
    let s_function = tcx.alloc_func(FuncDecl {
        name: ident(s),
        span: Span::dummy_span(),
        inputs: Spanned::with_dummy_span(vec![Param {
            name: ident(interner.intern("f")),
            span: Span::dummy_span(),
            literal_only: false,
            ty: Box::new(domain_ty),
        }]),
        output: domain_ty,
        body: None,
    });

    tcx.push_domain_spec(domain, DomainSpec::Function(z_function));
    tcx.push_domain_spec(domain, DomainSpec::Function(s_function));

    assert_eq!(tcx.declare(DeclKind::DomainDecl(domain)), Ok(()));
    assert_eq!(tcx.declare(DeclKind::FuncDecl(z_function)), Ok(()));
    assert_eq!(tcx.declare(DeclKind::FuncDecl(s_function)), Ok(()));
    let f_var = tcx.alloc_var(VarDecl {
        name: ident(interner.intern("f")),
        ty: domain_ty,
        kind: VarKind::Input,
        span: Span::dummy_span(),
        init: None,
        created_from: None,
    });
    assert_eq!(tcx.declare(DeclKind::VarDecl(f_var)), Ok(()));
    let fuel_var = tcx.alloc_var(VarDecl {
        name: ident(interner.intern("fuel")),
        ty: domain_ty,
        kind: VarKind::Quant,
        span: Span::dummy_span(),
        init: None,
        created_from: None,
    });
    assert_eq!(tcx.declare(DeclKind::VarDecl(fuel_var)), Ok(()));

    match tcx.get(ident(interner.intern("Fuel"))) {
        Some(DeclKind::DomainDecl(found)) => assert_eq!(tcx.domain(found).body.len(), 2),
        other => panic!("expected a domain, found {:?}", other),
    }
    assert!(matches!(tcx.get(ident(interner.intern("Z"))), Some(DeclKind::FuncDecl(_))));
    assert!(matches!(tcx.get(ident(interner.intern("S"))), Some(DeclKind::FuncDecl(_))));
    match tcx.get(ident(interner.intern("f"))) {
        Some(DeclKind::VarDecl(found)) => assert_eq!(tcx.var(found).kind, VarKind::Input),
        other => panic!("expected a variable, found {:?}", other),
    }
    match tcx.get(ident(interner.intern("fuel"))) {
        Some(DeclKind::VarDecl(found)) => assert_eq!(tcx.var(found).kind, VarKind::Quant),
        other => panic!("expected a variable, found {:?}", other),
    }

    // Built by hand, the group is the one that the bootstrap makes, but for
    // the globals.
    let mut booted = TyCtx::new();
    assert_eq!(init_limited(&mut booted), Ok(()));
    assert_eq!(tcx.domain(domain), booted.domain(get_fuel_domain(&booted)));
    assert_eq!(tcx.func(z_function), booted.func(DeclRef::at(0)));
    assert_eq!(tcx.func(s_function), booted.func(DeclRef::at(1)));
    assert_eq!(tcx.var(f_var), booted.var(DeclRef::at(0)));
    assert_eq!(tcx.var(fuel_var), booted.var(DeclRef::at(1)));
    assert!(!tcx.is_global(ident(fuel)));
    assert!(booted.is_global(ident(fuel)));
}
