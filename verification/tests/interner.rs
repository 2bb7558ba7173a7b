use decl_registry::symbol::{Interner, Symbol};

#[test]
fn reserved_names_have_their_handles() {
    let mut interner = Interner::new();
    assert_eq!(interner.len(), 6);
    assert_eq!(interner.intern(""), Symbol { index: 0 });
    assert_eq!(interner.intern("Fuel"), Symbol { index: 1 });
    assert_eq!(interner.intern("Z"), Symbol { index: 2 });
    assert_eq!(interner.intern("S"), Symbol { index: 3 });
    assert_eq!(interner.intern("f"), Symbol { index: 4 });
    assert_eq!(interner.intern("fuel"), Symbol { index: 5 });
    assert_eq!(interner.len(), 6);

    assert_eq!(Symbol::empty(), Symbol { index: 0 });
    assert_eq!(Symbol::fuel(), Symbol { index: 1 });
    assert_eq!(Symbol::zero(), Symbol { index: 2 });
    assert_eq!(Symbol::succ(), Symbol { index: 3 });
    assert_eq!(Symbol::fuel_input(), Symbol { index: 4 });
    assert_eq!(Symbol::fuel_quant(), Symbol { index: 5 });
}

#[test]
fn reserved_handles_resolve_to_their_names() {
    let interner = Interner::new();
    assert_eq!(interner.resolve(Symbol::empty()), Some(""));
    assert_eq!(interner.resolve(Symbol::fuel()), Some("Fuel"));
    assert_eq!(interner.resolve(Symbol::zero()), Some("Z"));
    assert_eq!(interner.resolve(Symbol::succ()), Some("S"));
    assert_eq!(interner.resolve(Symbol::fuel_input()), Some("f"));
    assert_eq!(interner.resolve(Symbol::fuel_quant()), Some("fuel"));
    assert_eq!(interner.resolve(Symbol { index: 6 }), None);
}

#[test]
fn a_new_name_gets_the_next_handle() {
    let mut interner = Interner::new();
    assert_eq!(interner.intern("x"), Symbol { index: 6 });
    assert_eq!(interner.intern("y"), Symbol { index: 7 });
    assert_eq!(interner.intern("fuels"), Symbol { index: 8 });
    assert_eq!(interner.len(), 9);
    assert_eq!(interner.resolve(Symbol { index: 7 }), Some("y"));
    assert_eq!(interner.resolve(Symbol { index: 8 }), Some("fuels"));
    assert_eq!(interner.resolve(Symbol { index: 9 }), None);
}

#[test]
fn a_known_name_keeps_its_handle() {
    let mut interner = Interner::new();
    let x = interner.intern("x");
    let y = interner.intern("y");
    assert_ne!(x, y);
    assert_eq!(interner.intern("x"), x);
    assert_eq!(interner.intern("y"), y);
    assert_eq!(interner.intern("x"), x);
    assert_eq!(interner.len(), 8);
}

#[test]
fn names_differ_by_case_and_by_length() {
    let mut interner = Interner::new();
    assert_ne!(interner.intern("fuel"), interner.intern("Fuel"));
    assert_eq!(interner.intern("FUEL"), Symbol { index: 6 });
    assert_eq!(interner.intern("z"), Symbol { index: 7 });
    assert_eq!(interner.intern("Fue"), Symbol { index: 8 });
    assert_eq!(interner.intern(" "), Symbol { index: 9 });
    assert_eq!(interner.intern("é"), Symbol { index: 10 });
    assert_eq!(interner.resolve(Symbol { index: 10 }), Some("é"));
}

#[test]
fn lookup_finds_without_adding() {
    let mut interner = Interner::new();
    assert_eq!(interner.lookup("Fuel"), Some(Symbol::fuel()));
    assert_eq!(interner.lookup(""), Some(Symbol::empty()));
    assert_eq!(interner.lookup("x"), None);
    assert_eq!(interner.len(), 6);
    let x = interner.intern("x");
    assert_eq!(interner.lookup("x"), Some(x));
    assert_eq!(interner.lookup("X"), None);
    assert_eq!(interner.len(), 7);
}

#[test]
fn only_the_empty_handle_is_empty() {
    let mut interner = Interner::new();
    assert!(Symbol::empty().is_empty());
    assert!(interner.intern("").is_empty());
    assert!(!Symbol::fuel().is_empty());
    assert!(!interner.intern("x").is_empty());
    assert!(!Symbol { index: 1 }.is_empty());
}
