use decl_registry::ast::{DeclRef, FuncDecl, Ident, Span, Spanned};
use decl_registry::symbol::Symbol;

#[test]
fn spans_and_identifiers_are_plain_values() {
    assert_eq!(Span::new(2, 5), Span::Source { start: 2, end: 5 });
    assert_eq!(Span::dummy_span(), Span::Synthetic);
    assert!(Span::dummy_span().is_dummy());
    assert!(!Span::new(0, 0).is_dummy());

    let x = Symbol { index: 6 };
    assert_eq!(Ident::new(x, Span::new(2, 5)), Ident { name: x, span: Span::new(2, 5) });
    assert_eq!(Ident::with_dummy_span(x), Ident { name: x, span: Span::Synthetic });
    // The same name at two places: equal symbols, different identifiers.
    assert_ne!(Ident::new(x, Span::new(2, 5)), Ident::with_dummy_span(x));
    assert_eq!(Ident::new(x, Span::new(2, 5)).name, Ident::with_dummy_span(x).name);

    assert_eq!(Spanned::new(Span::new(1, 3), 7u8), Spanned { node: 7u8, span: Span::new(1, 3) });
    assert_eq!(Spanned::with_dummy_span(7u8), Spanned { node: 7u8, span: Span::Synthetic });
}

#[test]
fn copies_of_a_handle_are_equal() {
    let handle: DeclRef<FuncDecl> = DeclRef::at(3);
    let copy = handle;
    let clone = handle.clone();
    assert_eq!(handle, copy);
    assert_eq!(handle, clone);
    assert_eq!(handle.index, 3);
    assert_ne!(handle, DeclRef::at(4));
}
