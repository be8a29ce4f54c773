use slicey::alias::{impl_sliced, impl_spanned, sliced_derive, spanned_derive};

#[test]
fn spanned_alias_declaration() {
    assert!(impl_spanned("Foo") == "type SpannedFoo = slicey::Spanned<Foo>;");
}

#[test]
fn sliced_alias_declaration() {
    assert!(impl_sliced("Foo") == "type SlicedFoo<'src> = slicey::Sliced<'src, Foo>;");
}

#[test]
fn spanned_derive_on_struct() {
    let decl = spanned_derive("struct Token { kind: u8 }");
    assert!(decl == Some(String::from("type SpannedToken = slicey::Spanned<Token>;")));
}

#[test]
fn sliced_derive_on_enum() {
    let decl = sliced_derive("enum Kind { A, B }");
    assert!(decl == Some(String::from("type SlicedKind<'src> = slicey::Sliced<'src, Kind>;")));
}

#[test]
fn derive_rejects_malformed_input() {
    assert!(spanned_derive("fn not_a_type() {}") == None);
    assert!(sliced_derive("???") == None);
}
