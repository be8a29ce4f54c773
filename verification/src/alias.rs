use vstd::prelude::*;
use vstd::string::StringExecFns;

verus! {

/// The text of the alias declaration that makes `Spanned<name>` available
/// under the single identifier `Spanned{name}`.
pub open spec fn spanned_alias_text(name: Seq<char>) -> Seq<char> {
    "type Spanned"@ + name + " = slicey::Spanned<"@ + name + ">;"@
}

/// The text of the alias declaration that makes `Sliced<'src, name>`
/// available under the single identifier `Sliced{name}`.
pub open spec fn sliced_alias_text(name: Seq<char>) -> Seq<char> {
    "type Sliced"@ + name + "<'src> = slicey::Sliced<'src, "@ + name + ">;"@
}

/// The type identifier that a derive front end finds in a type declaration,
/// or nothing when the declaration does not parse as a struct, enum or union.
pub uninterp spec fn derive_input_ident(input: Seq<char>) -> Option<Seq<char>>;

/// Relies on `syn::parse_str::<syn::DeriveInput>`: it parses a struct, enum
/// or union declaration and exposes the declared type's identifier; the
/// outcome depends on the input text alone.
#[verifier::external_body]
fn parse_derive_ident(input: &str) -> (r: Option<String>)
    ensures
        match r {
            Some(name) => derive_input_ident(input@) == Some(name@),
            None => derive_input_ident(input@) is None,
        },
{
    match syn::parse_str::<syn::DeriveInput>(input) {
        Ok(d) => Some(d.ident.to_string()),
        Err(_) => None,
    }
}

/// Builds the `Spanned` alias declaration for the type named `name`.
pub fn impl_spanned(name: &str) -> (r: String)
    ensures
        r@ == spanned_alias_text(name@),
{
    let r = "type Spanned".to_owned().concat(name).concat(" = slicey::Spanned<").concat(
        name,
    ).concat(">;");
    proof {
        assert(r@ =~= spanned_alias_text(name@));
    }
    r
}

/// Builds the `Sliced` alias declaration for the type named `name`.
pub fn impl_sliced(name: &str) -> (r: String)
    ensures
        r@ == sliced_alias_text(name@),
{
    let r = "type Sliced".to_owned().concat(name).concat("<'src> = slicey::Sliced<'src, ").concat(
        name,
    ).concat(">;");
    proof {
        assert(r@ =~= sliced_alias_text(name@));
    }
    r
}

/// Reads a type declaration and emits the `Spanned` alias declaration for
/// the declared type, or nothing when the declaration does not parse.
pub fn spanned_derive(input: &str) -> (r: Option<String>)
    ensures
        match r {
            Some(decl) => {
                &&& derive_input_ident(input@) matches Some(name)
                &&& decl@ == spanned_alias_text(name)
            },
            None => derive_input_ident(input@) is None,
        },
{
    match parse_derive_ident(input) {
        Some(name) => Some(impl_spanned(name.as_str())),
        None => None,
    }
}

/// Reads a type declaration and emits the `Sliced` alias declaration for the
/// declared type, or nothing when the declaration does not parse.
pub fn sliced_derive(input: &str) -> (r: Option<String>)
    ensures
        match r {
            Some(decl) => {
                &&& derive_input_ident(input@) matches Some(name)
                &&& decl@ == sliced_alias_text(name)
            },
            None => derive_input_ident(input@) is None,
        },
{
    match parse_derive_ident(input) {
        Some(name) => Some(impl_sliced(name.as_str())),
        None => None,
    }
}

} // verus!
