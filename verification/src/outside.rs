//! Calls into other crates. Their contracts are taken on trust.

use vstd::prelude::*;

verus! {

/// What `inflector::cases::pascalcase::to_pascal_case` makes of `text`.
pub uninterp spec fn pascal_case(text: Seq<char>) -> Seq<char>;

/// The identifier that `syn::parse_str::<syn::Ident>` reads from `text`,
/// where it accepts it.
pub uninterp spec fn parsed_ident(text: Seq<char>) -> Option<Seq<char>>;

/// The path that `syn::Path::parse_mod_style` reads from `text`, printed as
/// tokens, where it accepts it.
pub uninterp spec fn parsed_path(text: Seq<char>) -> Option<Seq<char>>;

/// Calls `inflector::cases::pascalcase::to_pascal_case`, a total function of
/// its argument; the result is known only by its name.
#[verifier::external_body]
pub(crate) fn to_pascal_case(text: &str) -> (r: String)
    ensures
        r@ == pascal_case(text@),
{
    inflector::cases::pascalcase::to_pascal_case(text)
}

/// Calls `syn::parse_str::<syn::Ident>`: `Ok` holds the identifier read,
/// `Err` the parser's message, of which nothing is claimed.
#[verifier::external_body]
pub(crate) fn parse_ident(text: &str) -> (r: Result<String, String>)
    ensures
        r matches Ok(ident) ==> parsed_ident(text@) == Some(ident@),
        r is Err ==> parsed_ident(text@) is None,
{
    match syn::parse_str::<syn::Ident>(text) {
        Ok(ident) => Ok(ident.to_string()),
        Err(error) => Err(error.to_string()),
    }
}

/// Calls `syn::Path::parse_mod_style` on the tokens of `text`: `Ok` holds the
/// path read, printed as tokens, `Err` the parser's message, of which nothing
/// is claimed.
#[verifier::external_body]
pub(crate) fn parse_path(text: &str) -> (r: Result<String, String>)
    ensures
        r matches Ok(path) ==> parsed_path(text@) == Some(path@),
        r is Err ==> parsed_path(text@) is None,
{
    match syn::parse::Parser::parse_str(syn::Path::parse_mod_style, text) {
        Ok(path) => Ok(quote::ToTokens::to_token_stream(&path).to_string()),
        Err(error) => Err(error.to_string()),
    }
}

} // verus!
