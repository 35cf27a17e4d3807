use proc_macro2::{Delimiter, Spacing, TokenStream, TokenTree};
use quote::ToTokens;
use vstd::prelude::*;

use crate::decl::{Delim, Tree};

verus! {

/// The error syn reports for text that is not a type declaration.
#[verifier::external_type_specification]
#[verifier::external_body]
pub struct ExSynError(syn::Error);

/// A declaration as syn parsed it.
#[verifier::external_type_specification]
#[verifier::external_body]
pub struct ExDeriveInput(syn::DeriveInput);

/// A sequence of tokens.
#[verifier::external_type_specification]
#[verifier::external_body]
pub struct ExTokenStream(proc_macro2::TokenStream);

/// Relies on `syn::parse_str::<syn::DeriveInput>` to read a struct, enum or
/// union declaration. Whether it succeeds is left open: inside a macro
/// expansion the compiler's own lexer is consulted as well.
#[verifier::external_body]
pub(crate) fn parse_derive_input(src: &str) -> (r: Result<syn::DeriveInput, syn::Error>) {
    syn::parse_str::<syn::DeriveInput>(src)
}

/// Relies on `Display` for `syn::Ident`: the identifier of the declared type.
#[verifier::external_body]
pub(crate) fn ident_text(input: &syn::DeriveInput) -> (r: String) {
    input.ident.to_string()
}

/// Relies on `syn::Generics::split_for_impl`: the tokens of the generic
/// parameters as they follow `impl`, of the generic arguments as they follow
/// the type's name, and of the `where` clause (none where there is none).
#[verifier::external_body]
pub(crate) fn split_generics(input: &syn::DeriveInput) -> (r: (TokenStream, TokenStream, TokenStream)) {
    let (impl_generics, ty_generics, where_clause) = input.generics.split_for_impl();
    (impl_generics.to_token_stream(), ty_generics.to_token_stream(), where_clause.to_token_stream())
}

/// Relies on iterating a `proc_macro2::TokenStream`: its token trees, each
/// converted to a [`Tree`] with the punctuation's spacing, the text of each
/// identifier and literal, and each group's delimiter and inner tokens.
#[verifier::external_body]
pub(crate) fn token_trees(ts: TokenStream) -> (r: Vec<Tree>) {
    let mut trees = Vec::new();
    for t in ts {
        trees.push(match t {
            TokenTree::Ident(i) => Tree::Ident(i.to_string()),
            TokenTree::Punct(p) => Tree::Punct(p.as_char(), p.spacing() == Spacing::Joint),
            TokenTree::Literal(l) => Tree::Literal(l.to_string()),
            TokenTree::Group(g) => Tree::Group(match g.delimiter() {
                Delimiter::Parenthesis => Delim::Paren,
                Delimiter::Bracket => Delim::Bracket,
                Delimiter::Brace => Delim::Brace,
                Delimiter::None => Delim::Invisible,
            }, token_trees(g.stream())),
        });
    }
    trees
}

} // verus!
