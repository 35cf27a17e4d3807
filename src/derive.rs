use vstd::prelude::*;

use crate::decl::{DeclText, TypeDecl};
use crate::expand::{emit_position_impl, expand_velocity, position_impl_text, velocity_expansion};
use crate::syntax::{parse_derive_input, split_generics, token_trees, ident_text};

verus! {

/// Why no impl was generated.
#[derive(Debug)]
pub enum DeriveError {
    /// The input is not a type declaration; syn's error says where.
    Malformed(syn::Error),
}

/// Reads the declaration written in `input`: its identifier and the tokens of
/// its generics split for an impl, or syn's error where it is not a type
/// declaration.
pub fn read_decl(input: &str) -> (r: Result<TypeDecl, DeriveError>) {
    match parse_derive_input(input) {
        Ok(parsed) => {
            let (impl_generics, ty_generics, where_clause) = split_generics(&parsed);
            Ok(
                TypeDecl {
                    name: ident_text(&parsed),
                    impl_generics: token_trees(impl_generics),
                    ty_generics: token_trees(ty_generics),
                    where_clause: token_trees(where_clause),
                },
            )
        },
        Err(e) => Err(DeriveError::Malformed(e)),
    }
}

/// The `Position` impl for a declaration that was read, or the error that
/// reading it gave.
pub fn position_from(read: Result<TypeDecl, DeriveError>) -> (r: Result<String, DeriveError>)
    ensures
        r.is_ok() == read.is_ok(),
        r matches Ok(t) ==> t@ == position_impl_text(read->Ok_0@),
{
    match read {
        Ok(d) => Ok(emit_position_impl(&d)),
        Err(e) => Err(e),
    }
}

/// The `Position` and `Velocity` impls for a declaration that was read, or
/// the error that reading it gave.
pub fn velocity_from(read: Result<TypeDecl, DeriveError>) -> (r: Result<String, DeriveError>)
    ensures
        r.is_ok() == read.is_ok(),
        r matches Ok(t) ==> t@ == velocity_expansion(read->Ok_0@),
{
    match read {
        Ok(d) => Ok(expand_velocity(&d)),
        Err(e) => Err(e),
    }
}

/// Generates the `Position` impl for the declaration written in `input`.
/// Whatever syn reads, the output is that impl for some declaration.
pub fn derive_position(input: &str) -> (r: Result<String, DeriveError>)
    ensures
        r matches Ok(t) ==> exists|d: DeclText| t@ == position_impl_text(d),
{
    position_from(read_decl(input))
}

/// Generates the `Position` and `Velocity` impls for the declaration written
/// in `input`. Whatever syn reads, the output is both impls for one
/// declaration.
pub fn derive_velocity(input: &str) -> (r: Result<String, DeriveError>)
    ensures
        r matches Ok(t) ==> exists|d: DeclText| t@ == velocity_expansion(d),
{
    velocity_from(read_decl(input))
}

} // verus!
