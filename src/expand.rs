use vstd::prelude::*;
use vstd::string::StringExecFns;

use crate::decl::{write_trees, DeclText, TypeDecl};

verus! {

/// The `where` clause as it stands in an impl header: preceded by a space,
/// or nothing at all where the declaration has none.
pub open spec fn where_part(d: DeclText) -> Seq<char> {
    if d.where_clause.len() == 0 {
        Seq::empty()
    } else {
        " "@ + d.where_clause
    }
}

/// `impl<G> Capability for Name<G> where ...`: the header of an impl of
/// `capability` for the declared type, with its generics repeated unchanged.
pub open spec fn impl_header(d: DeclText, capability: Seq<char>) -> Seq<char> {
    "impl"@ + d.impl_generics + " "@ + capability + " for "@ + d.name + d.ty_generics
        + where_part(d)
}

/// The expression an accessor returns: a shared reference to the field.
pub open spec fn field_ref(field: Seq<char>) -> Seq<char> {
    "&self."@ + field
}

/// An accessor method of the given name that returns a reference to the field
/// of the same name.
pub open spec fn accessor(field: Seq<char>) -> Seq<char> {
    "    fn "@ + field + "(&self) -> &Self::T {\n        "@ + field_ref(field) + "\n    }\n"@
}

/// The text of the `Position` impl for the declaration.
pub open spec fn position_impl_text(d: DeclText) -> Seq<char> {
    impl_header(d, "Position"@) + " {\n    type T = T;\n\n"@ + accessor("position"@) + "}\n"@
}

/// The text of the `Velocity` impl for the declaration.
pub open spec fn velocity_impl_text(d: DeclText) -> Seq<char> {
    impl_header(d, "Velocity"@) + " {\n"@ + accessor("velocity"@) + "}\n"@
}

/// Both impls, `Position` first.
pub open spec fn velocity_expansion(d: DeclText) -> Seq<char> {
    position_impl_text(d) + velocity_impl_text(d)
}

/// Writes the header of an impl of `capability` for the declared type.
pub fn emit_impl_header(d: &TypeDecl, capability: &str) -> (r: String)
    ensures
        r@ == impl_header(d@, capability@),
{
    let mut out = String::from_str("impl");
    write_trees(&mut out, &d.impl_generics);
    out.append(" ");
    out.append(capability);
    out.append(" for ");
    out.append(d.name.as_str());
    write_trees(&mut out, &d.ty_generics);
    let mut clause = String::new();
    write_trees(&mut clause, &d.where_clause);
    if !clause.as_str().is_empty() {
        out.append(" ");
        out.append(clause.as_str());
    }
    assert(out@ =~= impl_header(d@, capability@));
    out
}

fn append_accessor(out: &mut String, field: &str)
    ensures
        final(out)@ == old(out)@ + accessor(field@),
{
    out.append("    fn ");
    out.append(field);
    out.append("(&self) -> &Self::T {\n        ");
    out.append("&self.");
    out.append(field);
    out.append("\n    }\n");
    assert(final(out)@ =~= old(out)@ + accessor(field@));
}

/// Writes the `Position` impl for the declaration.
pub fn emit_position_impl(d: &TypeDecl) -> (r: String)
    ensures
        r@ == position_impl_text(d@),
{
    let mut out = emit_impl_header(d, "Position");
    out.append(" {\n    type T = T;\n\n");
    append_accessor(&mut out, "position");
    out.append("}\n");
    assert(out@ =~= position_impl_text(d@));
    out
}

/// Writes the `Velocity` impl for the declaration.
pub fn emit_velocity_impl(d: &TypeDecl) -> (r: String)
    ensures
        r@ == velocity_impl_text(d@),
{
    let mut out = emit_impl_header(d, "Velocity");
    out.append(" {\n");
    append_accessor(&mut out, "velocity");
    out.append("}\n");
    assert(out@ =~= velocity_impl_text(d@));
    out
}

/// Writes the `Position` impl followed by the `Velocity` impl.
pub fn expand_velocity(d: &TypeDecl) -> (r: String)
    ensures
        r@ == velocity_expansion(d@),
{
    let position = emit_position_impl(d);
    let velocity = emit_velocity_impl(d);
    position.concat(velocity.as_str())
}

} // verus!
