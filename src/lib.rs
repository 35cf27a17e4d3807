//! Generates the `Position` and `Velocity` capability impls for a type
//! declaration whose fields are named `position` and `velocity`.
mod decl;
mod derive;
mod expand;
mod laws;
mod syntax;

pub use decl::{write_tree, write_trees, DeclText, Delim, Tree, TypeDecl};
pub use derive::{derive_position, derive_velocity, position_from, read_decl, velocity_from, DeriveError};
pub use expand::{emit_impl_header, emit_position_impl, emit_velocity_impl, expand_velocity};
pub use laws::{
    fields_are_wired, generation_is_deterministic, generics_are_preserved,
    position_part_is_shared,
};
