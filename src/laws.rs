use vstd::prelude::*;

use crate::decl::DeclText;
use crate::expand::{
    accessor, field_ref, impl_header, position_impl_text, velocity_expansion, velocity_impl_text,
    where_part,
};

verus! {

/// `t` opens with an impl header of `capability` for `d` in which the
/// declaration's name, generic parameters, generic arguments and `where`
/// clause stand unchanged, followed by the impl's opening brace.
pub open spec fn repeats_generics(t: Seq<char>, d: DeclText, capability: Seq<char>) -> bool {
    let ig_end: int = d.impl_generics.len() as int + 4;
    let name_at: int = ig_end + 1 + capability.len() + 5;
    let ty_at: int = name_at + d.name.len();
    let where_at: int = ty_at + d.ty_generics.len();
    let brace_at: int = where_at + where_part(d).len();
    &&& brace_at + 2 <= t.len()
    &&& t.subrange(0, 4) == "impl"@
    &&& t.subrange(4, ig_end) == d.impl_generics
    &&& t.subrange(ig_end + 1, name_at - 5) == capability
    &&& t.subrange(name_at, ty_at) == d.name
    &&& t.subrange(ty_at, where_at) == d.ty_generics
    &&& t.subrange(where_at, brace_at) == where_part(d)
    &&& t[brace_at] == ' '
    &&& t[brace_at + 1] == '{'
}

/// The tail of an accessor for `field`: it returns `&Self::T`, and its body is
/// a reference to the field of that name, closing the accessor and the impl.
pub open spec fn accessor_tail(field: Seq<char>) -> Seq<char> {
    "(&self) -> &Self::T {\n        "@ + field_ref(field) + "\n    }\n"@ + "}\n"@
}

/// `t` ends with `tail`.
pub open spec fn ends_with(t: Seq<char>, tail: Seq<char>) -> bool {
    tail.len() <= t.len() && t.subrange(t.len() - tail.len(), t.len() as int) == tail
}

proof fn lemma_header_lengths()
    ensures
        "impl"@.len() == 4,
        " "@.len() == 1,
        " for "@.len() == 5,
        " {\n    type T = T;\n\n"@.len() >= 2,
        " {\n"@.len() >= 2,
        " "@ == seq![' '],
        " {\n    type T = T;\n\n"@.subrange(0, 2) == seq![' ', '{'],
        " {\n"@.subrange(0, 2) == seq![' ', '{'],
{
    reveal_strlit("impl");
    reveal_strlit(" ");
    reveal_strlit(" for ");
    reveal_strlit(" {\n    type T = T;\n\n");
    reveal_strlit(" {\n");
    assert(" {\n    type T = T;\n\n"@.subrange(0, 2) =~= seq![' ', '{']);
    assert(" {\n"@.subrange(0, 2) =~= seq![' ', '{']);
}

proof fn lemma_header_repeats_generics(d: DeclText, capability: Seq<char>, rest: Seq<char>)
    requires
        rest.len() >= 2,
        rest.subrange(0, 2) == seq![' ', '{'],
    ensures
        repeats_generics(impl_header(d, capability) + rest, d, capability),
{
    lemma_header_lengths();
    let t = impl_header(d, capability) + rest;
    let ig = d.impl_generics;
    let ig_end: int = ig.len() as int + 4;
    let name_at: int = ig_end + 1 + capability.len() + 5;
    let ty_at: int = name_at + d.name.len();
    let where_at: int = ty_at + d.ty_generics.len();
    let brace_at: int = where_at + where_part(d).len();
    assert(impl_header(d, capability).len() == brace_at);
    assert(t.subrange(0, 4) =~= "impl"@);
    assert(t.subrange(4, ig_end) =~= ig);
    assert(t.subrange(ig_end + 1, name_at - 5) =~= capability);
    assert(t.subrange(name_at, ty_at) =~= d.name);
    assert(t.subrange(ty_at, where_at) =~= d.ty_generics);
    assert(t.subrange(where_at, brace_at) =~= where_part(d));
    assert(t[brace_at] == rest.subrange(0, 2)[0]);
    assert(t[brace_at + 1] == rest.subrange(0, 2)[1]);
}

/// Generating is a function of the declaration that was read: the same
/// declaration always gives the same text, for both derives.
pub proof fn generation_is_deterministic(a: DeclText, b: DeclText)
    requires
        a == b,
    ensures
        position_impl_text(a) == position_impl_text(b),
        velocity_expansion(a) == velocity_expansion(b),
{
}

/// Every impl that is generated repeats the declaration's name, generic
/// parameters, generic arguments and `where` clause exactly as they were read.
pub proof fn generics_are_preserved(d: DeclText)
    ensures
        ({
            let p = position_impl_text(d);
            let v = velocity_expansion(d);
            &&& repeats_generics(p, d, "Position"@)
            &&& repeats_generics(v, d, "Position"@)
            &&& repeats_generics(v.subrange(p.len() as int, v.len() as int), d, "Velocity"@)
        }),
{
    lemma_header_lengths();
    let prest = " {\n    type T = T;\n\n"@ + accessor("position"@) + "}\n"@;
    let vrest = " {\n"@ + accessor("velocity"@) + "}\n"@;
    assert(prest.subrange(0, 2) =~= " {\n    type T = T;\n\n"@.subrange(0, 2));
    assert(vrest.subrange(0, 2) =~= " {\n"@.subrange(0, 2));
    assert(position_impl_text(d) =~= impl_header(d, "Position"@) + prest);
    assert(velocity_impl_text(d) =~= impl_header(d, "Velocity"@) + vrest);
    lemma_header_repeats_generics(d, "Position"@, prest);
    lemma_header_repeats_generics(d, "Velocity"@, vrest);
    let p = position_impl_text(d);
    let v = velocity_expansion(d);
    assert((prest + velocity_impl_text(d)).subrange(0, 2) =~= prest.subrange(0, 2));
    lemma_header_repeats_generics(d, "Position"@, prest + velocity_impl_text(d));
    assert(v =~= impl_header(d, "Position"@) + (prest + velocity_impl_text(d)));
    assert(v.subrange(p.len() as int, v.len() as int) =~= velocity_impl_text(d));
}

/// The `Position` impl that the `Velocity` derive writes is the one the
/// `Position` derive writes for the same declaration: a prefix of its output.
pub proof fn position_part_is_shared(d: DeclText)
    ensures
        velocity_expansion(d).subrange(0, position_impl_text(d).len() as int)
            == position_impl_text(d),
{
    let p = position_impl_text(d);
    assert(velocity_expansion(d).subrange(0, p.len() as int) =~= p);
}

/// Each impl ends with its accessor, which returns `&Self::T` by reference to
/// the field of the accessor's own name: `position` in the `Position` impl,
/// `velocity` in the `Velocity` impl.
pub proof fn fields_are_wired(d: DeclText)
    ensures
        ends_with(position_impl_text(d), accessor_tail("position"@)),
        ends_with(velocity_impl_text(d), accessor_tail("velocity"@)),
        ends_with(velocity_expansion(d), accessor_tail("velocity"@)),
        ends_with(
            velocity_expansion(d).subrange(0, position_impl_text(d).len() as int),
            accessor_tail("position"@),
        ),
{
    let pt = accessor_tail("position"@);
    let vt = accessor_tail("velocity"@);
    let p = position_impl_text(d);
    let v = velocity_impl_text(d);
    let pre_p = impl_header(d, "Position"@) + " {\n    type T = T;\n\n"@ + "    fn "@ + "position"@;
    let pre_v = impl_header(d, "Velocity"@) + " {\n"@ + "    fn "@ + "velocity"@;
    assert(p =~= pre_p + pt);
    assert(v =~= pre_v + vt);
    assert(p.subrange(p.len() - pt.len(), p.len() as int) =~= pt);
    assert(v.subrange(v.len() - vt.len(), v.len() as int) =~= vt);
    let e = velocity_expansion(d);
    assert(e =~= (p + pre_v) + vt);
    assert(e.subrange(e.len() - vt.len(), e.len() as int) =~= vt);
    assert(e.subrange(0, p.len() as int) =~= p);
}

} // verus!
