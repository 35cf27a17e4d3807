use vstd::prelude::*;

verus! {

/// The delimiters of a token group.
#[derive(Clone, Copy, Debug, PartialEq, Eq, Structural)]
pub enum Delim {
    Paren,
    Bracket,
    Brace,
    /// A group without visible delimiters.
    Invisible,
}

/// One token tree: an identifier, a punctuation character (joined to the
/// next character or not), a literal as written, or a delimited group.
#[derive(Debug)]
pub enum Tree {
    Ident(String),
    Punct(char, bool),
    Literal(String),
    Group(Delim, Vec<Tree>),
}

pub open spec fn open_delim(d: Delim) -> Seq<char> {
    match d {
        Delim::Paren => seq!['('],
        Delim::Bracket => seq!['['],
        Delim::Brace => seq!['{'],
        Delim::Invisible => Seq::empty(),
    }
}

pub open spec fn close_delim(d: Delim) -> Seq<char> {
    match d {
        Delim::Paren => seq![')'],
        Delim::Bracket => seq![']'],
        Delim::Brace => seq!['}'],
        Delim::Invisible => Seq::empty(),
    }
}

/// A punctuation character joined to what follows it.
pub open spec fn is_joint(t: Tree) -> bool {
    t matches Tree::Punct(_, true)
}

/// The text of one tree.
pub open spec fn tree_text(t: Tree) -> Seq<char>
    decreases t,
{
    match t {
        Tree::Ident(s) => s@,
        Tree::Punct(c, _) => seq![c],
        Tree::Literal(s) => s@,
        Tree::Group(d, inner) => open_delim(d) + trees_text(inner@) + close_delim(d),
    }
}

/// The text of a token sequence: a space between two neighbouring trees,
/// except after a joint punctuation character.
pub open spec fn trees_text(ts: Seq<Tree>) -> Seq<char>
    decreases ts,
{
    if ts.len() == 0 {
        Seq::empty()
    } else {
        let last = ts[ts.len() - 1];
        let before = ts.subrange(0, ts.len() - 1);
        let gap = if before.len() == 0 || is_joint(before[before.len() - 1]) {
            Seq::empty()
        } else {
            seq![' ']
        };
        trees_text(before) + gap + tree_text(last)
    }
}

/// The parts of a type declaration that the generated impls repeat: the
/// type's identifier, and the tokens of its generics split for an impl.
pub struct TypeDecl {
    /// The type's identifier.
    pub name: String,
    /// The generic parameters with their bounds, as they follow `impl`
    /// (empty for a type without generics).
    pub impl_generics: Vec<Tree>,
    /// The generic arguments, as they follow the type's name.
    pub ty_generics: Vec<Tree>,
    /// The `where` clause, or no tokens where the declaration has none.
    pub where_clause: Vec<Tree>,
}

/// The mathematical value of a [`TypeDecl`]: each part as the text it is
/// written as.
pub struct DeclText {
    pub name: Seq<char>,
    pub impl_generics: Seq<char>,
    pub ty_generics: Seq<char>,
    pub where_clause: Seq<char>,
}

impl View for TypeDecl {
    type V = DeclText;

    open spec fn view(&self) -> DeclText {
        DeclText {
            name: self.name@,
            impl_generics: trees_text(self.impl_generics@),
            ty_generics: trees_text(self.ty_generics@),
            where_clause: trees_text(self.where_clause@),
        }
    }
}

/// Relies on `String::push`, which appends the character to the end of the
/// string.
pub assume_specification[ String::push ](s: &mut String, ch: char)
    ensures
        final(s)@ == old(s)@.push(ch),
;

/// Appends the text of one tree.
pub fn write_tree(out: &mut String, t: &Tree)
    ensures
        final(out)@ == old(out)@ + tree_text(*t),
    decreases t,
{
    proof {
        reveal_strlit("(");
        reveal_strlit("[");
        reveal_strlit("{");
        reveal_strlit(")");
        reveal_strlit("]");
        reveal_strlit("}");
    }
    match t {
        Tree::Ident(s) => out.append(s.as_str()),
        Tree::Punct(c, _) => out.push(*c),
        Tree::Literal(s) => out.append(s.as_str()),
        Tree::Group(d, inner) => {
            match d {
                Delim::Paren => out.append("("),
                Delim::Bracket => out.append("["),
                Delim::Brace => out.append("{"),
                Delim::Invisible => {},
            }
            let ghost opened = out@;
            write_trees(out, inner);
            match d {
                Delim::Paren => out.append(")"),
                Delim::Bracket => out.append("]"),
                Delim::Brace => out.append("}"),
                Delim::Invisible => {},
            }
            assert(opened =~= old(out)@ + open_delim(*d));
        },
    }
    assert(final(out)@ =~= old(out)@ + tree_text(*t));
}

/// Appends the text of a token sequence.
pub fn write_trees(out: &mut String, ts: &Vec<Tree>)
    ensures
        final(out)@ == old(out)@ + trees_text(ts@),
    decreases ts,
{
    let ghost start = out@;
    let mut i: usize = 0;
    while i < ts.len()
        invariant
            i <= ts.len(),
            out@ == start + trees_text(ts@.subrange(0, i as int)),
        decreases ts.len() - i,
    {
        proof {
            reveal_strlit(" ");
        }
        if i > 0 && !matches!(ts[i - 1], Tree::Punct(_, true)) {
            out.append(" ");
        }
        write_tree(out, &ts[i]);
        i = i + 1;
        proof {
            let s = ts@.subrange(0, i as int);
            assert(s.subrange(0, s.len() - 1) =~= ts@.subrange(0, i - 1));
        }
    }
    assert(ts@.subrange(0, ts.len() as int) =~= ts@);
}

impl TypeDecl {
    /// Builds a declaration from its parts.
    pub fn new(name: &str, impl_generics: Vec<Tree>, ty_generics: Vec<Tree>, where_clause: Vec<
        Tree,
    >) -> (r: TypeDecl)
        ensures
            r.name@ == name@,
            r.impl_generics@ == impl_generics@,
            r.ty_generics@ == ty_generics@,
            r.where_clause@ == where_clause@,
    {
        TypeDecl { name: name.to_owned(), impl_generics, ty_generics, where_clause }
    }
}

} // verus!
