use motion_derive::{
    derive_position, derive_velocity, emit_impl_header, emit_position_impl, emit_velocity_impl,
    expand_velocity, position_from, read_decl, velocity_from, write_trees, Delim, DeriveError,
    Tree, TypeDecl,
};

fn ident(s: &str) -> Tree {
    Tree::Ident(s.to_string())
}

fn punct(c: char) -> Tree {
    Tree::Punct(c, false)
}

fn joint(c: char) -> Tree {
    Tree::Punct(c, true)
}

fn angle(inner: Vec<Tree>) -> Vec<Tree> {
    let mut ts = vec![punct('<')];
    ts.extend(inner);
    ts.push(punct('>'));
    ts
}

fn text_of(ts: &Vec<Tree>) -> String {
    let mut out = String::new();
    write_trees(&mut out, ts);
    out
}

fn tokens(text: &str) -> String {
    text.parse::<proc_macro2::TokenStream>().unwrap().to_string()
}

const POSITION_BODY: &str =
    " {\n    type T = T;\n\n    fn position(&self) -> &Self::T {\n        &self.position\n    }\n}\n";
const VELOCITY_BODY: &str =
    " {\n    fn velocity(&self) -> &Self::T {\n        &self.velocity\n    }\n}\n";

#[test]
fn particle_gets_both_impls() {
    let out = derive_velocity("struct Particle<T> { position: T, velocity: T }").unwrap();
    let expected = "impl<T> Position for Particle<T> { type T = T; \
                    fn position(&self) -> &Self::T { &self.position } } \
                    impl<T> Velocity for Particle<T> { \
                    fn velocity(&self) -> &Self::T { &self.velocity } }";
    assert_eq!(tokens(&out), tokens(expected));
}

#[test]
fn particle_position_impl() {
    let out = derive_position("struct Particle<T> { position: T, velocity: T }").unwrap();
    let expected = "impl<T> Position for Particle<T> { type T = T; \
                    fn position(&self) -> &Self::T { &self.position } }";
    assert_eq!(tokens(&out), tokens(expected));
}

#[test]
fn function_is_not_a_declaration() {
    let src = "fn step(x: u32) -> u32 { x + 1 }";
    assert!(matches!(derive_position(src), Err(DeriveError::Malformed(_))));
    assert!(matches!(derive_velocity(src), Err(DeriveError::Malformed(_))));
}

#[test]
fn incomplete_declaration_is_malformed() {
    assert!(derive_position("struct").is_err());
    assert!(derive_velocity("struct Body<T { position: T }").is_err());
    assert!(derive_position("").is_err());
}

#[test]
fn generating_twice_gives_the_same_text() {
    let src = "struct Ball<T: Copy> { position: T, velocity: T }";
    assert_eq!(derive_position(src).unwrap(), derive_position(src).unwrap());
    assert_eq!(derive_velocity(src).unwrap(), derive_velocity(src).unwrap());
}

#[test]
fn generics_lifetimes_and_where_clause_are_repeated() {
    let src = "struct Body<'a, T: Clone, const N: usize> where T: Default \
               { position: &'a T, velocity: [T; N] }";
    let out = derive_velocity(src).unwrap();
    let expected = "impl< 'a, T: Clone, const N: usize> Position for Body< 'a, T, N> \
                    where T: Default { type T = T; \
                    fn position(&self) -> &Self::T { &self.position } } \
                    impl< 'a, T: Clone, const N: usize> Velocity for Body< 'a, T, N> \
                    where T: Default { fn velocity(&self) -> &Self::T { &self.velocity } }";
    assert_eq!(tokens(&out), tokens(expected));
}

#[test]
fn type_without_generics() {
    let out = derive_position("struct Dot { position: u8 }").unwrap();
    assert!(out.starts_with("impl Position for Dot {"));
    assert!(out.ends_with(POSITION_BODY));
}

#[test]
fn enums_are_declarations_too() {
    let out = derive_position("enum Shape<T> { Point(T) }").unwrap();
    assert_eq!(
        tokens(&out),
        tokens("impl<T> Position for Shape<T> { type T = T; fn position(&self) -> &Self::T { &self.position } }")
    );
}

#[test]
fn velocity_output_starts_with_position_output() {
    for src in [
        "struct Particle<T> { position: T, velocity: T }",
        "struct Dot { position: u8, velocity: u8 }",
        "struct W<T> where T: Copy { position: T, velocity: T }",
    ] {
        let p = derive_position(src).unwrap();
        let v = derive_velocity(src).unwrap();
        assert!(v.starts_with(&p));
        assert!(v.len() > p.len());
    }
}

#[test]
fn accessors_reference_their_own_fields() {
    let v = derive_velocity("struct Particle<T> { position: T, velocity: T }").unwrap();
    let p = derive_position("struct Particle<T> { position: T, velocity: T }").unwrap();
    assert!(p.contains("&self.position"));
    assert!(!p.contains("&self.velocity"));
    let (first, second) = v.split_at(p.len());
    assert!(first.contains("&self.position"));
    assert!(second.contains("&self.velocity"));
    assert!(!second.contains("&self.position"));
}

#[test]
fn header_text_is_exact() {
    let d = TypeDecl::new(
        "Body",
        angle(vec![joint('\''), ident("a"), punct(','), ident("T")]),
        angle(vec![joint('\''), ident("a"), punct(','), ident("T")]),
        vec![ident("where"), ident("T"), punct(':'), ident("Copy")],
    );
    assert_eq!(
        emit_impl_header(&d, "Position"),
        "impl< 'a , T > Position for Body< 'a , T > where T : Copy"
    );
    let plain = TypeDecl::new("Dot", vec![], vec![], vec![]);
    assert_eq!(emit_impl_header(&plain, "Velocity"), "impl Velocity for Dot");
}

#[test]
fn tokens_are_spaced_except_after_joint_punctuation() {
    let ts = vec![
        ident("T"),
        punct(':'),
        ident("Fn"),
        Tree::Group(Delim::Paren, vec![ident("u8"), punct(','), Tree::Literal("1".to_string())]),
        joint('-'),
        punct('>'),
        Tree::Group(Delim::Bracket, vec![ident("T"), punct(';'), ident("N")]),
        Tree::Group(Delim::Brace, vec![]),
        Tree::Group(Delim::Invisible, vec![ident("x")]),
    ];
    assert_eq!(text_of(&ts), "T : Fn (u8 , 1) -> [T ; N] {} x");
    assert_eq!(text_of(&vec![]), "");
}

#[test]
fn emitted_impls_are_exact() {
    let d = TypeDecl::new("Particle", angle(vec![ident("T")]), angle(vec![ident("T")]), vec![]);
    let p = emit_position_impl(&d);
    let v = emit_velocity_impl(&d);
    assert_eq!(p, format!("impl< T > Position for Particle< T >{}", POSITION_BODY));
    assert_eq!(v, format!("impl< T > Velocity for Particle< T >{}", VELOCITY_BODY));
    assert_eq!(expand_velocity(&d), format!("{}{}", p, v));
}

#[test]
fn parsed_parts_reach_the_output() {
    let src = "struct Ship<T: Copy> where T: Default { position: T }";
    let out = derive_position(src).unwrap();
    let d = TypeDecl::new(
        "Ship",
        angle(vec![ident("T"), punct(':'), ident("Copy")]),
        angle(vec![ident("T")]),
        vec![ident("where"), ident("T"), punct(':'), ident("Default")],
    );
    assert_eq!(tokens(&out), tokens(&emit_position_impl(&d)));
    assert_ne!(out, src);
}

#[test]
fn read_decl_splits_the_generics() {
    let d = read_decl("struct Ship<'a, T: Copy> where T: Default { position: &'a T }").unwrap();
    assert_eq!(d.name, "Ship");
    assert_eq!(tokens(&text_of(&d.impl_generics)), tokens("< 'a, T: Copy>"));
    assert_eq!(tokens(&text_of(&d.ty_generics)), tokens("< 'a, T>"));
    assert_eq!(tokens(&text_of(&d.where_clause)), tokens("where T: Default"));
    let plain = read_decl("struct Dot { position: u8 }").unwrap();
    assert!(plain.impl_generics.is_empty() && plain.where_clause.is_empty());
}

#[test]
fn outcomes_pass_through_the_generators() {
    let d = TypeDecl::new("Dot", vec![], vec![], vec![]);
    assert_eq!(
        position_from(Ok(d)).unwrap(),
        format!("impl Position for Dot{}", POSITION_BODY)
    );
    let d = TypeDecl::new("Dot", vec![], vec![], vec![]);
    assert_eq!(
        velocity_from(Ok(d)).unwrap(),
        format!("impl Position for Dot{}impl Velocity for Dot{}", POSITION_BODY, VELOCITY_BODY)
    );
    assert!(position_from(read_decl("fn f() {}")).is_err());
    assert!(velocity_from(read_decl("fn f() {}")).is_err());
}

#[test]
fn helper_attribute_is_accepted_and_ignored() {
    let plain = derive_velocity("struct P<T> { position: T, velocity: T }").unwrap();
    let marked = derive_velocity("#[position] struct P<T> { position: T, velocity: T }").unwrap();
    assert_eq!(plain, marked);
}
