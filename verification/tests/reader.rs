use bundle_derive::declaration::{DeclaredData, Fields, TypeDeclaration};
use bundle_derive::reader::read_declaration;
use proc_macro2::Span;
use syn::DeriveInput;

fn read(source: &str) -> TypeDeclaration {
    read_declaration(&syn::parse_str::<DeriveInput>(source).unwrap())
}

fn place(span: Span) -> (usize, usize) {
    (span.start().line, span.start().column)
}

#[test]
fn named_struct_is_read_field_by_field() {
    let decl = read("struct Player { health: Health, name: Name, #[bundle(ignore)] cache: TransientCache }");
    assert_eq!(decl.name, "Player");
    assert_eq!(decl.impl_generics, "");
    assert_eq!(decl.type_generics, "");
    assert_eq!(decl.where_clause, "");
    assert!(decl.directives.is_empty());
    let DeclaredData::Struct(Fields::Named(fields)) = &decl.data else {
        panic!("not read as a struct with named fields");
    };
    assert_eq!(fields.len(), 3);
    assert_eq!(fields[0].name.as_deref(), Some("health"));
    assert_eq!(fields[0].declared_type, "Health");
    assert!(fields[0].directives.is_empty());
    assert_eq!(fields[1].name.as_deref(), Some("name"));
    assert_eq!(fields[1].declared_type, "Name");
    assert_eq!(fields[2].name.as_deref(), Some("cache"));
    assert_eq!(fields[2].declared_type, "TransientCache");
    assert_eq!(fields[2].directives.len(), 1);
    assert_eq!(fields[2].directives[0].flags.len(), 1);
    assert_eq!(fields[2].directives[0].flags[0].name, "ignore");
    assert!(fields[2].directives[0].fault.is_none());
}

#[test]
fn tuple_struct_is_read_without_names() {
    let decl = read("struct Pair(A, #[bundle(ignore)] Vec<B>);");
    let DeclaredData::Struct(Fields::Unnamed(fields)) = &decl.data else {
        panic!("not read as a tuple struct");
    };
    assert_eq!(fields.len(), 2);
    assert_eq!(fields[0].name, None);
    assert_eq!(fields[0].declared_type, "A");
    assert_eq!(fields[1].name, None);
    assert_eq!(fields[1].declared_type, "Vec < B >");
    assert_eq!(fields[1].directives[0].flags[0].name, "ignore");
}

#[test]
fn shapes_are_told_apart() {
    assert!(matches!(read("struct Unit;").data, DeclaredData::Struct(Fields::Unit)));
    assert!(matches!(read("enum Choice { A, B }").data, DeclaredData::Enum));
    assert!(matches!(read("union Either { a: u32, b: f32 }").data, DeclaredData::Union));
    let DeclaredData::Struct(Fields::Named(fields)) = read("struct Empty {}").data else {
        panic!("not read as a struct with named fields");
    };
    assert!(fields.is_empty());
    let DeclaredData::Struct(Fields::Unnamed(fields)) = read("struct Empty();").data else {
        panic!("not read as a tuple struct");
    };
    assert!(fields.is_empty());
}

#[test]
fn generics_are_split_for_the_impl_header() {
    let decl = read("struct Wrapper<'a, T: Bundle, const N: usize> where T: Send { inner: &'a [T; N] }");
    assert_eq!(decl.name, "Wrapper");
    assert_eq!(decl.impl_generics, "< 'a , T : Bundle , const N : usize >");
    assert_eq!(decl.type_generics, "< 'a , T , N >");
    assert_eq!(decl.where_clause, "where T : Send");
    let DeclaredData::Struct(Fields::Named(fields)) = &decl.data else {
        panic!("not read as a struct with named fields");
    };
    assert_eq!(fields[0].declared_type, "& 'a [T ; N]");
}

#[test]
fn every_attribute_is_read_under_its_name() {
    let decl = read(
        "#[derive(Clone)] #[doc = \"a bundle\"] #[bundle(ignore_from_components)] #[repr(C)]
         struct S { #[doc(hidden)] #[serde(skip)] a: A, #[cfg(test)] #[bundle(ignore)] b: B }",
    );
    let names: Vec<&str> = decl.directives.iter().map(|d| d.name.as_str()).collect();
    assert_eq!(names, vec!["derive", "doc", "bundle", "repr"]);
    assert_eq!(decl.directives[2].flags.len(), 1);
    assert_eq!(decl.directives[2].flags[0].name, "ignore_from_components");
    assert!(decl.directives[2].fault.is_none());
    let DeclaredData::Struct(Fields::Named(fields)) = &decl.data else {
        panic!("not read as a struct with named fields");
    };
    let names: Vec<&str> = fields[0].directives.iter().map(|d| d.name.as_str()).collect();
    assert_eq!(names, vec!["doc", "serde"]);
    let names: Vec<&str> = fields[1].directives.iter().map(|d| d.name.as_str()).collect();
    assert_eq!(names, vec!["cfg", "bundle"]);
    assert_eq!(fields[1].directives[1].flags[0].name, "ignore");
}

#[test]
fn arguments_are_read_of_directives_only() {
    let decl = read(
        "#[derive(Clone, Debug)] #[doc = \"a bundle\"] #[must_use] #[bundle(ignore_from_components)]
         struct S { #[serde(skip, ignore)] #[bundle(ignore)] #[ignore] a: A }",
    );
    let DeclaredData::Struct(Fields::Named(fields)) = &decl.data else {
        panic!("not read as a struct with named fields");
    };
    for directive in decl.directives.iter().chain(fields[0].directives.iter()) {
        if directive.name == "bundle" {
            assert_eq!(directive.flags.len(), 1);
        } else {
            assert!(directive.flags.is_empty(), "{}", directive.name);
            assert!(directive.fault.is_none(), "{}", directive.name);
        }
    }
}

#[test]
fn attribute_whose_path_has_no_segment_is_read_without_arguments() {
    let mut ast = syn::parse_str::<DeriveInput>("struct S { a: A }").unwrap();
    let nameless = syn::Attribute {
        pound_token: Default::default(),
        style: syn::AttrStyle::Outer,
        bracket_token: Default::default(),
        meta: syn::Meta::Path(syn::Path {
            leading_colon: None,
            segments: syn::punctuated::Punctuated::new(),
        }),
    };
    ast.attrs.push(nameless.clone());
    if let syn::Data::Struct(data) = &mut ast.data {
        data.fields.iter_mut().next().unwrap().attrs.push(nameless);
    }
    let decl = read_declaration(&ast);
    assert_eq!(decl.directives.len(), 1);
    assert_eq!(decl.directives[0].name, "");
    assert!(decl.directives[0].flags.is_empty());
    assert!(decl.directives[0].fault.is_none());
    let DeclaredData::Struct(Fields::Named(fields)) = &decl.data else {
        panic!("not read as a struct with named fields");
    };
    assert_eq!(fields[0].directives.len(), 1);
    assert_eq!(fields[0].directives[0].name, "");
    assert!(fields[0].directives[0].flags.is_empty());
}

#[test]
fn attribute_with_a_longer_path_keeps_its_spelling() {
    let decl = read("#[bundle::ignore] #[::bundle(ignore)] #[r#bundle(ignore)] struct S { a: A }");
    let names: Vec<&str> = decl.directives.iter().map(|d| d.name.as_str()).collect();
    assert_eq!(names, vec!["bundle :: ignore", ":: bundle", "r#bundle"]);
}

#[test]
fn directives_and_flags_keep_the_order_written() {
    let decl = read("#[bundle(a, b)] #[bundle()] #[bundle(c,)] struct S { x: X }");
    let names: Vec<Vec<&str>> = decl
        .directives
        .iter()
        .map(|d| d.flags.iter().map(|f| f.name.as_str()).collect())
        .collect();
    assert_eq!(names, vec![vec!["a", "b"], vec![], vec!["c"]]);
    assert!(decl.directives.iter().all(|d| d.fault.is_none()));
}

#[test]
fn flag_that_is_no_plain_identifier_keeps_its_spelling() {
    let decl = read("#[bundle(r#ignore, ::ignore, bundle::ignore)] struct S { x: X }");
    let names: Vec<&str> = decl.directives[0].flags.iter().map(|f| f.name.as_str()).collect();
    assert_eq!(names, vec!["r#ignore", ":: ignore", "bundle :: ignore"]);
}

#[test]
fn flag_span_is_the_place_of_the_flag() {
    let decl = read("struct S {\n    #[bundle(ignore, bogus)]\n    a: A,\n}");
    let DeclaredData::Struct(Fields::Named(fields)) = &decl.data else {
        panic!("not read as a struct with named fields");
    };
    let flags = &fields[0].directives[0].flags;
    assert_eq!(place(flags[0].span), (2, 13));
    assert_eq!(place(flags[1].span), (2, 21));
}

#[test]
fn directive_without_arguments_is_a_fault() {
    let decl = read("#[bundle] struct S { a: A }");
    assert_eq!(decl.directives.len(), 1);
    assert!(decl.directives[0].flags.is_empty());
    let fault = decl.directives[0].fault.as_ref().unwrap();
    assert_eq!(fault.message, "expected attribute arguments in parentheses: #[bundle(...)]");
    assert_eq!(place(fault.span), (1, 2));
}

#[test]
fn directive_with_a_value_is_a_fault() {
    let decl = read("#[bundle = \"ignore\"] struct S { a: A }");
    assert!(decl.directives[0].flags.is_empty());
    let fault = decl.directives[0].fault.as_ref().unwrap();
    assert_eq!(fault.message, "expected parentheses: #[bundle(...)]");
}

#[test]
fn flags_read_before_a_fault_stay() {
    let decl = read("struct S { #[bundle(ignore = 1, other)] a: A }");
    let DeclaredData::Struct(Fields::Named(fields)) = &decl.data else {
        panic!("not read as a struct with named fields");
    };
    let directive = &fields[0].directives[0];
    let names: Vec<&str> = directive.flags.iter().map(|f| f.name.as_str()).collect();
    assert_eq!(names, vec!["ignore"]);
    assert_eq!(directive.fault.as_ref().unwrap().message, "expected `,`");
}

#[test]
fn literal_in_place_of_a_flag_is_a_fault() {
    let decl = read("#[bundle(\"ignore\")] struct S { a: A }");
    assert!(decl.directives[0].flags.is_empty());
    assert_eq!(
        decl.directives[0].fault.as_ref().unwrap().message,
        "unexpected literal in nested attribute, expected ident"
    );
}
