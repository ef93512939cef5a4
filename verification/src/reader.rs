//! Reading a parsed declaration into plain values.
//!
//! `syn` hands a derive its input as a `DeriveInput`. The functions here walk
//! it and keep what the bundle derives read, as a
//! [`TypeDeclaration`](crate::declaration::TypeDeclaration). The walk is
//! verified code; each look into the syntax tree is one small function whose
//! body is not verified. Names, types and generics are kept as the text of
//! their tokens.
//!
//! What a look into the tree gives depends on the tree alone, so each look has
//! a name, and [`declaration_of`] says in those names what is read of a tree.
//! The arguments of an attribute are read only where the attribute is named
//! `bundle`, as the text of its path says; an attribute of any other name is
//! kept under its name, without flags.
use vstd::prelude::*;
use vstd::string::StringExecFns;
use quote::ToTokens;
use syn::spanned::Spanned;
use crate::declaration::{DeclaredData, DeclaredDataView, Directive, DirectiveView, Fault, FaultView, FieldSyntax, FieldSyntaxView, Fields, FieldsView, Flag, FlagView, TypeDeclaration, TypeDeclarationView, directive_views, field_views, text_option};
use crate::directive::BUNDLE_ATTRIBUTE_NAME;

verus! {

#[verifier::external_type_specification]
#[verifier::external_body]
pub struct ExDeriveInput(syn::DeriveInput);

#[verifier::external_type_specification]
#[verifier::external_body]
pub struct ExField(syn::Field);

#[verifier::external_type_specification]
#[verifier::external_body]
pub struct ExAttribute(syn::Attribute);

/// What kind of type a `DeriveInput` declares, with the fields of a struct.
enum DeclaredSyntax<'a> {
    Named(Vec<&'a syn::Field>),
    Unnamed(Vec<&'a syn::Field>),
    Unit,
    Enum,
    Union,
}

/// What was read of the arguments of an attribute.
struct ArgumentSyntax {
    flags: Vec<Flag>,
    fault: Option<Fault>,
}

/// The pieces of an impl header that are taken from the generics of the
/// declaration.
struct HeaderSyntax {
    impl_generics: String,
    type_generics: String,
    where_clause: String,
}

pub enum DeclaredSyntaxView {
    Named(Seq<syn::Field>),
    Unnamed(Seq<syn::Field>),
    Unit,
    Enum,
    Union,
}

pub struct ArgumentSyntaxView {
    pub flags: Seq<FlagView>,
    pub fault: Option<FaultView>,
}

pub struct HeaderSyntaxView {
    pub impl_generics: Seq<char>,
    pub type_generics: Seq<char>,
    pub where_clause: Seq<char>,
}

/// The fields that a list of references points to.
pub open spec fn fields_in(list: Seq<&syn::Field>) -> Seq<syn::Field> {
    list.map_values(|f: &syn::Field| *f)
}

/// The attributes that a list of references points to.
pub open spec fn attributes_in(list: Seq<&syn::Attribute>) -> Seq<syn::Attribute> {
    list.map_values(|a: &syn::Attribute| *a)
}

impl<'a> DeclaredSyntax<'a> {
    spec fn view(&self) -> DeclaredSyntaxView {
        match self {
            DeclaredSyntax::Named(fields) => DeclaredSyntaxView::Named(fields_in(fields@)),
            DeclaredSyntax::Unnamed(fields) => DeclaredSyntaxView::Unnamed(fields_in(fields@)),
            DeclaredSyntax::Unit => DeclaredSyntaxView::Unit,
            DeclaredSyntax::Enum => DeclaredSyntaxView::Enum,
            DeclaredSyntax::Union => DeclaredSyntaxView::Union,
        }
    }
}

impl ArgumentSyntax {
    spec fn view(&self) -> ArgumentSyntaxView {
        ArgumentSyntaxView {
            flags: self.flags@.map_values(|f: Flag| f@),
            fault: match self.fault {
                Some(f) => Some(f@),
                None => None,
            },
        }
    }
}

impl HeaderSyntax {
    spec fn view(&self) -> HeaderSyntaxView {
        HeaderSyntaxView {
            impl_generics: self.impl_generics@,
            type_generics: self.type_generics@,
            where_clause: self.where_clause@,
        }
    }
}

/// The kind of type that a tree declares, and the fields of a struct in the
/// order written.
pub uninterp spec fn declared_syntax_of(ast: syn::DeriveInput) -> DeclaredSyntaxView;

/// The name of the type that a tree declares.
pub uninterp spec fn declared_name_of(ast: syn::DeriveInput) -> Seq<char>;

/// The generics of the type that a tree declares, split for an impl header.
pub uninterp spec fn header_syntax_of(ast: syn::DeriveInput) -> HeaderSyntaxView;

/// The attributes on the type that a tree declares, in the order written.
pub uninterp spec fn type_attributes_of(ast: syn::DeriveInput) -> Seq<syn::Attribute>;

/// The attributes on a field, in the order written.
pub uninterp spec fn field_attributes_of(field: syn::Field) -> Seq<syn::Attribute>;

/// The name of a field, if it has one.
pub uninterp spec fn field_name_of(field: syn::Field) -> Option<Seq<char>>;

/// The type of a field, as the text of its tokens.
pub uninterp spec fn field_type_of(field: syn::Field) -> Seq<char>;

/// The path that names an attribute, as the text of its tokens.
pub uninterp spec fn attribute_name_of(attribute: syn::Attribute) -> Seq<char>;

/// What `syn` reads of the arguments of an attribute as a comma-separated list
/// of paths: the paths read, and what stopped the reading.
pub uninterp spec fn arguments_of(attribute: syn::Attribute) -> ArgumentSyntaxView;

/// What is read of one attribute: its name and, if that is `bundle`, its
/// arguments.
pub open spec fn directive_of(attribute: syn::Attribute) -> DirectiveView {
    if attribute_name_of(attribute) == BUNDLE_ATTRIBUTE_NAME@ {
        DirectiveView {
            name: attribute_name_of(attribute),
            flags: arguments_of(attribute).flags,
            fault: arguments_of(attribute).fault,
        }
    } else {
        DirectiveView { name: attribute_name_of(attribute), flags: Seq::empty(), fault: None }
    }
}

/// What is read of a list of attributes: one directive for each, in order.
pub open spec fn directives_of(attributes: Seq<syn::Attribute>) -> Seq<DirectiveView> {
    attributes.map_values(|a: syn::Attribute| directive_of(a))
}

/// What is read of one field.
pub open spec fn field_of(field: syn::Field) -> FieldSyntaxView {
    FieldSyntaxView {
        name: field_name_of(field),
        declared_type: field_type_of(field),
        directives: directives_of(field_attributes_of(field)),
    }
}

/// What is read of a list of fields: one field for each, in order.
pub open spec fn fields_of(fields: Seq<syn::Field>) -> Seq<FieldSyntaxView> {
    fields.map_values(|f: syn::Field| field_of(f))
}

/// What is read of the data of a declaration: the kind of type is kept, and a
/// struct keeps its fields.
pub open spec fn data_of(syntax: DeclaredSyntaxView) -> DeclaredDataView {
    match syntax {
        DeclaredSyntaxView::Named(fields) => DeclaredDataView::Struct(
            FieldsView::Named(fields_of(fields)),
        ),
        DeclaredSyntaxView::Unnamed(fields) => DeclaredDataView::Struct(
            FieldsView::Unnamed(fields_of(fields)),
        ),
        DeclaredSyntaxView::Unit => DeclaredDataView::Struct(FieldsView::Unit),
        DeclaredSyntaxView::Enum => DeclaredDataView::Enum,
        DeclaredSyntaxView::Union => DeclaredDataView::Union,
    }
}

/// What is read of a parsed declaration.
pub open spec fn declaration_of(ast: syn::DeriveInput) -> TypeDeclarationView {
    TypeDeclarationView {
        name: declared_name_of(ast),
        impl_generics: header_syntax_of(ast).impl_generics,
        type_generics: header_syntax_of(ast).type_generics,
        where_clause: header_syntax_of(ast).where_clause,
        directives: directives_of(type_attributes_of(ast)),
        data: data_of(declared_syntax_of(ast)),
    }
}

/// Tells the variants of `syn::Data` and `syn::Fields` apart and hands out the
/// fields of a struct in the order of `Punctuated::iter`, which is the order
/// written.
#[verifier::external_body]
fn declared_syntax(ast: &syn::DeriveInput) -> (syntax: DeclaredSyntax<'_>)
    ensures
        syntax@ == declared_syntax_of(*ast),
{
    match &ast.data {
        syn::Data::Struct(data) => match &data.fields {
            syn::Fields::Named(fields) => DeclaredSyntax::Named(fields.named.iter().collect()),
            syn::Fields::Unnamed(fields) => DeclaredSyntax::Unnamed(
                fields.unnamed.iter().collect(),
            ),
            syn::Fields::Unit => DeclaredSyntax::Unit,
        },
        syn::Data::Enum(_) => DeclaredSyntax::Enum,
        syn::Data::Union(_) => DeclaredSyntax::Union,
    }
}

/// The name of the declared type: `DeriveInput::ident`, as text.
#[verifier::external_body]
fn declared_name(ast: &syn::DeriveInput) -> (name: String)
    ensures
        name@ == declared_name_of(*ast),
{
    ast.ident.to_string()
}

/// `syn::Generics::split_for_impl`: the three pieces of the generics that an
/// impl for the type needs, each as the text of its tokens.
#[verifier::external_body]
fn header_syntax(ast: &syn::DeriveInput) -> (header: HeaderSyntax)
    ensures
        header@ == header_syntax_of(*ast),
{
    let (impl_generics, type_generics, where_clause) = ast.generics.split_for_impl();
    HeaderSyntax {
        impl_generics: impl_generics.to_token_stream().to_string(),
        type_generics: type_generics.to_token_stream().to_string(),
        where_clause: where_clause.to_token_stream().to_string(),
    }
}

/// The attributes on the declared type: `DeriveInput::attrs`, in the order
/// written.
#[verifier::external_body]
fn type_attributes(ast: &syn::DeriveInput) -> (attributes: Vec<&syn::Attribute>)
    ensures
        attributes_in(attributes@) == type_attributes_of(*ast),
{
    ast.attrs.iter().collect()
}

/// The attributes on a field: `Field::attrs`, in the order written.
#[verifier::external_body]
fn field_attributes(field: &syn::Field) -> (attributes: Vec<&syn::Attribute>)
    ensures
        attributes_in(attributes@) == field_attributes_of(*field),
{
    field.attrs.iter().collect()
}

/// The name of a field: `Field::ident`, as text.
#[verifier::external_body]
fn field_name(field: &syn::Field) -> (name: Option<String>)
    ensures
        text_option(name) == field_name_of(*field),
{
    field.ident.as_ref().map(|ident| ident.to_string())
}

/// The type of a field: the tokens of `Field::ty`, as text.
#[verifier::external_body]
fn field_type(field: &syn::Field) -> (ty: String)
    ensures
        ty@ == field_type_of(*field),
{
    field.ty.to_token_stream().to_string()
}

/// `syn::Attribute::path`: the path that names an attribute, as the text of its
/// tokens. The text of a path is that of an identifier only if the path is that
/// identifier.
#[verifier::external_body]
fn attribute_name(attribute: &syn::Attribute) -> (name: String)
    ensures
        name@ == attribute_name_of(*attribute),
{
    attribute.path().to_token_stream().to_string()
}

/// `syn::Attribute::parse_nested_meta`: reads the arguments of an attribute as a
/// comma-separated list of paths. Every path that `syn` reads is kept as a flag,
/// with the text of its tokens and its span; the text of a path is that of an
/// identifier only if the path is that identifier. Where `syn` stops with an
/// error, the paths read before stay, and the error's message and span are
/// kept as the fault.
///
/// For an attribute without arguments `syn` reports the first and the last
/// segment of its path, and fails on a path without segments. The attribute
/// has to be named `bundle`, which a path without segments is not.
#[verifier::external_body]
fn read_arguments(attribute: &syn::Attribute) -> (arguments: ArgumentSyntax)
    requires
        attribute_name_of(*attribute) == BUNDLE_ATTRIBUTE_NAME@,
    ensures
        arguments@ == arguments_of(*attribute),
{
    let mut paths = Vec::new();
    let read = attribute.parse_nested_meta(
        |meta| {
            paths.push(meta.path);
            Ok(())
        },
    );
    ArgumentSyntax {
        flags: paths.iter().map(
            |path| Flag { name: path.to_token_stream().to_string(), span: path.span() },
        ).collect(),
        fault: read.err().map(|e| Fault { message: e.to_string(), span: e.span() }),
    }
}

/// Reads one attribute: its name and, if that is `bundle`, its arguments.
fn read_directive(attribute: &syn::Attribute) -> (directive: Directive)
    ensures
        directive@ == directive_of(*attribute),
{
    let name = attribute_name(attribute);
    let key = String::from_str(BUNDLE_ATTRIBUTE_NAME);
    if name == key {
        let arguments = read_arguments(attribute);
        Directive { name, flags: arguments.flags, fault: arguments.fault }
    } else {
        let directive = Directive { name, flags: Vec::new(), fault: None };
        assert(directive@.flags =~= Seq::<FlagView>::empty());
        directive
    }
}

/// Reads a list of attributes as directives: one for each attribute, in order,
/// under the name of the attribute. The arguments are read of the attributes
/// named `bundle` only.
fn read_directives(attributes: &Vec<&syn::Attribute>) -> (directives: Vec<Directive>)
    ensures
        directives.len() == attributes.len(),
        directive_views(directives@) == directives_of(attributes_in(attributes@)),
{
    let ghost all = directives_of(attributes_in(attributes@));
    let mut directives: Vec<Directive> = Vec::new();
    let mut i: usize = 0;
    assert(directive_views(directives@) =~= all.take(0));
    while i < attributes.len()
        invariant
            i <= attributes.len(),
            directives.len() == i,
            all == directives_of(attributes_in(attributes@)),
            directive_views(directives@) == all.take(i as int),
        decreases attributes.len() - i,
    {
        let directive = read_directive(attributes[i]);
        assert(directive_views(directives@.push(directive)) =~= all.take(i + 1));
        directives.push(directive);
        i += 1;
    }
    assert(all.take(i as int) =~= all);
    directives
}

/// Reads the fields of a struct, in order.
fn read_fields(fields: &Vec<&syn::Field>) -> (read: Vec<FieldSyntax>)
    ensures
        read.len() == fields.len(),
        field_views(read@) == fields_of(fields_in(fields@)),
{
    let ghost all = fields_of(fields_in(fields@));
    let mut read: Vec<FieldSyntax> = Vec::new();
    let mut i: usize = 0;
    assert(field_views(read@) =~= all.take(0));
    while i < fields.len()
        invariant
            i <= fields.len(),
            read.len() == i,
            all == fields_of(fields_in(fields@)),
            field_views(read@) == all.take(i as int),
        decreases fields.len() - i,
    {
        let field = fields[i];
        let attributes = field_attributes(field);
        let read_field = FieldSyntax {
            name: field_name(field),
            declared_type: field_type(field),
            directives: read_directives(&attributes),
        };
        assert(read_field@ == field_of(*field));
        assert(field_views(read@.push(read_field)) =~= all.take(i + 1));
        read.push(read_field);
        i += 1;
    }
    assert(all.take(i as int) =~= all);
    read
}

/// The data of a declaration, from what `syn` says of it: the kind of type is
/// kept, and a struct gets one field for each of its fields, in order.
fn read_data(syntax: &DeclaredSyntax<'_>) -> (data: DeclaredData)
    ensures
        data@ == data_of(syntax@),
{
    match syntax {
        DeclaredSyntax::Named(fields) => DeclaredData::Struct(Fields::Named(read_fields(fields))),
        DeclaredSyntax::Unnamed(fields) => DeclaredData::Struct(
            Fields::Unnamed(read_fields(fields)),
        ),
        DeclaredSyntax::Unit => DeclaredData::Struct(Fields::Unit),
        DeclaredSyntax::Enum => DeclaredData::Enum,
        DeclaredSyntax::Union => DeclaredData::Union,
    }
}

/// Reads a parsed declaration. The result holds the name and the generics of
/// the type, the kind of type, one field for each field of a struct, in the
/// order written, and one directive for each attribute on the type and on each
/// field, in the order written.
pub fn read_declaration(ast: &syn::DeriveInput) -> (decl: TypeDeclaration)
    ensures
        decl@ == declaration_of(*ast),
{
    let header = header_syntax(ast);
    let attributes = type_attributes(ast);
    let syntax = declared_syntax(ast);
    TypeDeclaration {
        name: declared_name(ast),
        impl_generics: header.impl_generics,
        type_generics: header.type_generics,
        where_clause: header.where_clause,
        directives: read_directives(&attributes),
        data: read_data(&syntax),
    }
}

} // verus!
