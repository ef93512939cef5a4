//! A plain-value picture of the type declaration that a derive is applied to.
//!
//! Only what the bundle derives read is kept: the shape of the data, the fields
//! with their names and types as source text, the attributes on the type and
//! on each field, read as directives, and the pieces of the impl header.
//!
//! Names, types and generics are kept as the text of their tokens, which is
//! what the generated code is written from. The spans of those tokens are not
//! kept; the spans of the flags are, because diagnostics point at them.
use vstd::prelude::*;

verus! {

/// One flag inside a directive, such as the `ignore` of `#[bundle(ignore)]`.
#[derive(Clone, Debug)]
pub struct Flag {
    /// The flag as written. A flag that is not a plain identifier keeps its
    /// spelling, so it is equal to no recognised flag.
    pub name: String,
    /// Where the flag stands in the declaration.
    pub span: proc_macro2::Span,
}

/// A directive whose arguments could not be read to the end.
#[derive(Clone, Debug)]
pub struct Fault {
    pub message: String,
    pub span: proc_macro2::Span,
}

/// One attribute on the type or on a field, read as a directive.
///
/// Every attribute of a declaration is kept, under the name it is written
/// with. The bundle derives take the attributes named `bundle` for their
/// directives and pass over the others, whatever they hold; the reader leaves
/// the others without flags.
#[derive(Clone, Debug)]
pub struct Directive {
    /// The path that names the attribute, as written: `bundle` in
    /// `#[bundle(ignore)]`. A path that is not a plain identifier keeps its
    /// spelling, so it is equal to no name.
    pub name: String,
    /// The flags that were read, in the order written.
    pub flags: Vec<Flag>,
    /// What stopped the reading after those flags, if anything did.
    pub fault: Option<Fault>,
}

/// One field of a struct.
#[derive(Clone, Debug)]
pub struct FieldSyntax {
    /// The field's name; `None` for a field of a tuple struct.
    pub name: Option<String>,
    /// The field's type, as source text.
    pub declared_type: String,
    /// The attributes on the field, in the order written.
    pub directives: Vec<Directive>,
}

/// The field list of a struct.
#[derive(Clone, Debug)]
pub enum Fields {
    /// `struct S { a: A, b: B }`
    Named(Vec<FieldSyntax>),
    /// `struct S(A, B);`
    Unnamed(Vec<FieldSyntax>),
    /// `struct S;`
    Unit,
}

/// What kind of type was declared.
#[derive(Clone, Debug)]
pub enum DeclaredData {
    Struct(Fields),
    Enum,
    Union,
}

/// A type declaration, as far as the bundle derives read it.
#[derive(Clone, Debug)]
pub struct TypeDeclaration {
    /// The name of the type.
    pub name: String,
    /// The generics as they stand after `impl`, such as `<T: Bundle>`.
    pub impl_generics: String,
    /// The generics as they stand after the type's name, such as `<T>`.
    pub type_generics: String,
    /// The `where` clause, or nothing.
    pub where_clause: String,
    /// The attributes on the type, in the order written.
    pub directives: Vec<Directive>,
    pub data: DeclaredData,
}

pub struct FlagView {
    pub name: Seq<char>,
    pub span: proc_macro2::Span,
}

pub struct FaultView {
    pub message: Seq<char>,
    pub span: proc_macro2::Span,
}

pub struct DirectiveView {
    pub name: Seq<char>,
    pub flags: Seq<FlagView>,
    pub fault: Option<FaultView>,
}

pub struct FieldSyntaxView {
    pub name: Option<Seq<char>>,
    pub declared_type: Seq<char>,
    pub directives: Seq<DirectiveView>,
}

pub enum FieldsView {
    Named(Seq<FieldSyntaxView>),
    Unnamed(Seq<FieldSyntaxView>),
    Unit,
}

pub enum DeclaredDataView {
    Struct(FieldsView),
    Enum,
    Union,
}

pub struct TypeDeclarationView {
    pub name: Seq<char>,
    pub impl_generics: Seq<char>,
    pub type_generics: Seq<char>,
    pub where_clause: Seq<char>,
    pub directives: Seq<DirectiveView>,
    pub data: DeclaredDataView,
}

impl View for Flag {
    type V = FlagView;

    open spec fn view(&self) -> FlagView {
        FlagView { name: self.name@, span: self.span }
    }
}

impl View for Fault {
    type V = FaultView;

    open spec fn view(&self) -> FaultView {
        FaultView { message: self.message@, span: self.span }
    }
}

/// The value of an optional string.
pub open spec fn text_option(name: Option<String>) -> Option<Seq<char>> {
    match name {
        Some(n) => Some(n@),
        None => None,
    }
}

impl View for Directive {
    type V = DirectiveView;

    open spec fn view(&self) -> DirectiveView {
        DirectiveView {
            name: self.name@,
            flags: self.flags@.map_values(|f: Flag| f@),
            fault: match self.fault {
                Some(f) => Some(f@),
                None => None,
            },
        }
    }
}

/// The values of a list of directives, in order.
pub open spec fn directive_views(directives: Seq<Directive>) -> Seq<DirectiveView> {
    directives.map_values(|d: Directive| d@)
}

impl View for FieldSyntax {
    type V = FieldSyntaxView;

    open spec fn view(&self) -> FieldSyntaxView {
        FieldSyntaxView {
            name: text_option(self.name),
            declared_type: self.declared_type@,
            directives: directive_views(self.directives@),
        }
    }
}

/// The values of a list of fields, in order.
pub open spec fn field_views(fields: Seq<FieldSyntax>) -> Seq<FieldSyntaxView> {
    fields.map_values(|f: FieldSyntax| f@)
}

impl View for Fields {
    type V = FieldsView;

    open spec fn view(&self) -> FieldsView {
        match self {
            Fields::Named(fields) => FieldsView::Named(field_views(fields@)),
            Fields::Unnamed(fields) => FieldsView::Unnamed(field_views(fields@)),
            Fields::Unit => FieldsView::Unit,
        }
    }
}

impl View for DeclaredData {
    type V = DeclaredDataView;

    open spec fn view(&self) -> DeclaredDataView {
        match self {
            DeclaredData::Struct(fields) => DeclaredDataView::Struct(fields@),
            DeclaredData::Enum => DeclaredDataView::Enum,
            DeclaredData::Union => DeclaredDataView::Union,
        }
    }
}

impl View for TypeDeclaration {
    type V = TypeDeclarationView;

    open spec fn view(&self) -> TypeDeclarationView {
        TypeDeclarationView {
            name: self.name@,
            impl_generics: self.impl_generics@,
            type_generics: self.type_generics@,
            where_clause: self.where_clause@,
            directives: directive_views(self.directives@),
            data: self.data@,
        }
    }
}

} // verus!
