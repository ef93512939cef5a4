//! The struct-shape validator.
use vstd::prelude::*;
use crate::declaration::{DeclaredData, DeclaredDataView, FieldSyntax, FieldSyntaxView, Fields, FieldsView, field_views};
use crate::diagnostic::{CompositionError, Diagnostic};
use crate::site::Site;

verus! {

/// The message for a declaration that is not a struct.
pub const ONLY_STRUCTS_MESSAGE: &'static str = "Only structs are supported";

/// The message for a struct without fields.
pub const UNIT_STRUCT_MESSAGE: &'static str =
    "Unit structs are not supported. Try using an empty Struct";

/// The diagnostic for a declaration that is not a struct. It points at the
/// macro invocation.
pub open spec fn not_a_struct() -> Diagnostic {
    Diagnostic { message: ONLY_STRUCTS_MESSAGE@, site: Site::CallSite }
}

/// The diagnostic for a struct without fields.
pub open spec fn unit_struct() -> Diagnostic {
    Diagnostic { message: UNIT_STRUCT_MESSAGE@, site: Site::MixedSite }
}

/// The fields written in a declaration: those of a struct with a field list, and
/// none otherwise.
pub open spec fn declared_fields(data: DeclaredDataView) -> Seq<FieldSyntaxView> {
    match data {
        DeclaredDataView::Struct(FieldsView::Named(fields)) => fields,
        DeclaredDataView::Struct(FieldsView::Unnamed(fields)) => fields,
        _ => Seq::empty(),
    }
}

/// Why a declaration cannot be a bundle, if it cannot: it is no struct, or it is
/// a struct without a field.
pub open spec fn shape_error(data: DeclaredDataView) -> Option<Diagnostic> {
    match data {
        DeclaredDataView::Struct(_) => if declared_fields(data).len() == 0 {
            Some(unit_struct())
        } else {
            None
        },
        _ => Some(not_a_struct()),
    }
}

/// The fields of a declaration, if it is a struct with at least one field, named
/// or positional. Anything else is turned down with one diagnostic: a struct
/// without fields with [`unit_struct`], an enum or a union with [`not_a_struct`].
pub fn get_struct_fields(data: &DeclaredData) -> (r: Result<&Vec<FieldSyntax>, CompositionError>)
    ensures
        match r {
            Ok(fields) => {
                &&& shape_error(data@) is None
                &&& fields.len() > 0
                &&& field_views(fields@) == declared_fields(data@)
                &&& (data matches DeclaredData::Struct(Fields::Named(f)) ==> fields == f)
                &&& (data matches DeclaredData::Struct(Fields::Unnamed(f)) ==> fields == f)
            },
            Err(e) => shape_error(data@) == Some(e@),
        },
{
    match data {
        DeclaredData::Struct(Fields::Named(fields)) => {
            if fields.len() == 0 {
                Err(CompositionError::new(UNIT_STRUCT_MESSAGE, Site::MixedSite))
            } else {
                Ok(fields)
            }
        },
        DeclaredData::Struct(Fields::Unnamed(fields)) => {
            if fields.len() == 0 {
                Err(CompositionError::new(UNIT_STRUCT_MESSAGE, Site::MixedSite))
            } else {
                Ok(fields)
            }
        },
        DeclaredData::Struct(Fields::Unit) => Err(
            CompositionError::new(UNIT_STRUCT_MESSAGE, Site::MixedSite),
        ),
        DeclaredData::Enum => Err(CompositionError::new(ONLY_STRUCTS_MESSAGE, Site::CallSite)),
        DeclaredData::Union => Err(CompositionError::new(ONLY_STRUCTS_MESSAGE, Site::CallSite)),
    }
}

} // verus!
