//! The derives: from a type declaration to the source text of the generated
//! impls.
//!
//! Three contracts are generated, all over the active fields in definition order.
//!
//! * `Bundle`: `component_ids` registers the component identifiers of every
//!   active field, `get_component_ids` looks them up without registering, and
//!   `register_required_components` registers what the fields require.
//! * `DynamicBundle`: `get_components` consumes the bundle and hands the value
//!   of every active field to a sink.
//! * `BundleFromComponents`: `from_components` rebuilds the bundle, drawing the
//!   active fields from an extraction function and giving the ignored fields
//!   their default value.
//!
//! Every operation does its work by one call per active field into the same
//! operation of the field's type. The storage engine matches the identifiers
//! of `component_ids` against the values of `get_components` by position, so
//! all operations are rendered from one list of fields.
use vstd::prelude::*;
use vstd::string::StringExecFns;
use crate::classify::{FieldDescriptor, FieldDescriptorView, active_fields, classify, container_reports, define, definition_of, descriptor_views, directive_diagnostics, field_reports, inactive_fields, lemma_directive_diagnostics, lemma_partition};
use crate::declaration::{TypeDeclaration, TypeDeclarationView};
use crate::diagnostic::{CompositionError, Diagnostic, diagnostics, lemma_diagnostics_push};
use crate::directive::{BUNDLE_ATTRIBUTE_IGNORE_NAME, BUNDLE_ATTRIBUTE_NO_FROM_COMPONENTS, BundleAttributes, INVALID_CONTAINER_FLAG_MESSAGE, INVALID_FIELD_FLAG_MESSAGE, container_errors, flag_error, is_directive, is_unknown, lemma_directive_errors, scan_container_directives};
use crate::render::{paired, bundle_impl_text, dynamic_bundle_impl_text, from_components_impl_text, render_bundle_impl, render_dynamic_bundle_impl, render_from_components_impl};
use crate::shape::{declared_fields, get_struct_fields, shape_error};
use crate::text::{decimal, decimal_text, lemma_texts_push, texts};

verus! {

/// What a derive hands back to the compiler: diagnostics, each reported as a
/// compile error, followed by generated code.
#[derive(Clone, Debug)]
pub struct Expansion {
    pub diagnostics: Vec<CompositionError>,
    /// The source text of the generated impls; empty where none is generated.
    pub code: String,
}

pub struct ExpansionView {
    pub diagnostics: Seq<Diagnostic>,
    pub code: Seq<char>,
}

impl View for Expansion {
    type V = ExpansionView;

    open spec fn view(&self) -> ExpansionView {
        ExpansionView { diagnostics: diagnostics(self.diagnostics@), code: self.code@ }
    }
}

/// What the generators read of an analysed bundle.
#[derive(Clone, Debug)]
pub struct BundleInfo {
    pub struct_name: String,
    pub impl_generics: String,
    pub type_generics: String,
    pub where_clause: String,
    /// The types of the active fields, in definition order.
    pub active_field_types: Vec<String>,
    /// The diagnostics of the directives.
    pub errors: Vec<CompositionError>,
    /// How each active field is reached: its name, or its position if it has
    /// none. In step with `active_field_types`.
    pub active_field_tokens: Vec<String>,
    /// How each ignored field is reached, in definition order.
    pub inactive_field_tokens: Vec<String>,
    pub attributes: BundleAttributes,
    /// The path under which the generated code finds the ECS crate.
    pub ecs_path: String,
}

pub struct BundleInfoView {
    pub struct_name: Seq<char>,
    pub impl_generics: Seq<char>,
    pub type_generics: Seq<char>,
    pub where_clause: Seq<char>,
    pub active_field_types: Seq<Seq<char>>,
    pub errors: Seq<Diagnostic>,
    pub active_field_tokens: Seq<Seq<char>>,
    pub inactive_field_tokens: Seq<Seq<char>>,
    pub attributes: BundleAttributes,
    pub ecs_path: Seq<char>,
}

impl View for BundleInfo {
    type V = BundleInfoView;

    open spec fn view(&self) -> BundleInfoView {
        BundleInfoView {
            struct_name: self.struct_name@,
            impl_generics: self.impl_generics@,
            type_generics: self.type_generics@,
            where_clause: self.where_clause@,
            active_field_types: texts(self.active_field_types@),
            errors: diagnostics(self.errors@),
            active_field_tokens: texts(self.active_field_tokens@),
            inactive_field_tokens: texts(self.inactive_field_tokens@),
            attributes: self.attributes,
            ecs_path: self.ecs_path@,
        }
    }
}

/// How generated code reaches a field: by its name, or by its position where it
/// has none.
pub open spec fn field_token(field: FieldDescriptorView) -> Seq<char> {
    match field.name {
        Some(name) => name,
        None => decimal(field.position),
    }
}

/// How generated code reaches each of the fields, in order.
pub open spec fn field_tokens(fields: Seq<FieldDescriptorView>) -> Seq<Seq<char>> {
    fields.map_values(|f: FieldDescriptorView| field_token(f))
}

/// The types of the fields, in order.
pub open spec fn field_types(fields: Seq<FieldDescriptorView>) -> Seq<Seq<char>> {
    fields.map_values(|f: FieldDescriptorView| f.declared_type)
}

/// What the generators read of a declaration whose shape is accepted.
pub open spec fn bundle_info(decl: TypeDeclarationView, ecs_path: Seq<char>) -> BundleInfoView {
    let fields = declared_fields(decl.data);
    let definition = definition_of(fields, decl.directives);
    BundleInfoView {
        struct_name: decl.name,
        impl_generics: decl.impl_generics,
        type_generics: decl.type_generics,
        where_clause: decl.where_clause,
        active_field_types: field_types(active_fields(definition.fields)),
        errors: directive_diagnostics(fields, decl.directives),
        active_field_tokens: field_tokens(active_fields(definition.fields)),
        inactive_field_tokens: field_tokens(inactive_fields(definition.fields)),
        attributes: definition.container_directives,
        ecs_path,
    }
}

/// The expansion for a declaration that cannot be a bundle: the diagnostics of
/// the directives on the type, then the one diagnostic that says why the
/// declaration is turned down, and no code.
pub open spec fn rejection(on_type: Seq<Diagnostic>, error: Diagnostic) -> ExpansionView {
    ExpansionView { diagnostics: on_type.push(error), code: Seq::empty() }
}

/// The types of the fields, in order.
fn types_of(fields: &Vec<FieldDescriptor>) -> (r: Vec<String>)
    ensures
        texts(r@) == field_types(descriptor_views(fields@)),
{
    let ghost views = descriptor_views(fields@);
    let mut types: Vec<String> = Vec::new();
    let mut i: usize = 0;
    assert(texts(types@) =~= field_types(views.take(0)));
    while i < fields.len()
        invariant
            i <= fields.len(),
            views == descriptor_views(fields@),
            texts(types@) == field_types(views.take(i as int)),
        decreases fields.len() - i,
    {
        let ty = fields[i].declared_type.clone();
        proof {
            lemma_texts_push(types@, ty);
            assert(views[i as int] == fields@[i as int]@);
            assert(field_types(views.take(i as int)).push(ty@) =~= field_types(views.take(i + 1)));
        }
        types.push(ty);
        i += 1;
    }
    assert(views.take(i as int) =~= views);
    types
}

/// How generated code reaches each of the fields, in order.
fn tokens_of(fields: &Vec<FieldDescriptor>) -> (r: Vec<String>)
    ensures
        texts(r@) == field_tokens(descriptor_views(fields@)),
{
    let ghost views = descriptor_views(fields@);
    let mut tokens: Vec<String> = Vec::new();
    let mut i: usize = 0;
    assert(texts(tokens@) =~= field_tokens(views.take(0)));
    while i < fields.len()
        invariant
            i <= fields.len(),
            views == descriptor_views(fields@),
            texts(tokens@) == field_tokens(views.take(i as int)),
        decreases fields.len() - i,
    {
        let field = &fields[i];
        let token = match &field.name {
            Some(name) => name.clone(),
            None => decimal_text(field.position),
        };
        proof {
            lemma_texts_push(tokens@, token);
            assert(views[i as int] == field@);
            assert(token@ == field_token(views[i as int]));
            assert(field_tokens(views.take(i as int)).push(token@) =~= field_tokens(
                views.take(i + 1),
            ));
        }
        tokens.push(token);
        i += 1;
    }
    assert(views.take(i as int) =~= views);
    tokens
}

impl BundleInfo {
    /// Analyses a declaration and hands the result to a generator.
    ///
    /// A declaration that is not a struct with at least one field is turned
    /// down: the generator is not called, and the expansion holds the
    /// diagnostics of the directives on the type followed by the one that
    /// says why the declaration is turned down. Otherwise the directives are
    /// scanned, the fields classified, and `code` decides the expansion; the
    /// diagnostics of the directives are in `errors` for it to pass on.
    pub fn work<F: FnOnce(BundleInfo) -> Expansion>(
        decl: &TypeDeclaration,
        ecs_path: &str,
        code: F,
    ) -> (out: Expansion)
        requires
            forall|info: BundleInfo|
                info@ == bundle_info(decl@, ecs_path@) ==> call_requires(code, (info,)),
        ensures
            match shape_error(decl@.data) {
                Some(error) => out@ == rejection(container_errors(decl@.directives), error),
                None => exists|info: BundleInfo|
                    info@ == bundle_info(decl@, ecs_path@) && call_ensures(code, (info,), out),
            },
    {
        let named_fields = match get_struct_fields(&decl.data) {
            Ok(fields) => fields,
            Err(e) => {
                let (_, mut errors) = scan_container_directives(&decl.directives);
                proof {
                    lemma_diagnostics_push(errors@, e);
                }
                errors.push(e);
                return Expansion { diagnostics: errors, code: String::new() };
            },
        };
        let (definition, errors) = define(named_fields, &decl.directives);
        let (active, inactive) = classify(&definition);
        let info = BundleInfo {
            struct_name: decl.name.clone(),
            impl_generics: decl.impl_generics.clone(),
            type_generics: decl.type_generics.clone(),
            where_clause: decl.where_clause.clone(),
            active_field_types: types_of(&active),
            errors,
            active_field_tokens: tokens_of(&active),
            inactive_field_tokens: tokens_of(&inactive),
            attributes: definition.container_directives,
            ecs_path: String::from_str(ecs_path),
        };
        assert(info@ == bundle_info(decl@, ecs_path@));
        code(info)
    }
}

/// What `derive(Bundle)` generates for an analysed bundle: the diagnostics of its
/// directives, then the impls of `Bundle` and `DynamicBundle`.
pub open spec fn bundle_impls(info: BundleInfoView) -> ExpansionView {
    ExpansionView {
        diagnostics: info.errors,
        code: bundle_impl_text(info) + dynamic_bundle_impl_text(info),
    }
}

/// What `derive(BundleFromComponents)` generates for an analysed bundle: the
/// diagnostics of its directives, then the impl of `BundleFromComponents`,
/// unless the directives on the type switch it off.
pub open spec fn from_components_impls(info: BundleInfoView) -> ExpansionView {
    ExpansionView {
        diagnostics: info.errors,
        code: if info.attributes.impl_from_components {
            from_components_impl_text(info)
        } else {
            Seq::empty()
        },
    }
}

/// The expansion of `derive(Bundle)` on a declaration.
pub open spec fn bundle_expansion(decl: TypeDeclarationView, ecs_path: Seq<char>) -> ExpansionView {
    match shape_error(decl.data) {
        Some(error) => rejection(container_errors(decl.directives), error),
        None => bundle_impls(bundle_info(decl, ecs_path)),
    }
}

/// The expansion of `derive(BundleFromComponents)` on a declaration.
pub open spec fn from_components_expansion(
    decl: TypeDeclarationView,
    ecs_path: Seq<char>,
) -> ExpansionView {
    match shape_error(decl.data) {
        Some(error) => rejection(container_errors(decl.directives), error),
        None => from_components_impls(bundle_info(decl, ecs_path)),
    }
}

/// The generators get one type and one token for each active field of the
/// declaration, in step, and one token for each ignored field: no field is
/// left out of the lists, and none stands in them twice.
pub proof fn lemma_info_in_step(decl: TypeDeclarationView, ecs_path: Seq<char>)
    ensures
        ({
            let info = bundle_info(decl, ecs_path);
            let fields = definition_of(declared_fields(decl.data), decl.directives).fields;
            &&& info.active_field_types.len() == active_fields(fields).len()
            &&& info.active_field_tokens.len() == active_fields(fields).len()
            &&& info.inactive_field_tokens.len() == inactive_fields(fields).len()
            &&& paired(info) == active_fields(fields).len()
            &&& active_fields(fields).len() + inactive_fields(fields).len() == declared_fields(
                decl.data,
            ).len()
            &&& forall|k: int|
                0 <= k < active_fields(fields).len() ==> {
                    &&& info.active_field_types[k] == (#[trigger] active_fields(
                        fields,
                    )[k]).declared_type
                    &&& info.active_field_tokens[k] == field_token(active_fields(fields)[k])
                }
        }),
{
    let fields = definition_of(declared_fields(decl.data), decl.directives).fields;
    lemma_partition(fields);
}

/// Diagnostic, not crash: whatever is wrong with a declaration comes back as a
/// diagnostic that points at what is wrong, and everything that is wrong comes
/// back at once.
///
/// Both derives give the same diagnostics. Every flag of a directive that is
/// not the valid one of its level is reported at the flag, with the message
/// that names the valid flag, whatever else is wrong with the declaration. A
/// declaration that is not a struct, or is a struct without fields, gives the
/// diagnostics of the directives on the type, then the one diagnostic of its
/// shape, and no code. For a struct with fields nothing is reported but what
/// the directives give rise to.
pub proof fn lemma_diagnosed(decl: TypeDeclarationView, ecs_path: Seq<char>)
    ensures
        from_components_expansion(decl, ecs_path).diagnostics == bundle_expansion(
            decl,
            ecs_path,
        ).diagnostics,
        shape_error(decl.data) matches Some(error) ==> {
            &&& bundle_expansion(decl, ecs_path).diagnostics == container_errors(
                decl.directives,
            ).push(error)
            &&& bundle_expansion(decl, ecs_path).diagnostics.contains(error)
            &&& bundle_expansion(decl, ecs_path).code.len() == 0
            &&& from_components_expansion(decl, ecs_path).code.len() == 0
        },
        forall|j: int, i: int|
            0 <= j < decl.directives.len() && is_directive(decl.directives[j]) && 0 <= i
                < decl.directives[j].flags.len() && (#[trigger] decl.directives[j].flags[i]).name
                != BUNDLE_ATTRIBUTE_NO_FROM_COMPONENTS@ ==> bundle_expansion(
                decl,
                ecs_path,
            ).diagnostics.contains(
                flag_error(decl.directives[j].flags[i], INVALID_CONTAINER_FLAG_MESSAGE@),
            ),
        forall|f: int, j: int, i: int|
            0 <= f < declared_fields(decl.data).len() && 0 <= j < declared_fields(
                decl.data,
            )[f].directives.len() && is_directive(declared_fields(decl.data)[f].directives[j])
                && 0 <= i < declared_fields(decl.data)[f].directives[j].flags.len() && (
            #[trigger] declared_fields(decl.data)[f].directives[j].flags[i]).name
                != BUNDLE_ATTRIBUTE_IGNORE_NAME@ ==> bundle_expansion(
                decl,
                ecs_path,
            ).diagnostics.contains(
                flag_error(
                    declared_fields(decl.data)[f].directives[j].flags[i],
                    INVALID_FIELD_FLAG_MESSAGE@,
                ),
            ),
        forall|e: Diagnostic|
            bundle_expansion(decl, ecs_path).diagnostics.contains(e) ==> {
                ||| shape_error(decl.data) == Some(e)
                ||| exists|j: int|
                    0 <= j < decl.directives.len() && container_reports(
                        #[trigger] decl.directives[j],
                        e,
                    )
                ||| exists|f: int, j: int|
                    0 <= f < declared_fields(decl.data).len() && 0 <= j < declared_fields(
                        decl.data,
                    )[f].directives.len() && field_reports(
                        #[trigger] declared_fields(decl.data)[f].directives[j],
                        e,
                    )
            },
{
    let fields = declared_fields(decl.data);
    let list = bundle_expansion(decl, ecs_path).diagnostics;
    let on_type = container_errors(decl.directives);
    match shape_error(decl.data) {
        Some(error) => {
            assert(list == on_type.push(error));
            assert(list[on_type.len() as int] == error);
            assert(fields.len() == 0);
            assert forall|j: int, i: int|
                0 <= j < decl.directives.len() && is_directive(decl.directives[j]) && 0 <= i
                    < decl.directives[j].flags.len() && (
                #[trigger] decl.directives[j].flags[i]).name
                    != BUNDLE_ATTRIBUTE_NO_FROM_COMPONENTS@ implies list.contains(
                flag_error(decl.directives[j].flags[i], INVALID_CONTAINER_FLAG_MESSAGE@),
            ) by {
                let e = flag_error(decl.directives[j].flags[i], INVALID_CONTAINER_FLAG_MESSAGE@);
                assert(is_unknown(
                    decl.directives[j].flags[i],
                    BUNDLE_ATTRIBUTE_NO_FROM_COMPONENTS@,
                ));
                assert(container_reports(decl.directives[j], e));
                lemma_directive_errors(
                    decl.directives,
                    BUNDLE_ATTRIBUTE_NO_FROM_COMPONENTS@,
                    INVALID_CONTAINER_FLAG_MESSAGE@,
                    e,
                );
                let k = choose|k: int| 0 <= k < on_type.len() && on_type[k] == e;
                assert(list[k] == e);
            }
            assert forall|e: Diagnostic| list.contains(e) implies {
                ||| shape_error(decl.data) == Some(e)
                ||| exists|j: int|
                    0 <= j < decl.directives.len() && container_reports(
                        #[trigger] decl.directives[j],
                        e,
                    )
                ||| exists|f: int, j: int|
                    0 <= f < fields.len() && 0 <= j < fields[f].directives.len()
                        && field_reports(#[trigger] fields[f].directives[j], e)
            } by {
                let k = choose|k: int| 0 <= k < list.len() && list[k] == e;
                if k < on_type.len() {
                    assert(on_type[k] == e);
                    assert(on_type.contains(e));
                    lemma_directive_errors(
                        decl.directives,
                        BUNDLE_ATTRIBUTE_NO_FROM_COMPONENTS@,
                        INVALID_CONTAINER_FLAG_MESSAGE@,
                        e,
                    );
                }
            }
        },
        None => {
            assert(list == directive_diagnostics(fields, decl.directives));
            assert forall|j: int, i: int|
                0 <= j < decl.directives.len() && is_directive(decl.directives[j]) && 0 <= i
                    < decl.directives[j].flags.len() && (
                #[trigger] decl.directives[j].flags[i]).name
                    != BUNDLE_ATTRIBUTE_NO_FROM_COMPONENTS@ implies list.contains(
                flag_error(decl.directives[j].flags[i], INVALID_CONTAINER_FLAG_MESSAGE@),
            ) by {
                let e = flag_error(decl.directives[j].flags[i], INVALID_CONTAINER_FLAG_MESSAGE@);
                assert(is_unknown(
                    decl.directives[j].flags[i],
                    BUNDLE_ATTRIBUTE_NO_FROM_COMPONENTS@,
                ));
                assert(container_reports(decl.directives[j], e));
                lemma_directive_diagnostics(fields, decl.directives, e);
            }
            assert forall|f: int, j: int, i: int|
                0 <= f < fields.len() && 0 <= j < fields[f].directives.len() && is_directive(
                    fields[f].directives[j],
                ) && 0 <= i < fields[f].directives[j].flags.len() && (
                #[trigger] fields[f].directives[j].flags[i]).name
                    != BUNDLE_ATTRIBUTE_IGNORE_NAME@ implies list.contains(
                flag_error(fields[f].directives[j].flags[i], INVALID_FIELD_FLAG_MESSAGE@),
            ) by {
                let e = flag_error(fields[f].directives[j].flags[i], INVALID_FIELD_FLAG_MESSAGE@);
                assert(is_unknown(fields[f].directives[j].flags[i], BUNDLE_ATTRIBUTE_IGNORE_NAME@));
                assert(field_reports(fields[f].directives[j], e));
                lemma_directive_diagnostics(fields, decl.directives, e);
            }
            assert forall|e: Diagnostic| list.contains(e) implies {
                ||| shape_error(decl.data) == Some(e)
                ||| exists|j: int|
                    0 <= j < decl.directives.len() && container_reports(
                        #[trigger] decl.directives[j],
                        e,
                    )
                ||| exists|f: int, j: int|
                    0 <= f < fields.len() && 0 <= j < fields[f].directives.len()
                        && field_reports(#[trigger] fields[f].directives[j], e)
            } by {
                lemma_directive_diagnostics(fields, decl.directives, e);
            }
        },
    }
}

/// The generator of `derive(Bundle)`: passes the diagnostics on and writes the
/// impls of `Bundle` and `DynamicBundle`.
pub fn generate_bundle_impls(info: BundleInfo) -> (out: Expansion)
    ensures
        out@ == bundle_impls(info@),
{
    let mut code = render_bundle_impl(&info);
    code.append(render_dynamic_bundle_impl(&info).as_str());
    Expansion { diagnostics: info.errors, code }
}

/// The generator of `derive(BundleFromComponents)`: passes the diagnostics on
/// and writes the impl of `BundleFromComponents`, unless it is switched off.
pub fn generate_from_components_impl(info: BundleInfo) -> (out: Expansion)
    ensures
        out@ == from_components_impls(info@),
{
    let code = if info.attributes.impl_from_components {
        render_from_components_impl(&info)
    } else {
        String::new()
    };
    Expansion { diagnostics: info.errors, code }
}

/// `derive(Bundle)`: generates the impls of `Bundle` and `DynamicBundle` for a
/// declaration, with `ecs_path` as the path of the ECS crate.
///
/// A declaration that is not a struct with at least one field gives no code:
/// it gives the diagnostics of the directives on the type and then the
/// diagnostic of its shape. Any other gives both impls, preceded by one
/// diagnostic for each unknown flag and each directive that could not be
/// read.
pub fn derive_bundle(decl: &TypeDeclaration, ecs_path: &str) -> (out: Expansion)
    ensures
        out@ == bundle_expansion(decl@, ecs_path@),
{
    BundleInfo::work(decl, ecs_path, generate_bundle_impls)
}

/// `derive(BundleFromComponents)`: generates the impl of `BundleFromComponents`
/// for a declaration, with `ecs_path` as the path of the ECS crate.
///
/// A declaration that is not a struct with at least one field gives no code:
/// it gives the diagnostics of the directives on the type and then the
/// diagnostic of its shape. Any other gives the impl, unless a directive on the
/// type holds `ignore_from_components`, preceded by one diagnostic for each
/// unknown flag and each directive that could not be read.
///
/// The generated `from_components` is an unsafe function: it takes whatever
/// the extraction function hands it for the value of the next active field.
/// Its caller has to supply the components in the order in which
/// `component_ids` registers them; nothing checks this.
pub fn derive_bundle_from_component(decl: &TypeDeclaration, ecs_path: &str) -> (out: Expansion)
    ensures
        out@ == from_components_expansion(decl@, ecs_path@),
{
    BundleInfo::work(decl, ecs_path, generate_from_components_impl)
}

} // verus!
