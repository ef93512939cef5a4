//! The field classifier: from the fields as written to the analysed shape of the
//! bundle, and its split into active and ignored fields.
use vstd::prelude::*;
use crate::declaration::{Directive, DirectiveView, FieldSyntax, FieldSyntaxView, directive_views, field_views, text_option};
use crate::diagnostic::{CompositionError, Diagnostic, diagnostics};
use crate::directive::{BUNDLE_ATTRIBUTE_IGNORE_NAME, BUNDLE_ATTRIBUTE_NO_FROM_COMPONENTS, BundleAttributes, INVALID_CONTAINER_FLAG_MESSAGE, INVALID_FIELD_FLAG_MESSAGE, container_attributes, container_errors, field_directive_errors, field_ignored, lemma_contains_add, lemma_directive_errors, reports, scan_container_directives, scan_field_directives};

verus! {

/// Whether a field takes part in composition.
#[derive(Clone, Copy, Debug, PartialEq, Eq, Structural)]
pub enum FieldKind {
    /// The field is a component or a bundle of its own: its identifiers are
    /// registered and its value is moved into storage.
    Active,
    /// The field is left out of composition and gets its type's default value
    /// when a bundle is rebuilt.
    Ignored,
}

/// One field of a bundle.
#[derive(Debug)]
pub struct FieldDescriptor {
    /// The index of the field in the declaration.
    pub position: usize,
    /// The field's name; `None` for a positional field, which is reached by its
    /// position.
    pub name: Option<String>,
    /// The field's type, as source text.
    pub declared_type: String,
    pub kind: FieldKind,
}

pub struct FieldDescriptorView {
    pub position: nat,
    pub name: Option<Seq<char>>,
    pub declared_type: Seq<char>,
    pub kind: FieldKind,
}

impl View for FieldDescriptor {
    type V = FieldDescriptorView;

    open spec fn view(&self) -> FieldDescriptorView {
        FieldDescriptorView {
            position: self.position as nat,
            name: text_option(self.name),
            declared_type: self.declared_type@,
            kind: self.kind,
        }
    }
}

impl Clone for FieldDescriptor {
    fn clone(&self) -> (r: FieldDescriptor)
        ensures
            r@ == self@,
    {
        FieldDescriptor {
            position: self.position,
            name: match &self.name {
                Some(n) => Some(n.clone()),
                None => None,
            },
            declared_type: self.declared_type.clone(),
            kind: self.kind,
        }
    }
}

/// The values of a list of field descriptors, in order.
pub open spec fn descriptor_views(fields: Seq<FieldDescriptor>) -> Seq<FieldDescriptorView> {
    fields.map_values(|f: FieldDescriptor| f@)
}

/// The analysed shape of one bundle type: its fields in definition order, and
/// what the directives on the type ask for.
#[derive(Clone, Debug)]
pub struct BundleDefinition {
    pub fields: Vec<FieldDescriptor>,
    pub container_directives: BundleAttributes,
}

pub struct BundleDefinitionView {
    pub fields: Seq<FieldDescriptorView>,
    pub container_directives: BundleAttributes,
}

impl View for BundleDefinition {
    type V = BundleDefinitionView;

    open spec fn view(&self) -> BundleDefinitionView {
        BundleDefinitionView {
            fields: descriptor_views(self.fields@),
            container_directives: self.container_directives,
        }
    }
}

/// The kind that a field's directives give it: ignored if `ignore` is present
/// in them, active otherwise.
pub open spec fn field_kind(directives: Seq<DirectiveView>) -> FieldKind {
    if field_ignored(directives) {
        FieldKind::Ignored
    } else {
        FieldKind::Active
    }
}

/// The descriptor of the field written at `position`.
pub open spec fn describe(field: FieldSyntaxView, position: nat) -> FieldDescriptorView {
    FieldDescriptorView {
        position,
        name: field.name,
        declared_type: field.declared_type,
        kind: field_kind(field.directives),
    }
}

/// The descriptors of the fields of a declaration, in definition order.
pub open spec fn described_fields(fields: Seq<FieldSyntaxView>) -> Seq<FieldDescriptorView> {
    Seq::new(fields.len(), |i: int| describe(fields[i], i as nat))
}

/// The diagnostics of the directives on the fields: field by field in definition
/// order, and within a field in the order written.
pub open spec fn field_errors(fields: Seq<FieldSyntaxView>) -> Seq<Diagnostic>
    decreases fields.len(),
{
    if fields.len() == 0 {
        Seq::empty()
    } else {
        field_errors(fields.drop_last()) + field_directive_errors(fields.last().directives)
    }
}

/// The shape of the bundle that a field list and the directives on the type
/// describe.
pub open spec fn definition_of(
    fields: Seq<FieldSyntaxView>,
    directives: Seq<DirectiveView>,
) -> BundleDefinitionView {
    BundleDefinitionView {
        fields: described_fields(fields),
        container_directives: container_attributes(directives),
    }
}

/// Every diagnostic of the directives of a declaration: those on the type first,
/// then those on the fields.
pub open spec fn directive_diagnostics(
    fields: Seq<FieldSyntaxView>,
    directives: Seq<DirectiveView>,
) -> Seq<Diagnostic> {
    container_errors(directives) + field_errors(fields)
}

pub open spec fn is_active(field: FieldDescriptorView) -> bool {
    field.kind == FieldKind::Active
}

pub open spec fn is_ignored(field: FieldDescriptorView) -> bool {
    field.kind == FieldKind::Ignored
}

/// The active fields, in definition order.
pub open spec fn active_fields(fields: Seq<FieldDescriptorView>) -> Seq<FieldDescriptorView> {
    fields.filter(|f: FieldDescriptorView| is_active(f))
}

/// The ignored fields, in definition order.
pub open spec fn inactive_fields(fields: Seq<FieldDescriptorView>) -> Seq<FieldDescriptorView> {
    fields.filter(|f: FieldDescriptorView| is_ignored(f))
}

/// The fields stand at their positions: field `i` of the list says that its
/// position is `i`.
pub open spec fn positions_in_order(fields: Seq<FieldDescriptorView>) -> bool {
    forall|i: int| 0 <= i < fields.len() ==> (#[trigger] fields[i]).position == i
}

impl BundleDefinition {
    /// A definition is well formed when its fields stand at their positions.
    pub open spec fn wf(&self) -> bool {
        positions_in_order(self@.fields)
    }
}

/// `part` holds fields of `fields` only, each at most once and in definition
/// order: its members stand in `fields` at their own positions, and those
/// positions grow along `part`.
pub open spec fn keeps_order(
    part: Seq<FieldDescriptorView>,
    fields: Seq<FieldDescriptorView>,
) -> bool {
    &&& forall|k: int|
        0 <= k < part.len() ==> (#[trigger] part[k]).position < fields.len() && fields[part[k].position as int]
            == part[k]
    &&& forall|k: int, l: int|
        0 <= k < l < part.len() ==> (#[trigger] part[k]).position < (#[trigger] part[l]).position
}

/// What is kept of a field list by a test on the fields keeps the definition
/// order, and holds every field that passes the test.
proof fn lemma_filter_keeps_order(
    fields: Seq<FieldDescriptorView>,
    pred: spec_fn(FieldDescriptorView) -> bool,
)
    requires
        positions_in_order(fields),
    ensures
        keeps_order(fields.filter(pred), fields),
        forall|k: int| 0 <= k < fields.filter(pred).len() ==> pred(#[trigger] fields.filter(pred)[k]),
        forall|i: int|
            0 <= i < fields.len() && pred(fields[i]) ==> fields.filter(pred).contains(
                #[trigger] fields[i],
            ),
    decreases fields.len(),
{
    reveal(Seq::filter);
    if fields.len() > 0 {
        let init = fields.drop_last();
        let last = fields.last();
        assert forall|i: int| 0 <= i < init.len() implies (#[trigger] init[i]).position == i by {
            assert(init[i] == fields[i]);
        }
        lemma_filter_keeps_order(init, pred);
        let kept = init.filter(pred);
        let part = fields.filter(pred);
        assert forall|k: int| 0 <= k < part.len() implies (#[trigger] part[k]).position
            < fields.len() && fields[part[k].position as int] == part[k] && pred(part[k]) by {
            if k < kept.len() {
                assert(part[k] == kept[k]);
                assert(init[kept[k].position as int] == fields[kept[k].position as int]);
            }
        }
        assert forall|k: int, l: int| 0 <= k < l < part.len() implies (#[trigger] part[k]).position
            < (#[trigger] part[l]).position by {
            assert(part[k] == kept[k]);
            if l < kept.len() {
                assert(part[l] == kept[l]);
            }
        }
        assert forall|i: int| 0 <= i < fields.len() && pred(fields[i]) implies part.contains(
            #[trigger] fields[i],
        ) by {
            if i < init.len() {
                assert(init[i] == fields[i]);
                assert(kept.contains(init[i]));
                let k = choose|k: int| 0 <= k < kept.len() && kept[k] == init[i];
                assert(part[k] == fields[i]);
            } else {
                assert(part[part.len() - 1] == fields[i]);
            }
        }
    }
}

/// The two parts of a split have as many fields together as the list.
proof fn lemma_split_len(fields: Seq<FieldDescriptorView>)
    ensures
        active_fields(fields).len() + inactive_fields(fields).len() == fields.len(),
    decreases fields.len(),
{
    reveal(Seq::filter);
    if fields.len() > 0 {
        lemma_split_len(fields.drop_last());
    }
}

/// The split of a bundle's fields is a partition that keeps the definition
/// order: every field is in exactly one of the two parts, the active fields in
/// the one and the ignored fields in the other; neither part holds anything
/// else or holds a field twice; and within each part the fields follow one
/// another as in the declaration.
pub proof fn lemma_partition(fields: Seq<FieldDescriptorView>)
    requires
        positions_in_order(fields),
    ensures
        active_fields(fields).len() + inactive_fields(fields).len() == fields.len(),
        keeps_order(active_fields(fields), fields),
        keeps_order(inactive_fields(fields), fields),
        forall|k: int|
            0 <= k < active_fields(fields).len() ==> is_active(#[trigger] active_fields(fields)[k]),
        forall|k: int|
            0 <= k < inactive_fields(fields).len() ==> is_ignored(
                #[trigger] inactive_fields(fields)[k],
            ),
        forall|i: int|
            0 <= i < fields.len() ==> (active_fields(fields).contains(#[trigger] fields[i])
                <==> !inactive_fields(fields).contains(fields[i])),
        forall|i: int|
            0 <= i < fields.len() ==> (active_fields(fields).contains(#[trigger] fields[i])
                <==> is_active(fields[i])),
{
    let active = active_fields(fields);
    let inactive = inactive_fields(fields);
    lemma_split_len(fields);
    lemma_filter_keeps_order(fields, |f: FieldDescriptorView| is_active(f));
    lemma_filter_keeps_order(fields, |f: FieldDescriptorView| is_ignored(f));
    assert forall|i: int| 0 <= i < fields.len() implies (active.contains(#[trigger] fields[i])
        <==> is_active(fields[i])) && (inactive.contains(fields[i]) <==> is_ignored(fields[i])) by {
        if active.contains(fields[i]) {
            let k = choose|k: int| 0 <= k < active.len() && active[k] == fields[i];
            assert(is_active(active[k]));
        }
        if inactive.contains(fields[i]) {
            let k = choose|k: int| 0 <= k < inactive.len() && inactive[k] == fields[i];
            assert(is_ignored(inactive[k]));
        }
    }
}

/// A directive on the type gives rise to diagnostic `e`.
pub open spec fn container_reports(directive: DirectiveView, e: Diagnostic) -> bool {
    reports(directive, BUNDLE_ATTRIBUTE_NO_FROM_COMPONENTS@, INVALID_CONTAINER_FLAG_MESSAGE@, e)
}

/// A directive on a field gives rise to diagnostic `e`.
pub open spec fn field_reports(directive: DirectiveView, e: Diagnostic) -> bool {
    reports(directive, BUNDLE_ATTRIBUTE_IGNORE_NAME@, INVALID_FIELD_FLAG_MESSAGE@, e)
}

/// The diagnostics of the fields are those that the directives on the fields
/// give rise to, and no others.
pub proof fn lemma_field_errors(fields: Seq<FieldSyntaxView>, e: Diagnostic)
    ensures
        field_errors(fields).contains(e) <==> exists|i: int, j: int|
            0 <= i < fields.len() && 0 <= j < fields[i].directives.len() && field_reports(
                #[trigger] fields[i].directives[j],
                e,
            ),
    decreases fields.len(),
{
    if fields.len() > 0 {
        let init = fields.drop_last();
        let last = fields.last();
        lemma_field_errors(init, e);
        lemma_directive_errors(
            last.directives,
            BUNDLE_ATTRIBUTE_IGNORE_NAME@,
            INVALID_FIELD_FLAG_MESSAGE@,
            e,
        );
        lemma_contains_add(field_errors(init), field_directive_errors(last.directives), e);
        if exists|i: int, j: int|
            0 <= i < init.len() && 0 <= j < init[i].directives.len() && field_reports(
                #[trigger] init[i].directives[j],
                e,
            ) {
            let (i, j) = choose|i: int, j: int|
                0 <= i < init.len() && 0 <= j < init[i].directives.len() && field_reports(
                    #[trigger] init[i].directives[j],
                    e,
                );
            assert(fields[i] == init[i]);
            assert(field_reports(fields[i].directives[j], e));
        }
        if exists|j: int|
            0 <= j < last.directives.len() && field_reports(#[trigger] last.directives[j], e) {
            let j = choose|j: int|
                0 <= j < last.directives.len() && field_reports(#[trigger] last.directives[j], e);
            assert(field_reports(fields[fields.len() - 1].directives[j], e));
        }
        if exists|i: int, j: int|
            0 <= i < fields.len() && 0 <= j < fields[i].directives.len() && field_reports(
                #[trigger] fields[i].directives[j],
                e,
            ) {
            let (i, j) = choose|i: int, j: int|
                0 <= i < fields.len() && 0 <= j < fields[i].directives.len() && field_reports(
                    #[trigger] fields[i].directives[j],
                    e,
                );
            if i < init.len() {
                assert(init[i] == fields[i]);
                assert(field_reports(init[i].directives[j], e));
            } else {
                assert(field_reports(last.directives[j], e));
            }
        }
    }
}

/// The diagnostics of a declaration's directives are those that the directives
/// on the type and on the fields give rise to, and no others: every unknown
/// flag and every fault has its diagnostic, and nothing else is reported.
pub proof fn lemma_directive_diagnostics(
    fields: Seq<FieldSyntaxView>,
    directives: Seq<DirectiveView>,
    e: Diagnostic,
)
    ensures
        directive_diagnostics(fields, directives).contains(e) <==> {
            ||| exists|j: int|
                0 <= j < directives.len() && container_reports(#[trigger] directives[j], e)
            ||| exists|i: int, j: int|
                0 <= i < fields.len() && 0 <= j < fields[i].directives.len() && field_reports(
                    #[trigger] fields[i].directives[j],
                    e,
                )
        },
{
    lemma_directive_errors(
        directives,
        BUNDLE_ATTRIBUTE_NO_FROM_COMPONENTS@,
        INVALID_CONTAINER_FLAG_MESSAGE@,
        e,
    );
    lemma_field_errors(fields, e);
    lemma_contains_add(container_errors(directives), field_errors(fields), e);
}

/// Appending a descriptor to a list appends its value to the list's values.
pub proof fn lemma_descriptor_views_push(fields: Seq<FieldDescriptor>, f: FieldDescriptor)
    ensures
        descriptor_views(fields.push(f)) == descriptor_views(fields).push(f@),
{
    assert(descriptor_views(fields.push(f)) =~= descriptor_views(fields).push(f@));
}

/// Scans the directives of a declaration and describes its fields. Scanning is
/// best effort: a directive that is reported does not stop the scan of the
/// others, and every field gets its descriptor.
pub fn define(fields: &Vec<FieldSyntax>, directives: &Vec<Directive>) -> (r: (
    BundleDefinition,
    Vec<CompositionError>,
))
    ensures
        r.0@ == definition_of(field_views(fields@), directive_views(directives@)),
        r.0.wf(),
        diagnostics(r.1@) == directive_diagnostics(
            field_views(fields@),
            directive_views(directives@),
        ),
{
    let (container_directives, mut errors) = scan_container_directives(directives);
    let ghost views = field_views(fields@);
    let ghost container = diagnostics(errors@);
    let mut described: Vec<FieldDescriptor> = Vec::new();
    let mut i: usize = 0;
    assert(descriptor_views(described@) =~= described_fields(views).take(0));
    assert(views.take(0) =~= Seq::<FieldSyntaxView>::empty());
    assert(container + field_errors(views.take(0)) =~= container);
    while i < fields.len()
        invariant
            i <= fields.len(),
            views == field_views(fields@),
            descriptor_views(described@) == described_fields(views).take(i as int),
            diagnostics(errors@) == container + field_errors(views.take(i as int)),
        decreases fields.len() - i,
    {
        let field = &fields[i];
        let (ignored, mut found) = scan_field_directives(&field.directives);
        let descriptor = FieldDescriptor {
            position: i,
            name: match &field.name {
                Some(n) => Some(n.clone()),
                None => None,
            },
            declared_type: field.declared_type.clone(),
            kind: if ignored {
                FieldKind::Ignored
            } else {
                FieldKind::Active
            },
        };
        proof {
            assert(views[i as int] == field@);
            assert(descriptor@ == describe(views[i as int], i as nat));
            lemma_descriptor_views_push(described@, descriptor);
            assert(described_fields(views).take(i as int).push(descriptor@) =~= described_fields(
                views,
            ).take(i + 1));
            let now = views.take(i + 1);
            assert(now.drop_last() =~= views.take(i as int));
            assert(now.last() == views[i as int]);
            assert(diagnostics(errors@ + found@) =~= diagnostics(errors@) + diagnostics(found@));
            assert((container + field_errors(views.take(i as int))) + diagnostics(found@)
                =~= container + field_errors(now));
        }
        described.push(descriptor);
        errors.append(&mut found);
        i += 1;
    }
    assert(views.take(i as int) =~= views);
    assert(described_fields(views).take(i as int) =~= described_fields(views));
    (BundleDefinition { fields: described, container_directives }, errors)
}

/// Splits the fields of a bundle into the active and the ignored ones. Each part
/// keeps the definition order; [`lemma_partition`] spells out that the two parts
/// are disjoint and together hold every field.
pub fn classify(definition: &BundleDefinition) -> (r: (Vec<FieldDescriptor>, Vec<FieldDescriptor>))
    ensures
        descriptor_views(r.0@) == active_fields(definition@.fields),
        descriptor_views(r.1@) == inactive_fields(definition@.fields),
{
    let ghost views = definition@.fields;
    let ghost active_pred = |f: FieldDescriptorView| is_active(f);
    let ghost ignored_pred = |f: FieldDescriptorView| is_ignored(f);
    let mut active: Vec<FieldDescriptor> = Vec::new();
    let mut inactive: Vec<FieldDescriptor> = Vec::new();
    let mut i: usize = 0;
    proof {
        reveal(Seq::filter);
        assert(views.take(0) =~= Seq::<FieldDescriptorView>::empty());
        assert(descriptor_views(active@) =~= views.take(0).filter(active_pred));
        assert(descriptor_views(inactive@) =~= views.take(0).filter(ignored_pred));
    }
    while i < definition.fields.len()
        invariant
            i <= definition.fields.len(),
            views == definition@.fields,
            views.len() == definition.fields.len(),
            active_pred == (|f: FieldDescriptorView| is_active(f)),
            ignored_pred == (|f: FieldDescriptorView| is_ignored(f)),
            descriptor_views(active@) == views.take(i as int).filter(active_pred),
            descriptor_views(inactive@) == views.take(i as int).filter(ignored_pred),
        decreases definition.fields.len() - i,
    {
        let field = definition.fields[i].clone();
        proof {
            assert(field@ == views[i as int]);
            assert(views.take(i + 1) =~= views.take(i as int).push(views[i as int]));
            views.take(i as int).lemma_filter_push(views[i as int], active_pred);
            views.take(i as int).lemma_filter_push(views[i as int], ignored_pred);
            lemma_descriptor_views_push(active@, field);
            lemma_descriptor_views_push(inactive@, field);
        }
        match field.kind {
            FieldKind::Active => active.push(field),
            FieldKind::Ignored => inactive.push(field),
        }
        i += 1;
    }
    assert(views.take(i as int) =~= views);
    (active, inactive)
}

} // verus!
