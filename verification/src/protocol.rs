//! What the generated operations do at run time, as operations on the analysed
//! bundle.
//!
//! The generated impls do their work field by field: each operation calls the
//! same operation of every active field's type, in definition order. The
//! methods of [`BundleDefinition`] in this module compose in the same way over
//! the list of fields, with every active field taken as one component. A field
//! that is a bundle of its own stands for the sequence of its components, which
//! composes in the same way.
//!
//! * `component_ids` and `get_component_ids` register and look up the
//!   identifiers of the active fields in a [`ComponentRegistry`].
//! * `get_components` consumes a bundle value, given as one value for each
//!   field, and hands out the values of the active fields: these are the calls
//!   of the sink, in order. A value stands for the owning pointer and the
//!   storage tag that the sink receives, and is moved, never copied.
//! * `from_components` builds a bundle value from the values that the
//!   extraction function hands out, in order, and from the default values of
//!   the ignored fields.
//!
//! The laws that the storage engine relies on are proved of these operations.
use vstd::prelude::*;
use crate::bundle::{bundle_info, field_types};
use crate::classify::{BundleDefinition, FieldDescriptorView, FieldKind, active_fields, definition_of, inactive_fields, is_active, is_ignored, keeps_order, lemma_partition, positions_in_order};
use crate::declaration::TypeDeclarationView;
use crate::shape::declared_fields;
use crate::registry::{ComponentId, ComponentRegistry, distinct, identifier, lemma_identifier_stable, lemma_registered, registered};

verus! {

/// The types of the active fields, in definition order.
pub open spec fn active_types(fields: Seq<FieldDescriptorView>) -> Seq<Seq<char>> {
    field_types(active_fields(fields))
}

/// The operations of this module take the active fields in the order in which
/// the generated operations call them: the list that the generated impls are
/// written from is the list of [`active_types`] of the analysed declaration.
pub proof fn lemma_generated_order(decl: TypeDeclarationView, ecs_path: Seq<char>)
    ensures
        bundle_info(decl, ecs_path).active_field_types == active_types(
            definition_of(declared_fields(decl.data), decl.directives).fields,
        ),
{
}

/// The registered types after each of `types` is registered in turn.
pub open spec fn registered_all(before: Seq<Seq<char>>, types: Seq<Seq<char>>) -> Seq<Seq<char>>
    decreases types.len(),
{
    if types.len() == 0 {
        before
    } else {
        registered(registered_all(before, types.drop_last()), types.last())
    }
}

/// The identifiers that registering each of `types` in turn hands out: each
/// type gets the identifier that it has as soon as it is registered.
pub open spec fn registration_ids(before: Seq<Seq<char>>, types: Seq<Seq<char>>) -> Seq<nat>
    decreases types.len(),
{
    if types.len() == 0 {
        Seq::empty()
    } else {
        registration_ids(before, types.drop_last()).push(
            identifier(registered_all(before, types), types.last()).unwrap(),
        )
    }
}

/// The identifiers that looking each of `types` up hands out: for each type its
/// identifier, or `None` if it is not registered.
pub open spec fn lookup_ids(registry: Seq<Seq<char>>, types: Seq<Seq<char>>) -> Seq<Option<nat>> {
    types.map_values(|ty: Seq<char>| identifier(registry, ty))
}

/// The values of a list of identifiers.
pub open spec fn id_values(ids: Seq<ComponentId>) -> Seq<nat> {
    ids.map_values(|id: ComponentId| id.0 as nat)
}

/// The values of a list of optional identifiers.
pub open spec fn optional_id_values(ids: Seq<Option<ComponentId>>) -> Seq<Option<nat>> {
    ids.map_values(
        |id: Option<ComponentId>|
            match id {
                Some(id) => Some(id.0 as nat),
                None => None,
            },
    )
}

/// Registering types one after the other keeps the registry without
/// repetitions and keeps what was registered before.
pub proof fn lemma_registered_all(before: Seq<Seq<char>>, types: Seq<Seq<char>>)
    requires
        distinct(before),
    ensures
        distinct(registered_all(before, types)),
        before.is_prefix_of(registered_all(before, types)),
        registration_ids(before, types).len() == types.len(),
    decreases types.len(),
{
    if types.len() > 0 {
        lemma_registered_all(before, types.drop_last());
        lemma_registered(registered_all(before, types.drop_last()), types.last());
    }
}

/// Order identity: once the types of a bundle are registered, looking them up
/// gives the identifiers that registration gave, one for one. The two
/// sequences have the same length and agree at every position.
pub proof fn lemma_order_identity(before: Seq<Seq<char>>, types: Seq<Seq<char>>)
    requires
        distinct(before),
    ensures
        lookup_ids(registered_all(before, types), types) == registration_ids(
            before,
            types,
        ).map_values(|id: nat| Some(id)),
    decreases types.len(),
{
    let after = registered_all(before, types);
    let looked_up = lookup_ids(after, types);
    let given = registration_ids(before, types).map_values(|id: nat| Some(id));
    lemma_registered_all(before, types);
    if types.len() > 0 {
        let init = types.drop_last();
        let middle = registered_all(before, init);
        lemma_registered_all(before, init);
        lemma_order_identity(before, init);
        lemma_registered(middle, types.last());
        assert forall|i: int| 0 <= i < types.len() implies looked_up[i] == given[i] by {
            if i < init.len() {
                assert(lookup_ids(middle, init)[i] == Some(registration_ids(before, init)[i]));
                assert(init[i] == types[i]);
                lemma_identifier_stable(middle, after, types[i]);
            }
        }
    }
    assert(looked_up =~= given);
}

impl BundleDefinition {
    /// Registers the component of every active field, in definition order, and
    /// returns the identifiers in that order.
    pub fn component_ids(&self, registry: &mut ComponentRegistry) -> (ids: Vec<ComponentId>)
        requires
            old(registry).wf(),
        ensures
            final(registry).wf(),
            final(registry)@ == registered_all(old(registry)@, active_types(self@.fields)),
            id_values(ids@) == registration_ids(old(registry)@, active_types(self@.fields)),
    {
        let ghost views = self@.fields;
        let ghost before = registry@;
        let ghost active = |f: FieldDescriptorView| is_active(f);
        let mut ids: Vec<ComponentId> = Vec::new();
        let mut i: usize = 0;
        proof {
            reveal(Seq::filter);
            assert(views.take(0) =~= Seq::<FieldDescriptorView>::empty());
            assert(active_types(views.take(0)) =~= Seq::<Seq<char>>::empty());
            assert(id_values(ids@) =~= Seq::<nat>::empty());
        }
        while i < self.fields.len()
            invariant
                i <= self.fields.len(),
                views == self@.fields,
                views.len() == self.fields.len(),
                distinct(before),
                registry.wf(),
                registry@ == registered_all(before, active_types(views.take(i as int))),
                id_values(ids@) == registration_ids(before, active_types(views.take(i as int))),
            decreases self.fields.len() - i,
        {
            let field = &self.fields[i];
            proof {
                assert(views[i as int] == field@);
                assert(views.take(i + 1) =~= views.take(i as int).push(views[i as int]));
                views.take(i as int).lemma_filter_push(
                    views[i as int],
                    |f: FieldDescriptorView| is_active(f),
                );
            }
            match field.kind {
                FieldKind::Active => {
                    let id = registry.register(field.declared_type.as_str());
                    proof {
                        let types = active_types(views.take(i as int));
                        let now = active_types(views.take(i + 1));
                        assert(now =~= types.push(field.declared_type@));
                        assert(now.drop_last() =~= types);
                        assert(id_values(ids@.push(id)) =~= id_values(ids@).push(id.0 as nat));
                    }
                    ids.push(id);
                },
                FieldKind::Ignored => {
                    assert(active_types(views.take(i + 1)) =~= active_types(views.take(i as int)));
                },
            }
            i += 1;
        }
        assert(views.take(i as int) =~= views);
        ids
    }

    /// Looks up the component of every active field, in definition order,
    /// without registering any, and returns what it finds in that order.
    pub fn get_component_ids(&self, registry: &ComponentRegistry) -> (ids: Vec<
        Option<ComponentId>,
    >)
        requires
            registry.wf(),
        ensures
            optional_id_values(ids@) == lookup_ids(registry@, active_types(self@.fields)),
    {
        let ghost views = self@.fields;
        let mut ids: Vec<Option<ComponentId>> = Vec::new();
        let mut i: usize = 0;
        proof {
            reveal(Seq::filter);
            assert(views.take(0) =~= Seq::<FieldDescriptorView>::empty());
            assert(active_types(views.take(0)) =~= Seq::<Seq<char>>::empty());
            assert(optional_id_values(ids@) =~= lookup_ids(
                registry@,
                active_types(views.take(0)),
            ));
        }
        while i < self.fields.len()
            invariant
                i <= self.fields.len(),
                views == self@.fields,
                views.len() == self.fields.len(),
                registry.wf(),
                optional_id_values(ids@) == lookup_ids(
                    registry@,
                    active_types(views.take(i as int)),
                ),
            decreases self.fields.len() - i,
        {
            let field = &self.fields[i];
            proof {
                assert(views[i as int] == field@);
                assert(views.take(i + 1) =~= views.take(i as int).push(views[i as int]));
                views.take(i as int).lemma_filter_push(
                    views[i as int],
                    |f: FieldDescriptorView| is_active(f),
                );
            }
            match field.kind {
                FieldKind::Active => {
                    let id = registry.lookup(field.declared_type.as_str());
                    proof {
                        let types = active_types(views.take(i as int));
                        let now = active_types(views.take(i + 1));
                        assert(now =~= types.push(field.declared_type@));
                        let found = identifier(registry@, field.declared_type@);
                        assert(optional_id_values(ids@.push(id)) =~= optional_id_values(ids@).push(
                            found,
                        ));
                        assert(lookup_ids(registry@, now) =~= lookup_ids(registry@, types).push(
                            found,
                        ));
                    }
                    ids.push(id);
                },
                FieldKind::Ignored => {
                    assert(active_types(views.take(i + 1)) =~= active_types(views.take(i as int)));
                },
            }
            i += 1;
        }
        assert(views.take(i as int) =~= views);
        ids
    }

    /// Consumes a bundle value and hands out the values of its active fields, in
    /// definition order: the calls of the sink. The values of the ignored
    /// fields are dropped with the bundle.
    pub fn get_components<T>(&self, bundle: Vec<T>) -> (stream: Vec<T>)
        requires
            self.wf(),
            bundle.len() == self.fields.len(),
        ensures
            stream@ == emitted(self@.fields, bundle@),
    {
        let ghost views = self@.fields;
        let ghost all = bundle@;
        let mut stream: Vec<T> = Vec::new();
        let mut i: usize = 0;
        proof {
            reveal(Seq::filter);
            assert(views.take(0) =~= Seq::<FieldDescriptorView>::empty());
            assert(stream@ =~= emitted(views.take(0), all));
        }
        for value in values: bundle.into_iter()
            invariant
                i == values.index(),
                values.seq() == all,
                all.len() == self.fields.len(),
                views == self@.fields,
                views.len() == self.fields.len(),
                positions_in_order(views),
                stream@ == emitted(views.take(i as int), all),
        {
            proof {
                assert(views[i as int] == self.fields@[i as int]@);
                assert(views.take(i + 1) =~= views.take(i as int).push(views[i as int]));
                views.take(i as int).lemma_filter_push(
                    views[i as int],
                    |f: FieldDescriptorView| is_active(f),
                );
            }
            match self.fields[i].kind {
                FieldKind::Active => {
                    assert(emitted(views.take(i + 1), all) =~= emitted(
                        views.take(i as int),
                        all,
                    ).push(value));
                    stream.push(value);
                },
                FieldKind::Ignored => {},
            }
            i += 1;
        }
        assert(views.take(i as int) =~= views);
        stream
    }

    /// Builds a bundle value: every active field takes the next value of
    /// `stream`, every ignored field the next value of `defaults`.
    ///
    /// `stream` is what the extraction function hands out, call by call. It has
    /// to hold one value for each active field, in the order in which
    /// `component_ids` registers the fields: this is the caller's obligation,
    /// and nothing here can check that a value belongs to its field. `defaults`
    /// holds the default value of each ignored field's type, in definition
    /// order.
    pub fn from_components<T>(&self, stream: Vec<T>, defaults: Vec<T>) -> (bundle: Vec<T>)
        requires
            stream.len() == active_fields(self@.fields).len(),
            defaults.len() == inactive_fields(self@.fields).len(),
        ensures
            bundle@ == reconstructed(self@.fields, stream@, defaults@),
    {
        let ghost views = self@.fields;
        let ghost given = stream@;
        let ghost filling = defaults@;
        let mut pending = reversed(stream);
        let mut spare = reversed(defaults);
        let mut bundle: Vec<T> = Vec::new();
        let mut i: usize = 0;
        proof {
            reveal(Seq::filter);
            assert(views.take(0) =~= Seq::<FieldDescriptorView>::empty());
        }
        while i < self.fields.len()
            invariant
                i <= self.fields.len(),
                views == self@.fields,
                views.len() == self.fields.len(),
                given.len() == active_fields(views).len(),
                filling.len() == inactive_fields(views).len(),
                pending.len() == given.len() - active_before(views, i as int),
                spare.len() == filling.len() - ignored_before(views, i as int),
                forall|k: int| 0 <= k < pending.len() ==> pending@[k] == given[given.len() - 1 - k],
                forall|k: int| 0 <= k < spare.len() ==> spare@[k] == filling[filling.len() - 1 - k],
                bundle.len() == i,
                forall|k: int|
                    0 <= k < i ==> bundle@[k] == reconstructed(views, given, filling)[k],
            decreases self.fields.len() - i,
        {
            proof {
                assert(views[i as int] == self.fields@[i as int]@);
                assert(views.take(i + 1) =~= views.take(i as int).push(views[i as int]));
                views.take(i as int).lemma_filter_push(
                    views[i as int],
                    |f: FieldDescriptorView| is_active(f),
                );
                views.take(i as int).lemma_filter_push(
                    views[i as int],
                    |f: FieldDescriptorView| is_ignored(f),
                );
                views.lemma_filter_take_len(|f: FieldDescriptorView| is_active(f), i + 1);
                views.lemma_filter_take_len(|f: FieldDescriptorView| is_ignored(f), i + 1);
            }
            let value = match self.fields[i].kind {
                FieldKind::Active => pending.pop().unwrap(),
                FieldKind::Ignored => spare.pop().unwrap(),
            };
            bundle.push(value);
            i += 1;
        }
        assert(bundle@ =~= reconstructed(views, given, filling));
        bundle
    }
}

/// The values of a list in reverse order, so that `pop` hands them out from the
/// first on.
fn reversed<T>(values: Vec<T>) -> (r: Vec<T>)
    ensures
        r.len() == values.len(),
        forall|k: int| 0 <= k < r.len() ==> r@[k] == values@[values.len() - 1 - k],
{
    let ghost all = values@;
    let mut values = values;
    let mut r: Vec<T> = Vec::new();
    while values.len() > 0
        invariant
            values.len() + r.len() == all.len(),
            values@ == all.take(values.len() as int),
            forall|k: int| 0 <= k < r.len() ==> r@[k] == all[all.len() - 1 - k],
        decreases values.len(),
    {
        let value = values.pop().unwrap();
        r.push(value);
    }
    r
}

/// The values that `get_components` hands to the sink: the value of every
/// active field, in definition order. The bundle is given as one value for each
/// field.
pub open spec fn emitted<T>(fields: Seq<FieldDescriptorView>, bundle: Seq<T>) -> Seq<T> {
    active_fields(fields).map_values(|f: FieldDescriptorView| bundle[f.position as int])
}

/// The values of the ignored fields of a bundle, in definition order.
pub open spec fn withheld<T>(fields: Seq<FieldDescriptorView>, bundle: Seq<T>) -> Seq<T> {
    inactive_fields(fields).map_values(|f: FieldDescriptorView| bundle[f.position as int])
}

/// The number of active fields before position `i`.
pub open spec fn active_before(fields: Seq<FieldDescriptorView>, i: int) -> int {
    active_fields(fields.take(i)).len() as int
}

/// The number of ignored fields before position `i`.
pub open spec fn ignored_before(fields: Seq<FieldDescriptorView>, i: int) -> int {
    inactive_fields(fields.take(i)).len() as int
}

/// The bundle that `from_components` builds: an active field takes the next
/// value of the stream, an ignored field the default value that is its own.
/// `defaults` holds the default values of the ignored fields, in definition
/// order.
pub open spec fn reconstructed<T>(
    fields: Seq<FieldDescriptorView>,
    stream: Seq<T>,
    defaults: Seq<T>,
) -> Seq<T> {
    Seq::new(
        fields.len(),
        |i: int|
            if is_active(fields[i]) {
                stream[active_before(fields, i)]
            } else {
                defaults[ignored_before(fields, i)]
            },
    )
}

/// A field that passes a test stands in what the test keeps, at the rank given
/// by the number of fields before it that pass.
proof fn lemma_rank(
    fields: Seq<FieldDescriptorView>,
    pred: spec_fn(FieldDescriptorView) -> bool,
    i: int,
)
    requires
        0 <= i < fields.len(),
        pred(fields[i]),
    ensures
        fields.take(i).filter(pred).len() < fields.filter(pred).len(),
        fields.filter(pred)[fields.take(i).filter(pred).len() as int] == fields[i],
{
    let upto = fields.take(i + 1);
    let rest = fields.skip(i + 1);
    assert(fields =~= upto + rest);
    Seq::filter_distributes_over_add(upto, rest, pred);
    assert(upto =~= fields.take(i).push(fields[i]));
    fields.take(i).lemma_filter_push(fields[i], pred);
}

/// Exactly-once emission: the sink is called once for each active field and
/// never else. The calls are as many as the active fields; call `k` hands over
/// the value of the `k`-th active field; the fields of the calls follow one
/// another in definition order, so none is handed over twice; and every active
/// field has its call.
pub proof fn lemma_exactly_once<T>(fields: Seq<FieldDescriptorView>, bundle: Seq<T>)
    requires
        positions_in_order(fields),
        bundle.len() == fields.len(),
    ensures
        emitted(fields, bundle).len() == active_fields(fields).len(),
        forall|k: int|
            0 <= k < active_fields(fields).len() ==> {
                &&& is_active(#[trigger] active_fields(fields)[k])
                &&& active_fields(fields)[k].position < fields.len()
                &&& emitted(fields, bundle)[k] == bundle[active_fields(fields)[k].position as int]
            },
        keeps_order(active_fields(fields), fields),
        forall|i: int|
            0 <= i < fields.len() && is_active(#[trigger] fields[i]) ==> {
                &&& 0 <= active_before(fields, i) < emitted(fields, bundle).len()
                &&& emitted(fields, bundle)[active_before(fields, i)] == bundle[i]
            },
{
    lemma_partition(fields);
    assert forall|i: int| 0 <= i < fields.len() && is_active(#[trigger] fields[i]) implies 0
        <= active_before(fields, i) < emitted(fields, bundle).len() && emitted(
        fields,
        bundle,
    )[active_before(fields, i)] == bundle[i] by {
        lemma_rank(fields, |f: FieldDescriptorView| is_active(f), i);
    }
}

/// Default fill: whatever the extraction function hands out, every ignored
/// field of the rebuilt bundle holds a default value, and the one that is its
/// own: the `j`-th ignored field holds the `j`-th default.
pub proof fn lemma_default_fill<T>(
    fields: Seq<FieldDescriptorView>,
    stream: Seq<T>,
    other: Seq<T>,
    defaults: Seq<T>,
)
    ensures
        forall|i: int|
            0 <= i < fields.len() && is_ignored(#[trigger] fields[i]) ==> {
                &&& 0 <= ignored_before(fields, i) < inactive_fields(fields).len()
                &&& inactive_fields(fields)[ignored_before(fields, i)] == fields[i]
                &&& reconstructed(fields, stream, defaults)[i] == defaults[ignored_before(fields, i)]
                &&& reconstructed(fields, other, defaults)[i] == reconstructed(
                    fields,
                    stream,
                    defaults,
                )[i]
            },
{
    assert forall|i: int| 0 <= i < fields.len() && is_ignored(#[trigger] fields[i]) implies 0
        <= ignored_before(fields, i) < inactive_fields(fields).len() && inactive_fields(
        fields,
    )[ignored_before(fields, i)] == fields[i] by {
        lemma_rank(fields, |f: FieldDescriptorView| is_ignored(f), i);
    }
}

/// Rebuilding a bundle from what it emits, and from the values of its ignored
/// fields in place of the defaults, gives the bundle back.
pub proof fn lemma_split_and_rebuild<T>(fields: Seq<FieldDescriptorView>, bundle: Seq<T>)
    requires
        positions_in_order(fields),
        bundle.len() == fields.len(),
    ensures
        reconstructed(fields, emitted(fields, bundle), withheld(fields, bundle)) == bundle,
{
    let rebuilt = reconstructed(fields, emitted(fields, bundle), withheld(fields, bundle));
    assert forall|i: int| 0 <= i < fields.len() implies rebuilt[i] == bundle[i] by {
        if is_active(fields[i]) {
            lemma_rank(fields, |f: FieldDescriptorView| is_active(f), i);
        } else {
            lemma_rank(fields, |f: FieldDescriptorView| is_ignored(f), i);
        }
    }
    assert(rebuilt =~= bundle);
}

/// Round trip: for a bundle whose fields are all active, what the bundle emits
/// is the bundle, value for value, and rebuilding from it, in the order
/// emitted, gives the bundle back.
pub proof fn lemma_round_trip<T>(fields: Seq<FieldDescriptorView>, bundle: Seq<T>, defaults: Seq<T>)
    requires
        positions_in_order(fields),
        bundle.len() == fields.len(),
        forall|i: int| 0 <= i < fields.len() ==> is_active(#[trigger] fields[i]),
    ensures
        emitted(fields, bundle) == bundle,
        reconstructed(fields, emitted(fields, bundle), defaults) == bundle,
{
    let stream = emitted(fields, bundle);
    let rebuilt = reconstructed(fields, stream, defaults);
    lemma_all_kept(fields);
    assert(stream =~= bundle);
    assert forall|i: int| 0 <= i < fields.len() implies rebuilt[i] == bundle[i] by {
        assert forall|j: int| 0 <= j < i implies is_active(#[trigger] fields.take(i)[j]) by {
            assert(fields.take(i)[j] == fields[j]);
        }
        lemma_all_kept(fields.take(i));
        assert(is_active(fields[i]));
    }
    assert(rebuilt =~= bundle);
}

/// A test that every field passes keeps the list as it is.
proof fn lemma_all_kept(fields: Seq<FieldDescriptorView>)
    requires
        forall|i: int| 0 <= i < fields.len() ==> is_active(#[trigger] fields[i]),
    ensures
        active_fields(fields) == fields,
    decreases fields.len(),
{
    reveal(Seq::filter);
    if fields.len() > 0 {
        let init = fields.drop_last();
        assert forall|i: int| 0 <= i < init.len() implies is_active(#[trigger] init[i]) by {
            assert(init[i] == fields[i]);
        }
        lemma_all_kept(init);
        assert(is_active(fields.last()));
        assert(init.push(fields.last()) =~= fields);
    }
}

} // verus!
