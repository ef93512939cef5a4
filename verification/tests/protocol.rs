use bundle_derive::classify::{define, BundleDefinition, FieldDescriptor, FieldKind};
use bundle_derive::declaration::{Directive, FieldSyntax, Flag};
use bundle_derive::directive::BundleAttributes;
use bundle_derive::registry::{ComponentId, ComponentRegistry};
use proc_macro2::Span;

/// A value that cannot be copied: moving it is the only way to pass it on.
#[derive(Debug, PartialEq)]
struct Owned(String);

fn owned(text: &str) -> Owned {
    Owned(text.to_string())
}

fn definition(fields: &[(&str, FieldKind)]) -> BundleDefinition {
    BundleDefinition {
        fields: fields
            .iter()
            .enumerate()
            .map(|(position, (ty, kind))| FieldDescriptor {
                position,
                name: Some(format!("f{position}")),
                declared_type: ty.to_string(),
                kind: *kind,
            })
            .collect(),
        container_directives: BundleAttributes::default(),
    }
}

fn player() -> BundleDefinition {
    let ignore = Directive {
        name: "bundle".to_string(),
        flags: vec![Flag { name: "ignore".to_string(), span: Span::call_site() }],
        fault: None,
    };
    let field = |name: &str, ty: &str, directives: Vec<Directive>| FieldSyntax {
        name: Some(name.to_string()),
        declared_type: ty.to_string(),
        directives,
    };
    let fields = vec![
        field("health", "Health", Vec::new()),
        field("name", "Name", Vec::new()),
        field("cache", "TransientCache", vec![ignore]),
    ];
    define(&fields, &Vec::new()).0
}

#[test]
fn registering_is_idempotent_and_identifiers_are_stable() {
    let mut registry = ComponentRegistry::new();
    assert_eq!(registry.len(), 0);
    assert_eq!(registry.lookup("Health"), None);
    let health = registry.register("Health");
    assert_eq!(health, ComponentId(0));
    let name = registry.register("Name");
    assert_eq!(name, ComponentId(1));
    assert_eq!(registry.register("Health"), ComponentId(0));
    assert_eq!(registry.len(), 2);
    assert_eq!(registry.lookup("Health"), Some(ComponentId(0)));
    assert_eq!(registry.lookup("Name"), Some(ComponentId(1)));
    assert_eq!(registry.lookup("Cache"), None);
}

#[test]
fn player_registers_health_and_name_in_that_order() {
    let mut registry = ComponentRegistry::new();
    let ids = player().component_ids(&mut registry);
    assert_eq!(ids, vec![ComponentId(0), ComponentId(1)]);
    assert_eq!(registry.lookup("Health"), Some(ComponentId(0)));
    assert_eq!(registry.lookup("Name"), Some(ComponentId(1)));
    assert_eq!(registry.lookup("TransientCache"), None);
    assert_eq!(registry.len(), 2);
}

#[test]
fn lookup_before_registration_finds_nothing() {
    let registry = ComponentRegistry::new();
    assert_eq!(player().get_component_ids(&registry), vec![None, None]);
}

#[test]
fn lookup_after_registration_gives_the_registered_identifiers() {
    let bundle = definition(&[
        ("Transform", FieldKind::Active),
        ("Scratch", FieldKind::Ignored),
        ("Health", FieldKind::Active),
        ("Name", FieldKind::Active),
    ]);
    let mut registry = ComponentRegistry::new();
    registry.register("Name");
    registry.register("Other");
    let registered = bundle.component_ids(&mut registry);
    assert_eq!(registered, vec![ComponentId(2), ComponentId(3), ComponentId(0)]);
    let looked_up = bundle.get_component_ids(&registry);
    assert_eq!(looked_up.len(), registered.len());
    let expected: Vec<Option<ComponentId>> = registered.iter().map(|id| Some(*id)).collect();
    assert_eq!(looked_up, expected);
}

#[test]
fn lookup_finds_the_registered_types_only() {
    let bundle = definition(&[("A", FieldKind::Active), ("B", FieldKind::Active)]);
    let mut registry = ComponentRegistry::new();
    registry.register("B");
    assert_eq!(bundle.get_component_ids(&registry), vec![None, Some(ComponentId(0))]);
}

#[test]
fn a_type_that_stands_twice_has_one_identifier() {
    let bundle = definition(&[
        ("A", FieldKind::Active),
        ("B", FieldKind::Active),
        ("A", FieldKind::Active),
    ]);
    let mut registry = ComponentRegistry::new();
    let ids = bundle.component_ids(&mut registry);
    assert_eq!(ids, vec![ComponentId(0), ComponentId(1), ComponentId(0)]);
    assert_eq!(registry.len(), 2);
    assert_eq!(
        bundle.get_component_ids(&registry),
        vec![Some(ComponentId(0)), Some(ComponentId(1)), Some(ComponentId(0))]
    );
}

#[test]
fn player_emits_health_then_name() {
    let bundle = vec![owned("health"), owned("name"), owned("cache")];
    let stream = player().get_components(bundle);
    assert_eq!(stream, vec![owned("health"), owned("name")]);
}

#[test]
fn every_active_field_is_emitted_once_in_definition_order() {
    let bundle = definition(&[
        ("A", FieldKind::Ignored),
        ("B", FieldKind::Active),
        ("C", FieldKind::Active),
        ("D", FieldKind::Ignored),
        ("E", FieldKind::Active),
    ]);
    let values = vec![owned("a"), owned("b"), owned("c"), owned("d"), owned("e")];
    let stream = bundle.get_components(values);
    assert_eq!(stream.len(), 3);
    assert_eq!(stream, vec![owned("b"), owned("c"), owned("e")]);
}

#[test]
fn bundle_without_active_fields_emits_nothing() {
    let bundle = definition(&[("A", FieldKind::Ignored)]);
    assert_eq!(bundle.get_components(vec![owned("a")]), Vec::<Owned>::new());
}

#[test]
fn player_is_rebuilt_with_the_default_cache() {
    let stream = vec![owned("100"), owned("Ada")];
    let bundle = player().from_components(stream, vec![owned("default cache")]);
    assert_eq!(bundle, vec![owned("100"), owned("Ada"), owned("default cache")]);
}

#[test]
fn ignored_fields_hold_their_defaults_whatever_is_extracted() {
    let bundle = definition(&[
        ("A", FieldKind::Ignored),
        ("B", FieldKind::Active),
        ("C", FieldKind::Ignored),
        ("D", FieldKind::Active),
    ]);
    for stream in [["x", "y"], ["y", "x"], ["", "same"]] {
        let stream = stream.iter().map(|v| owned(v)).collect();
        let rebuilt = bundle.from_components(stream, vec![owned("default a"), owned("default c")]);
        assert_eq!(rebuilt.len(), 4);
        assert_eq!(rebuilt[0], owned("default a"));
        assert_eq!(rebuilt[2], owned("default c"));
    }
}

#[test]
fn active_fields_take_the_stream_in_order() {
    let bundle = definition(&[
        ("A", FieldKind::Active),
        ("B", FieldKind::Ignored),
        ("C", FieldKind::Active),
        ("D", FieldKind::Active),
    ]);
    let rebuilt =
        bundle.from_components(vec![owned("1"), owned("2"), owned("3")], vec![owned("d")]);
    assert_eq!(rebuilt, vec![owned("1"), owned("d"), owned("2"), owned("3")]);
}

#[test]
fn bundle_of_active_fields_survives_the_round_trip() {
    let bundle = definition(&[
        ("A", FieldKind::Active),
        ("B", FieldKind::Active),
        ("C", FieldKind::Active),
    ]);
    let original = || vec![owned("first"), owned("second"), owned("third")];
    let stream = bundle.get_components(original());
    assert_eq!(stream, original());
    let rebuilt = bundle.from_components(stream, Vec::new());
    assert_eq!(rebuilt, original());
}

#[test]
fn round_trip_puts_defaults_in_the_ignored_fields() {
    let bundle = definition(&[
        ("A", FieldKind::Active),
        ("B", FieldKind::Ignored),
        ("C", FieldKind::Active),
    ]);
    let stream = bundle.get_components(vec![owned("a"), owned("b"), owned("c")]);
    let rebuilt = bundle.from_components(stream, vec![owned("default")]);
    assert_eq!(rebuilt, vec![owned("a"), owned("default"), owned("c")]);
}
