use bundle_derive::bundle::{
    derive_bundle, derive_bundle_from_component, generate_bundle_impls,
    generate_from_components_impl, BundleInfo, Expansion,
};
use bundle_derive::declaration::{
    DeclaredData, Directive, FieldSyntax, Fields, Flag, TypeDeclaration,
};
use bundle_derive::diagnostic::CompositionError;
use bundle_derive::directive::BundleAttributes;
use bundle_derive::site::Site;
use proc_macro2::Span;

fn directive(flags: &[&str]) -> Directive {
    Directive {
        name: "bundle".to_string(),
        flags: flags
            .iter()
            .map(|name| Flag { name: name.to_string(), span: Span::call_site() })
            .collect(),
        fault: None,
    }
}

fn field(name: Option<&str>, ty: &str, flags: &[&str]) -> FieldSyntax {
    FieldSyntax {
        name: name.map(|n| n.to_string()),
        declared_type: ty.to_string(),
        directives: if flags.is_empty() { Vec::new() } else { vec![directive(flags)] },
    }
}

fn declaration(name: &str, data: DeclaredData) -> TypeDeclaration {
    TypeDeclaration {
        name: name.to_string(),
        impl_generics: String::new(),
        type_generics: String::new(),
        where_clause: String::new(),
        directives: Vec::new(),
        data,
    }
}

fn player() -> TypeDeclaration {
    declaration(
        "Player",
        DeclaredData::Struct(Fields::Named(vec![
            field(Some("health"), "Health", &[]),
            field(Some("name"), "Name", &[]),
            field(Some("cache"), "TransientCache", &["ignore"]),
        ])),
    )
}

/// The places at which `needle` stands in `text`.
fn places(text: &str, needle: &str) -> Vec<usize> {
    text.match_indices(needle).map(|(at, _)| at).collect()
}

#[test]
fn bundle_of_one_field_is_written_out_in_full() {
    let decl = declaration(
        "One",
        DeclaredData::Struct(Fields::Named(vec![field(Some("a"), "A", &[])])),
    );
    let out = derive_bundle(&decl, "e");
    assert!(out.diagnostics.is_empty());
    let expected = [
        "#[allow(deprecated)] unsafe impl  e::bundle::Bundle for One   { ",
        "fn component_ids(components: &mut e::component::ComponentsRegistrator, ",
        "ids: &mut impl FnMut(e::component::ComponentId)) { ",
        "<A as e::bundle::Bundle>::component_ids(components, ids); } ",
        "fn get_component_ids(components: &e::component::Components, ",
        "ids: &mut impl FnMut(Option<e::component::ComponentId>)) { ",
        "<A as e::bundle::Bundle>::get_component_ids(components, &mut *ids); } ",
        "fn register_required_components(components: &mut e::component::ComponentsRegistrator, ",
        "required_components: &mut e::component::RequiredComponents) { ",
        "<A as e::bundle::Bundle>::register_required_components(components, required_components); } ",
        "} ",
        "#[allow(deprecated)] impl  e::bundle::DynamicBundle for One   { ",
        "type Effect = (); #[allow(unused_variables)] #[inline] ",
        "fn get_components(self, func: &mut impl FnMut(e::component::StorageType, ",
        "e::ptr::OwningPtr<'_>)) { ",
        "<A as e::bundle::DynamicBundle>::get_components(self.a, &mut *func); } } ",
    ].concat();
    assert_eq!(out.code, expected);
}

#[test]
fn from_components_of_two_fields_is_written_out_in_full() {
    let decl = declaration(
        "Two",
        DeclaredData::Struct(Fields::Named(vec![
            field(Some("a"), "A", &[]),
            field(Some("b"), "B", &["ignore"]),
        ])),
    );
    let out = derive_bundle_from_component(&decl, "e");
    assert!(out.diagnostics.is_empty());
    let expected = [
        "#[allow(deprecated)] unsafe impl  e::bundle::BundleFromComponents for Two   { ",
        "#[allow(unused_variables, non_snake_case)] ",
        "unsafe fn from_components<__T, __F>(ctx: &mut __T, func: &mut __F) -> Self ",
        "where __F: FnMut(&mut __T) -> e::ptr::OwningPtr<'_> { Self { ",
        "a: <A as e::bundle::BundleFromComponents>::from_components(ctx, &mut *func), ",
        "b: ::core::default::Default::default(), ",
        "} } } ",
    ].concat();
    assert_eq!(out.code, expected);
}

#[test]
fn player_registers_health_then_name_and_never_the_cache() {
    let out = derive_bundle(&player(), "bevy_ecs");
    assert!(out.diagnostics.is_empty());
    for call in ["component_ids(components, ids)", "get_component_ids(components, &mut *ids)"] {
        let health = places(&out.code, &format!("<Health as bevy_ecs::bundle::Bundle>::{call}; "));
        let name = places(&out.code, &format!("<Name as bevy_ecs::bundle::Bundle>::{call}; "));
        assert_eq!(health.len(), 1);
        assert_eq!(name.len(), 1);
        assert!(health[0] < name[0]);
    }
    assert!(!out.code.contains("TransientCache"));
    assert!(!out.code.contains("cache"));
}

#[test]
fn player_emits_health_then_name_once_each() {
    let out = derive_bundle(&player(), "bevy_ecs");
    let calls = places(&out.code, "::bundle::DynamicBundle>::get_components(self.");
    assert_eq!(calls.len(), 2);
    let health = places(
        &out.code,
        "<Health as bevy_ecs::bundle::DynamicBundle>::get_components(self.health, &mut *func); ",
    );
    let name = places(
        &out.code,
        "<Name as bevy_ecs::bundle::DynamicBundle>::get_components(self.name, &mut *func); ",
    );
    assert_eq!(health.len(), 1);
    assert_eq!(name.len(), 1);
    assert!(health[0] < name[0]);
}

#[test]
fn player_is_rebuilt_with_a_default_cache() {
    let out = derive_bundle_from_component(&player(), "bevy_ecs");
    assert!(out.diagnostics.is_empty());
    let body = [
        "Self { ",
        "health: <Health as bevy_ecs::bundle::BundleFromComponents>::from_components(ctx, &mut *func), ",
        "name: <Name as bevy_ecs::bundle::BundleFromComponents>::from_components(ctx, &mut *func), ",
        "cache: ::core::default::Default::default(), ",
        "} ",
    ].concat();
    assert_eq!(places(&out.code, &body).len(), 1);
    assert!(!out.code.contains("TransientCache"));
}

#[test]
fn positional_fields_are_reached_by_their_position() {
    let decl = declaration(
        "Triple",
        DeclaredData::Struct(Fields::Unnamed(vec![
            field(None, "A", &[]),
            field(None, "B", &["ignore"]),
            field(None, "C", &[]),
        ])),
    );
    let out = derive_bundle(&decl, "ecs");
    assert!(out.code.contains("<A as ecs::bundle::DynamicBundle>::get_components(self.0, &mut *func); "));
    assert!(out.code.contains("<C as ecs::bundle::DynamicBundle>::get_components(self.2, &mut *func); "));
    assert!(!out.code.contains("self.1"));
    let out = derive_bundle_from_component(&decl, "ecs");
    assert!(out.code.contains(&[
        "Self { 0: <A as ecs::bundle::BundleFromComponents>::from_components(ctx, &mut *func), ",
        "2: <C as ecs::bundle::BundleFromComponents>::from_components(ctx, &mut *func), ",
        "1: ::core::default::Default::default(), } ",
    ].concat()));
}

#[test]
fn position_beyond_nine_is_written_in_decimal() {
    let fields = (0..12).map(|i| field(None, &format!("T{i}"), &[])).collect();
    let decl = declaration("Wide", DeclaredData::Struct(Fields::Unnamed(fields)));
    let out = derive_bundle(&decl, "ecs");
    assert!(out.code.contains("<T10 as ecs::bundle::DynamicBundle>::get_components(self.10, &mut *func); "));
    assert!(out.code.contains("<T11 as ecs::bundle::DynamicBundle>::get_components(self.11, &mut *func); "));
}

#[test]
fn generics_stand_in_the_impl_header() {
    let mut decl = declaration(
        "Pair",
        DeclaredData::Struct(Fields::Named(vec![field(Some("a"), "T", &[])])),
    );
    decl.impl_generics = "< T : Bundle >".to_string();
    decl.type_generics = "< T >".to_string();
    decl.where_clause = "where T : Send".to_string();
    let out = derive_bundle(&decl, "ecs");
    assert!(out.code.starts_with(
        "#[allow(deprecated)] unsafe impl < T : Bundle > ecs::bundle::Bundle for Pair < T > where T : Send { "
    ));
    assert!(out.code.contains(
        "#[allow(deprecated)] impl < T : Bundle > ecs::bundle::DynamicBundle for Pair < T > where T : Send { "
    ));
    let out = derive_bundle_from_component(&decl, "ecs");
    assert!(out.code.starts_with(
        "#[allow(deprecated)] unsafe impl < T : Bundle > ecs::bundle::BundleFromComponents for Pair < T > where T : Send { "
    ));
}

#[test]
fn bundle_of_ignored_fields_only_has_empty_bodies() {
    let decl = declaration(
        "Quiet",
        DeclaredData::Struct(Fields::Named(vec![field(Some("a"), "A", &["ignore"])])),
    );
    let out = derive_bundle(&decl, "ecs");
    assert!(out.diagnostics.is_empty());
    assert!(out.code.contains("ids: &mut impl FnMut(ecs::component::ComponentId)) { } "));
    assert!(out.code.contains("ecs::ptr::OwningPtr<'_>)) { } } "));
    assert!(!out.code.contains("<A as"));
    let out = derive_bundle_from_component(&decl, "ecs");
    assert!(out.code.contains("{ Self { a: ::core::default::Default::default(), } } } "));
}

#[test]
fn ignore_from_components_generates_no_reconstruction() {
    let mut decl = player();
    decl.directives = vec![directive(&["ignore_from_components"])];
    let out = derive_bundle_from_component(&decl, "bevy_ecs");
    assert!(out.diagnostics.is_empty());
    assert_eq!(out.code, "");
    let out = derive_bundle(&decl, "bevy_ecs");
    assert!(out.diagnostics.is_empty());
    assert!(out.code.contains("bevy_ecs::bundle::Bundle for Player"));
}

#[test]
fn unit_struct_gives_one_diagnostic_and_no_code() {
    let decl = declaration("Empty", DeclaredData::Struct(Fields::Unit));
    for out in [derive_bundle(&decl, "ecs"), derive_bundle_from_component(&decl, "ecs")] {
        assert_eq!(out.diagnostics.len(), 1);
        assert_eq!(
            out.diagnostics[0].message,
            "Unit structs are not supported. Try using an empty Struct"
        );
        assert!(matches!(out.diagnostics[0].site, Site::MixedSite));
        assert_eq!(out.code, "");
    }
}

#[test]
fn enum_gives_one_diagnostic_and_no_code() {
    let decl = declaration("Choice", DeclaredData::Enum);
    for out in [derive_bundle(&decl, "ecs"), derive_bundle_from_component(&decl, "ecs")] {
        assert_eq!(out.diagnostics.len(), 1);
        assert_eq!(out.diagnostics[0].message, "Only structs are supported");
        assert!(matches!(out.diagnostics[0].site, Site::CallSite));
        assert_eq!(out.code, "");
    }
}

#[test]
fn shape_error_comes_with_the_diagnostics_of_the_directives_on_the_type() {
    let shapes = [
        (DeclaredData::Union, "Only structs are supported"),
        (DeclaredData::Enum, "Only structs are supported"),
        (
            DeclaredData::Struct(Fields::Unit),
            "Unit structs are not supported. Try using an empty Struct",
        ),
        (
            DeclaredData::Struct(Fields::Named(Vec::new())),
            "Unit structs are not supported. Try using an empty Struct",
        ),
    ];
    for (data, message) in shapes {
        let mut decl = declaration("Choice", data);
        decl.directives =
            vec![directive(&["bogus", "ignore_from_components"]), directive(&["other"])];
        for out in [derive_bundle(&decl, "ecs"), derive_bundle_from_component(&decl, "ecs")] {
            let messages: Vec<&str> = out.diagnostics.iter().map(|d| d.message.as_str()).collect();
            assert_eq!(
                messages,
                vec![
                    "Invalid bundle container attribute. Allowed attributes: `ignore_from_components`",
                    "Invalid bundle container attribute. Allowed attributes: `ignore_from_components`",
                    message,
                ]
            );
            assert!(matches!(out.diagnostics[0].site, Site::Span(_)));
            assert!(matches!(out.diagnostics[1].site, Site::Span(_)));
            assert_eq!(out.code, "");
        }
    }
}

#[test]
fn shape_error_alone_gives_one_diagnostic() {
    let mut decl = declaration("Choice", DeclaredData::Union);
    decl.directives = vec![directive(&["ignore_from_components"])];
    let out = derive_bundle(&decl, "ecs");
    assert_eq!(out.diagnostics.len(), 1);
    assert_eq!(out.diagnostics[0].message, "Only structs are supported");
    assert_eq!(out.code, "");
}

#[test]
fn unknown_container_flag_gives_one_diagnostic_and_the_impls() {
    let mut decl = player();
    decl.directives = vec![directive(&["unknown_flag"])];
    let out = derive_bundle(&decl, "bevy_ecs");
    assert_eq!(out.diagnostics.len(), 1);
    assert!(out.diagnostics[0].message.contains("`ignore_from_components`"));
    assert!(out.code.contains("bevy_ecs::bundle::Bundle for Player"));
    let out = derive_bundle_from_component(&decl, "bevy_ecs");
    assert_eq!(out.diagnostics.len(), 1);
    assert!(out.code.contains("bevy_ecs::bundle::BundleFromComponents for Player"));
}

#[test]
fn unknown_field_flags_are_all_reported_and_the_impls_generated() {
    let decl = declaration(
        "Noisy",
        DeclaredData::Struct(Fields::Named(vec![
            field(Some("a"), "A", &["skip"]),
            field(Some("b"), "B", &["ignore"]),
            field(Some("c"), "C", &["omit"]),
        ])),
    );
    let out = derive_bundle(&decl, "ecs");
    assert_eq!(out.diagnostics.len(), 2);
    for diagnostic in &out.diagnostics {
        assert_eq!(diagnostic.message, "Invalid bundle attribute. Use `ignore`");
        assert!(matches!(diagnostic.site, Site::Span(_)));
    }
    assert!(out.code.contains("<A as ecs::bundle::Bundle>::component_ids(components, ids); "));
    assert!(out.code.contains("<C as ecs::bundle::Bundle>::component_ids(components, ids); "));
    assert!(!out.code.contains("<B as"));
}

#[test]
fn work_hands_the_analysis_to_the_generator() {
    let seen = BundleInfo::work(&player(), "bevy_ecs", |info: BundleInfo| Expansion {
        diagnostics: info.errors,
        code: format!(
            "{}|{}|{}|{}|{}|{}",
            info.struct_name,
            info.active_field_types.join(","),
            info.active_field_tokens.join(","),
            info.inactive_field_tokens.join(","),
            info.attributes.impl_from_components,
            info.ecs_path,
        ),
    });
    assert!(seen.diagnostics.is_empty());
    assert_eq!(seen.code, "Player|Health,Name|health,name|cache|true|bevy_ecs");
}

#[test]
fn work_does_not_call_the_generator_on_a_shape_error() {
    let decl = declaration("Choice", DeclaredData::Enum);
    let out = BundleInfo::work(&decl, "ecs", |_info: BundleInfo| -> Expansion {
        panic!("the generator was called")
    });
    assert_eq!(out.diagnostics.len(), 1);
    assert_eq!(out.code, "");
}

#[test]
fn generators_pass_the_diagnostics_on() {
    let info = |tokens: Vec<&str>| BundleInfo {
        struct_name: "S".to_string(),
        impl_generics: String::new(),
        type_generics: String::new(),
        where_clause: String::new(),
        active_field_types: vec!["A".to_string(), "B".to_string()],
        errors: vec![CompositionError::new("first", Site::CallSite)],
        active_field_tokens: tokens.iter().map(|t| t.to_string()).collect(),
        inactive_field_tokens: Vec::new(),
        attributes: BundleAttributes { impl_from_components: true },
        ecs_path: "ecs".to_string(),
    };
    let out = generate_bundle_impls(info(vec!["a", "b"]));
    assert_eq!(out.diagnostics.len(), 1);
    assert_eq!(out.diagnostics[0].message, "first");
    assert_eq!(places(&out.code, ">::get_components(self.").len(), 2);
    let out = generate_from_components_impl(info(vec!["a", "b"]));
    assert_eq!(out.diagnostics.len(), 1);
    assert_eq!(places(&out.code, ">::from_components(ctx, &mut *func), ").len(), 2);
}

#[test]
fn lists_of_unequal_length_are_rendered_as_far_as_both_reach() {
    let info = BundleInfo {
        struct_name: "S".to_string(),
        impl_generics: String::new(),
        type_generics: String::new(),
        where_clause: String::new(),
        active_field_types: vec!["A".to_string(), "B".to_string()],
        errors: Vec::new(),
        active_field_tokens: vec!["a".to_string()],
        inactive_field_tokens: Vec::new(),
        attributes: BundleAttributes { impl_from_components: true },
        ecs_path: "ecs".to_string(),
    };
    let out = generate_bundle_impls(info);
    assert_eq!(places(&out.code, ">::get_components(self.").len(), 1);
    assert!(out.code.contains("<A as ecs::bundle::DynamicBundle>::get_components(self.a, &mut *func); "));
    assert_eq!(places(&out.code, ">::component_ids(components, ids); ").len(), 2);
}
