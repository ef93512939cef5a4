//! The source text of the generated impls.
//!
//! Each piece of text is given twice: as a spec function, which says what the
//! text is, and as an executable function that writes it. A list of calls is
//! rendered field by field, one call for each, in the order of the list.
use vstd::prelude::*;
use vstd::string::StringExecFns;
use crate::bundle::{BundleInfo, BundleInfoView};
use crate::text::texts;

verus! {

/// One call into an operation of a field's type:
/// `<TYPE as ECS::TRAIT>::CALL; `.
pub open spec fn delegation(
    ty: Seq<char>,
    ecs_path: Seq<char>,
    trait_path: Seq<char>,
    call: Seq<char>,
) -> Seq<char> {
    "<"@ + ty + " as "@ + ecs_path + trait_path + ">::"@ + call + "; "@
}

/// One [`delegation`] for each type, in the order of the list.
pub open spec fn delegations(
    types: Seq<Seq<char>>,
    ecs_path: Seq<char>,
    trait_path: Seq<char>,
    call: Seq<char>,
) -> Seq<char>
    decreases types.len(),
{
    if types.len() == 0 {
        Seq::empty()
    } else {
        delegations(types.drop_last(), ecs_path, trait_path, call) + delegation(
            types.last(),
            ecs_path,
            trait_path,
            call,
        )
    }
}

/// The call that moves one field out of the bundle and into the sink:
/// `<TYPE as ECS::bundle::DynamicBundle>::get_components(self.FIELD, &mut *func); `.
pub open spec fn emission(ty: Seq<char>, token: Seq<char>, ecs_path: Seq<char>) -> Seq<char> {
    "<"@ + ty + " as "@ + ecs_path + "::bundle::DynamicBundle>::get_components(self."@ + token
        + ", &mut *func); "@
}

/// One [`emission`] for each of the first `count` fields, in order.
pub open spec fn emissions(
    types: Seq<Seq<char>>,
    tokens: Seq<Seq<char>>,
    ecs_path: Seq<char>,
    count: nat,
) -> Seq<char>
    decreases count,
{
    if count == 0 {
        Seq::empty()
    } else {
        emissions(types, tokens, ecs_path, (count - 1) as nat) + emission(
            types[count - 1],
            tokens[count - 1],
            ecs_path,
        )
    }
}

/// The initialiser that draws one field from the extraction function:
/// `FIELD: <TYPE as ECS::bundle::BundleFromComponents>::from_components(ctx, &mut *func), `.
pub open spec fn extraction(ty: Seq<char>, token: Seq<char>, ecs_path: Seq<char>) -> Seq<char> {
    token + ": <"@ + ty + " as "@ + ecs_path
        + "::bundle::BundleFromComponents>::from_components(ctx, &mut *func), "@
}

/// One [`extraction`] for each of the first `count` fields, in order.
pub open spec fn extractions(
    types: Seq<Seq<char>>,
    tokens: Seq<Seq<char>>,
    ecs_path: Seq<char>,
    count: nat,
) -> Seq<char>
    decreases count,
{
    if count == 0 {
        Seq::empty()
    } else {
        extractions(types, tokens, ecs_path, (count - 1) as nat) + extraction(
            types[count - 1],
            tokens[count - 1],
            ecs_path,
        )
    }
}

/// The initialiser that gives one field its default value:
/// `FIELD: ::core::default::Default::default(), `.
pub open spec fn default_fill(token: Seq<char>) -> Seq<char> {
    token + ": ::core::default::Default::default(), "@
}

/// One [`default_fill`] for each field, in the order of the list.
pub open spec fn default_fills(tokens: Seq<Seq<char>>) -> Seq<char>
    decreases tokens.len(),
{
    if tokens.len() == 0 {
        Seq::empty()
    } else {
        default_fills(tokens.drop_last()) + default_fill(tokens.last())
    }
}

/// The number of active fields that have both a type and a token. The two lists
/// of an analysed bundle are equally long; lists that are not are rendered as
/// far as both reach.
pub open spec fn paired(info: BundleInfoView) -> nat {
    if info.active_field_types.len() <= info.active_field_tokens.len() {
        info.active_field_types.len()
    } else {
        info.active_field_tokens.len()
    }
}

/// The head of an impl of the trait at `trait_path` for the bundle, up to its
/// opening brace.
pub open spec fn impl_header(
    info: BundleInfoView,
    keyword: Seq<char>,
    trait_path: Seq<char>,
) -> Seq<char> {
    "#[allow(deprecated)] "@ + keyword + info.impl_generics + " "@ + info.ecs_path + trait_path
        + " for "@ + info.struct_name + " "@ + info.type_generics + " "@ + info.where_clause
        + " "@
}

/// `Bundle::component_ids`: registers the identifiers of the active fields, in
/// definition order.
pub open spec fn component_ids_text(info: BundleInfoView) -> Seq<char> {
    "fn component_ids(components: &mut "@ + info.ecs_path
        + "::component::ComponentsRegistrator, ids: &mut impl FnMut("@ + info.ecs_path
        + "::component::ComponentId)) { "@ + delegations(
        info.active_field_types,
        info.ecs_path,
        "::bundle::Bundle"@,
        "component_ids(components, ids)"@,
    ) + "} "@
}

/// `Bundle::get_component_ids`: looks up the identifiers of the active fields,
/// in definition order.
pub open spec fn get_component_ids_text(info: BundleInfoView) -> Seq<char> {
    "fn get_component_ids(components: &"@ + info.ecs_path
        + "::component::Components, ids: &mut impl FnMut(Option<"@ + info.ecs_path
        + "::component::ComponentId>)) { "@ + delegations(
        info.active_field_types,
        info.ecs_path,
        "::bundle::Bundle"@,
        "get_component_ids(components, &mut *ids)"@,
    ) + "} "@
}

/// `Bundle::register_required_components`: registers what the active fields
/// require, in definition order.
pub open spec fn register_required_components_text(info: BundleInfoView) -> Seq<char> {
    "fn register_required_components(components: &mut "@ + info.ecs_path
        + "::component::ComponentsRegistrator, required_components: &mut "@ + info.ecs_path
        + "::component::RequiredComponents) { "@ + delegations(
        info.active_field_types,
        info.ecs_path,
        "::bundle::Bundle"@,
        "register_required_components(components, required_components)"@,
    ) + "} "@
}

/// The impl of `Bundle`.
pub open spec fn bundle_impl_text(info: BundleInfoView) -> Seq<char> {
    impl_header(info, "unsafe impl "@, "::bundle::Bundle"@) + "{ "@ + component_ids_text(info)
        + get_component_ids_text(info) + register_required_components_text(info) + "} "@
}

/// The impl of `DynamicBundle`: `get_components` consumes the bundle and moves
/// each active field into the sink, in definition order.
pub open spec fn dynamic_bundle_impl_text(info: BundleInfoView) -> Seq<char> {
    impl_header(info, "impl "@, "::bundle::DynamicBundle"@)
        + "{ type Effect = (); #[allow(unused_variables)] #[inline] fn get_components(self, func: &mut impl FnMut("@
        + info.ecs_path + "::component::StorageType, "@ + info.ecs_path
        + "::ptr::OwningPtr<'_>)) { "@ + emissions(
        info.active_field_types,
        info.active_field_tokens,
        info.ecs_path,
        paired(info),
    ) + "} } "@
}

/// The impl of `BundleFromComponents`: `from_components` draws each active
/// field from the extraction function, in definition order, and gives each
/// ignored field its default value.
pub open spec fn from_components_impl_text(info: BundleInfoView) -> Seq<char> {
    impl_header(info, "unsafe impl "@, "::bundle::BundleFromComponents"@)
        + "{ #[allow(unused_variables, non_snake_case)] unsafe fn from_components<__T, __F>(ctx: &mut __T, func: &mut __F) -> Self where __F: FnMut(&mut __T) -> "@
        + info.ecs_path + "::ptr::OwningPtr<'_> { Self { "@ + extractions(
        info.active_field_types,
        info.active_field_tokens,
        info.ecs_path,
        paired(info),
    ) + default_fills(info.inactive_field_tokens) + "} } } "@
}

fn render_delegation(ty: &str, ecs_path: &str, trait_path: &str, call: &str) -> (r: String)
    ensures
        r@ == delegation(ty@, ecs_path@, trait_path@, call@),
{
    let mut out = String::from_str("<");
    out.append(ty);
    out.append(" as ");
    out.append(ecs_path);
    out.append(trait_path);
    out.append(">::");
    out.append(call);
    out.append("; ");
    out
}

fn render_delegations(types: &Vec<String>, ecs_path: &str, trait_path: &str, call: &str) -> (r:
    String)
    ensures
        r@ == delegations(texts(types@), ecs_path@, trait_path@, call@),
{
    let ghost all = texts(types@);
    let mut out = String::new();
    let mut i: usize = 0;
    assert(all.take(0).len() == 0);
    while i < types.len()
        invariant
            i <= types.len(),
            all == texts(types@),
            out@ == delegations(all.take(i as int), ecs_path@, trait_path@, call@),
        decreases types.len() - i,
    {
        let piece = render_delegation(types[i].as_str(), ecs_path, trait_path, call);
        proof {
            let now = all.take(i + 1);
            assert(now.drop_last() =~= all.take(i as int));
            assert(now.last() == types@[i as int]@);
        }
        out.append(piece.as_str());
        i += 1;
    }
    assert(all.take(i as int) =~= all);
    out
}

fn render_emission(ty: &str, token: &str, ecs_path: &str) -> (r: String)
    ensures
        r@ == emission(ty@, token@, ecs_path@),
{
    let mut out = String::from_str("<");
    out.append(ty);
    out.append(" as ");
    out.append(ecs_path);
    out.append("::bundle::DynamicBundle>::get_components(self.");
    out.append(token);
    out.append(", &mut *func); ");
    out
}

fn render_extraction(ty: &str, token: &str, ecs_path: &str) -> (r: String)
    ensures
        r@ == extraction(ty@, token@, ecs_path@),
{
    let mut out = String::from_str(token);
    out.append(": <");
    out.append(ty);
    out.append(" as ");
    out.append(ecs_path);
    out.append("::bundle::BundleFromComponents>::from_components(ctx, &mut *func), ");
    out
}

fn render_default_fill(token: &str) -> (r: String)
    ensures
        r@ == default_fill(token@),
{
    let mut out = String::from_str(token);
    out.append(": ::core::default::Default::default(), ");
    out
}

/// How many active fields have both a type and a token.
fn paired_count(info: &BundleInfo) -> (n: usize)
    ensures
        n == paired(info@),
        n <= info.active_field_types.len(),
        n <= info.active_field_tokens.len(),
{
    if info.active_field_types.len() <= info.active_field_tokens.len() {
        info.active_field_types.len()
    } else {
        info.active_field_tokens.len()
    }
}

fn render_emissions(info: &BundleInfo) -> (r: String)
    ensures
        r@ == emissions(
            info@.active_field_types,
            info@.active_field_tokens,
            info@.ecs_path,
            paired(info@),
        ),
{
    let count = paired_count(info);
    let mut out = String::new();
    let mut i: usize = 0;
    while i < count
        invariant
            i <= count,
            count <= info.active_field_types.len(),
            count <= info.active_field_tokens.len(),
            out@ == emissions(
                info@.active_field_types,
                info@.active_field_tokens,
                info@.ecs_path,
                i as nat,
            ),
        decreases count - i,
    {
        let piece = render_emission(
            info.active_field_types[i].as_str(),
            info.active_field_tokens[i].as_str(),
            info.ecs_path.as_str(),
        );
        assert(info@.active_field_types[i as int] == info.active_field_types@[i as int]@);
        assert(info@.active_field_tokens[i as int] == info.active_field_tokens@[i as int]@);
        out.append(piece.as_str());
        i += 1;
    }
    out
}

fn render_extractions(info: &BundleInfo) -> (r: String)
    ensures
        r@ == extractions(
            info@.active_field_types,
            info@.active_field_tokens,
            info@.ecs_path,
            paired(info@),
        ),
{
    let count = paired_count(info);
    let mut out = String::new();
    let mut i: usize = 0;
    while i < count
        invariant
            i <= count,
            count <= info.active_field_types.len(),
            count <= info.active_field_tokens.len(),
            out@ == extractions(
                info@.active_field_types,
                info@.active_field_tokens,
                info@.ecs_path,
                i as nat,
            ),
        decreases count - i,
    {
        let piece = render_extraction(
            info.active_field_types[i].as_str(),
            info.active_field_tokens[i].as_str(),
            info.ecs_path.as_str(),
        );
        assert(info@.active_field_types[i as int] == info.active_field_types@[i as int]@);
        assert(info@.active_field_tokens[i as int] == info.active_field_tokens@[i as int]@);
        out.append(piece.as_str());
        i += 1;
    }
    out
}

fn render_default_fills(tokens: &Vec<String>) -> (r: String)
    ensures
        r@ == default_fills(texts(tokens@)),
{
    let ghost all = texts(tokens@);
    let mut out = String::new();
    let mut i: usize = 0;
    assert(all.take(0).len() == 0);
    while i < tokens.len()
        invariant
            i <= tokens.len(),
            all == texts(tokens@),
            out@ == default_fills(all.take(i as int)),
        decreases tokens.len() - i,
    {
        let piece = render_default_fill(tokens[i].as_str());
        proof {
            let now = all.take(i + 1);
            assert(now.drop_last() =~= all.take(i as int));
            assert(now.last() == tokens@[i as int]@);
        }
        out.append(piece.as_str());
        i += 1;
    }
    assert(all.take(i as int) =~= all);
    out
}

fn render_impl_header(info: &BundleInfo, keyword: &str, trait_path: &str) -> (r: String)
    ensures
        r@ == impl_header(info@, keyword@, trait_path@),
{
    let mut out = String::from_str("#[allow(deprecated)] ");
    out.append(keyword);
    out.append(info.impl_generics.as_str());
    out.append(" ");
    out.append(info.ecs_path.as_str());
    out.append(trait_path);
    out.append(" for ");
    out.append(info.struct_name.as_str());
    out.append(" ");
    out.append(info.type_generics.as_str());
    out.append(" ");
    out.append(info.where_clause.as_str());
    out.append(" ");
    out
}

fn render_component_ids(info: &BundleInfo) -> (r: String)
    ensures
        r@ == component_ids_text(info@),
{
    let body = render_delegations(
        &info.active_field_types,
        info.ecs_path.as_str(),
        "::bundle::Bundle",
        "component_ids(components, ids)",
    );
    let mut out = String::from_str("fn component_ids(components: &mut ");
    out.append(info.ecs_path.as_str());
    out.append("::component::ComponentsRegistrator, ids: &mut impl FnMut(");
    out.append(info.ecs_path.as_str());
    out.append("::component::ComponentId)) { ");
    out.append(body.as_str());
    out.append("} ");
    out
}

fn render_get_component_ids(info: &BundleInfo) -> (r: String)
    ensures
        r@ == get_component_ids_text(info@),
{
    let body = render_delegations(
        &info.active_field_types,
        info.ecs_path.as_str(),
        "::bundle::Bundle",
        "get_component_ids(components, &mut *ids)",
    );
    let mut out = String::from_str("fn get_component_ids(components: &");
    out.append(info.ecs_path.as_str());
    out.append("::component::Components, ids: &mut impl FnMut(Option<");
    out.append(info.ecs_path.as_str());
    out.append("::component::ComponentId>)) { ");
    out.append(body.as_str());
    out.append("} ");
    out
}

fn render_register_required_components(info: &BundleInfo) -> (r: String)
    ensures
        r@ == register_required_components_text(info@),
{
    let body = render_delegations(
        &info.active_field_types,
        info.ecs_path.as_str(),
        "::bundle::Bundle",
        "register_required_components(components, required_components)",
    );
    let mut out = String::from_str("fn register_required_components(components: &mut ");
    out.append(info.ecs_path.as_str());
    out.append("::component::ComponentsRegistrator, required_components: &mut ");
    out.append(info.ecs_path.as_str());
    out.append("::component::RequiredComponents) { ");
    out.append(body.as_str());
    out.append("} ");
    out
}

/// Writes the impl of `Bundle`.
pub fn render_bundle_impl(info: &BundleInfo) -> (r: String)
    ensures
        r@ == bundle_impl_text(info@),
{
    let mut out = render_impl_header(info, "unsafe impl ", "::bundle::Bundle");
    out.append("{ ");
    out.append(render_component_ids(info).as_str());
    out.append(render_get_component_ids(info).as_str());
    out.append(render_register_required_components(info).as_str());
    out.append("} ");
    out
}

/// Writes the impl of `DynamicBundle`.
pub fn render_dynamic_bundle_impl(info: &BundleInfo) -> (r: String)
    ensures
        r@ == dynamic_bundle_impl_text(info@),
{
    let mut out = render_impl_header(info, "impl ", "::bundle::DynamicBundle");
    out.append(
        "{ type Effect = (); #[allow(unused_variables)] #[inline] fn get_components(self, func: &mut impl FnMut(",
    );
    out.append(info.ecs_path.as_str());
    out.append("::component::StorageType, ");
    out.append(info.ecs_path.as_str());
    out.append("::ptr::OwningPtr<'_>)) { ");
    out.append(render_emissions(info).as_str());
    out.append("} } ");
    out
}

/// Writes the impl of `BundleFromComponents`.
pub fn render_from_components_impl(info: &BundleInfo) -> (r: String)
    ensures
        r@ == from_components_impl_text(info@),
{
    let mut out = render_impl_header(info, "unsafe impl ", "::bundle::BundleFromComponents");
    out.append(
        "{ #[allow(unused_variables, non_snake_case)] unsafe fn from_components<__T, __F>(ctx: &mut __T, func: &mut __F) -> Self where __F: FnMut(&mut __T) -> ",
    );
    out.append(info.ecs_path.as_str());
    out.append("::ptr::OwningPtr<'_> { Self { ");
    out.append(render_extractions(info).as_str());
    out.append(render_default_fills(&info.inactive_field_tokens).as_str());
    out.append("} } } ");
    out
}

} // verus!
