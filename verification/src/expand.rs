//! The derives on `syn`'s syntax tree: what a procedural macro calls.
use vstd::prelude::*;
use crate::bundle::{bundle_expansion, derive_bundle, derive_bundle_from_component, from_components_expansion};
use crate::emit::{expansion_tokens, is_expansion_stream};
use crate::reader::{declaration_of, read_declaration};

verus! {

/// `derive(Bundle)` on a parsed declaration: reads it, generates the impls of
/// `Bundle` and `DynamicBundle` and returns their tokens, after the tokens of
/// the diagnostics. This never fails: every problem with the declaration comes
/// back as a compile error in the stream.
pub fn expand_bundle(ast: &syn::DeriveInput, ecs_path: &str) -> (out: proc_macro2::TokenStream)
    ensures
        is_expansion_stream(out, bundle_expansion(declaration_of(*ast), ecs_path@)),
{
    let decl = read_declaration(ast);
    let expansion = derive_bundle(&decl, ecs_path);
    expansion_tokens(&expansion)
}

/// `derive(BundleFromComponents)` on a parsed declaration: reads it, generates
/// the impl of `BundleFromComponents` and returns its tokens, after the tokens
/// of the diagnostics. This never fails: every problem with the declaration
/// comes back as a compile error in the stream.
pub fn expand_bundle_from_component(ast: &syn::DeriveInput, ecs_path: &str) -> (out:
    proc_macro2::TokenStream)
    ensures
        is_expansion_stream(out, from_components_expansion(declaration_of(*ast), ecs_path@)),
{
    let decl = read_declaration(ast);
    let expansion = derive_bundle_from_component(&decl, ecs_path);
    expansion_tokens(&expansion)
}

} // verus!
