//! Analysis and code generation behind the `Bundle` derives of an
//! entity-component-system.
//!
//! A bundle is a struct whose fields are components (or bundles themselves). The
//! storage engine learns about a bundle through three generated contracts:
//! `Bundle` registers and looks up the component identifiers of the fields,
//! `DynamicBundle` moves the field values out into a sink, and
//! `BundleFromComponents` rebuilds a bundle from individually supplied
//! components. All of them walk the active fields in definition order, and the
//! storage engine relies on that order being the same everywhere.
//!
//! The crate is layered as follows.
//!
//! * [`declaration`] is a plain-value picture of a type declaration, and
//!   [`reader`] fills it from a parsed `syn::DeriveInput`.
//! * [`shape`], [`directive`] and [`classify`] validate the declaration, scan its
//!   `#[bundle(..)]` directives and split the fields into active and ignored.
//!   What they find wrong is a [`diagnostic`] at a [`site`].
//! * [`bundle`] holds the derives, which produce an [`bundle::Expansion`]:
//!   diagnostics and the source text of the generated impls, written by
//!   [`render`] with the help of [`text`].
//! * [`emit`] turns an expansion into a token stream, and [`expand`] puts
//!   reading, deriving and emitting together for a procedural macro to call.
//! * [`protocol`] holds what the generated code does at run time, as operations
//!   on the analysed bundle and a [`registry`] of component types, together with
//!   the laws the storage engine depends on.
pub mod site;
pub mod diagnostic;
pub mod declaration;
pub mod shape;
pub mod directive;
pub mod classify;
pub mod text;
pub mod bundle;
pub mod render;
pub mod reader;
pub mod emit;
pub mod expand;
pub mod registry;
pub mod protocol;
