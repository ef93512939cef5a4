//! Source locations of diagnostics.
use vstd::prelude::*;

verus! {

#[verifier::external_type_specification]
#[verifier::external_body]
pub struct ExSpan(proc_macro2::Span);

/// `Span` is `Copy`: `<proc_macro2::Span as Clone>::clone` hands back the span it
/// was given.
pub assume_specification[ <proc_macro2::Span as Clone>::clone ](span: &proc_macro2::Span) -> (r:
    proc_macro2::Span)
    ensures
        r == *span,
;

/// Where a diagnostic points.
#[derive(Clone, Copy, Debug)]
pub enum Site {
    /// The macro invocation, that is the `derive` attribute itself. Chosen over
    /// the declaration body so that, with several derives on one type, the
    /// message shows which derive has the problem.
    CallSite,
    /// The macro invocation, with the hygiene of a declarative macro.
    MixedSite,
    /// A piece of the declaration, such as one flag of a directive.
    Span(proc_macro2::Span),
}

/// `proc_macro2::Span::call_site`: the span of the current macro invocation.
/// Which span that is depends on the invocation, so nothing is stated of it.
#[verifier::external_body]
pub(crate) fn call_site() -> proc_macro2::Span {
    proc_macro2::Span::call_site()
}

/// `proc_macro2::Span::mixed_site`: the span of the current macro invocation with
/// mixed hygiene. Which span that is depends on the invocation, so nothing is
/// stated of it.
#[verifier::external_body]
pub(crate) fn mixed_site() -> proc_macro2::Span {
    proc_macro2::Span::mixed_site()
}

impl Site {
    /// The span that a diagnostic at this site is reported on.
    pub fn span(&self) -> (r: proc_macro2::Span)
        ensures
            *self matches Site::Span(s) ==> r == s,
    {
        match self {
            Site::CallSite => call_site(),
            Site::MixedSite => mixed_site(),
            Site::Span(s) => *s,
        }
    }
}

} // verus!
