//! Compile-time diagnostics.
use vstd::prelude::*;
use vstd::string::StringExecFns;
use crate::site::Site;

verus! {

/// A diagnostic produced while analysing a declaration: a message and the place
/// it points to. It is reported to the user as a compile error; nothing in this
/// crate fails at run time.
#[derive(Debug)]
pub struct CompositionError {
    pub message: String,
    pub site: Site,
}

/// The mathematical value of a [`CompositionError`].
pub struct Diagnostic {
    pub message: Seq<char>,
    pub site: Site,
}

impl View for CompositionError {
    type V = Diagnostic;

    open spec fn view(&self) -> Diagnostic {
        Diagnostic { message: self.message@, site: self.site }
    }
}

/// The values of a list of diagnostics, in order.
pub open spec fn diagnostics(errors: Seq<CompositionError>) -> Seq<Diagnostic> {
    errors.map_values(|e: CompositionError| e@)
}

impl CompositionError {
    pub fn new(message: &str, site: Site) -> (r: CompositionError)
        ensures
            r@ == (Diagnostic { message: message@, site }),
    {
        CompositionError { message: String::from_str(message), site }
    }
}

impl Clone for CompositionError {
    fn clone(&self) -> (r: CompositionError)
        ensures
            r@ == self@,
    {
        CompositionError { message: self.message.clone(), site: self.site }
    }
}

/// Appending an error to a list appends its value to the list's values.
pub proof fn lemma_diagnostics_push(errors: Seq<CompositionError>, e: CompositionError)
    ensures
        diagnostics(errors.push(e)) == diagnostics(errors).push(e@),
{
    assert(diagnostics(errors.push(e)) =~= diagnostics(errors).push(e@));
}

} // verus!
