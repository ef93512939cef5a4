//! Scanning of `#[bundle(..)]` directives.
//!
//! The directives of the bundle derives are the attributes named `bundle`;
//! attributes of any other name are passed over. A directive is a
//! comma-separated list of flags. Each level knows one flag:
//! `ignore_from_components` on the type, `ignore` on a field. A scan asks
//! whether the known flag is present, and reports every flag that is not the
//! known one, each at its own place, and every directive that could not be
//! read to the end. Nothing that is reported stops the scan, so one derive
//! reports every problem at once.
use vstd::prelude::*;
use vstd::string::StringExecFns;
use crate::declaration::{Directive, DirectiveView, FaultView, FlagView, directive_views};
use crate::diagnostic::{CompositionError, Diagnostic, diagnostics, lemma_diagnostics_push};
use crate::site::Site;

verus! {

/// The name of the attribute that carries the directives.
pub const BUNDLE_ATTRIBUTE_NAME: &'static str = "bundle";

/// The flag that excludes a field from composition.
pub const BUNDLE_ATTRIBUTE_IGNORE_NAME: &'static str = "ignore";

/// The flag that switches off the generation of `BundleFromComponents`.
pub const BUNDLE_ATTRIBUTE_NO_FROM_COMPONENTS: &'static str = "ignore_from_components";

/// The message for an unknown flag on the type.
pub const INVALID_CONTAINER_FLAG_MESSAGE: &'static str =
    "Invalid bundle container attribute. Allowed attributes: `ignore_from_components`";

/// The message for an unknown flag on a field.
pub const INVALID_FIELD_FLAG_MESSAGE: &'static str = "Invalid bundle attribute. Use `ignore`";

/// What the directives on the type ask for.
#[derive(Clone, Copy, Debug, PartialEq, Eq, Structural)]
pub struct BundleAttributes {
    /// Whether `BundleFromComponents` is generated.
    pub impl_from_components: bool,
}

impl Default for BundleAttributes {
    fn default() -> (r: BundleAttributes)
        ensures
            r == (BundleAttributes { impl_from_components: true }),
    {
        BundleAttributes { impl_from_components: true }
    }
}

/// Whether a flag is not the known one.
pub open spec fn is_unknown(flag: FlagView, known: Seq<char>) -> bool {
    flag.name != known
}

/// The diagnostic for an unknown flag: `message`, at the flag.
pub open spec fn flag_error(flag: FlagView, message: Seq<char>) -> Diagnostic {
    Diagnostic { message, site: Site::Span(flag.span) }
}

/// The diagnostic for a directive that could not be read to the end: the
/// reader's own message, at the place where it stopped.
pub open spec fn fault_error(fault: FaultView) -> Diagnostic {
    Diagnostic { message: fault.message, site: Site::Span(fault.span) }
}

/// The diagnostics for the flags of one directive: one for each flag that is
/// not `known`, in the order written.
pub open spec fn flag_errors(
    flags: Seq<FlagView>,
    known: Seq<char>,
    message: Seq<char>,
) -> Seq<Diagnostic> {
    flags.filter(|f: FlagView| is_unknown(f, known)).map_values(
        |f: FlagView| flag_error(f, message),
    )
}

/// The diagnostic for the fault of one directive, if it has one.
pub open spec fn fault_errors(fault: Option<FaultView>) -> Seq<Diagnostic> {
    match fault {
        Some(fault) => seq![fault_error(fault)],
        None => Seq::empty(),
    }
}

/// Whether an attribute is a directive of the bundle derives: it is named
/// `bundle`.
pub open spec fn is_directive(directive: DirectiveView) -> bool {
    directive.name == BUNDLE_ATTRIBUTE_NAME@
}

/// The diagnostics of one attribute: for a directive, those for its unknown
/// flags, then the one for its fault; for any other attribute, none.
pub open spec fn directive_error(
    directive: DirectiveView,
    known: Seq<char>,
    message: Seq<char>,
) -> Seq<Diagnostic> {
    if is_directive(directive) {
        flag_errors(directive.flags, known, message) + fault_errors(directive.fault)
    } else {
        Seq::empty()
    }
}

/// Whether an attribute is a directive in which the `known` flag is present.
pub open spec fn directive_sets(directive: DirectiveView, known: Seq<char>) -> bool {
    is_directive(directive) && exists|i: int|
        0 <= i < directive.flags.len() && (#[trigger] directive.flags[i]).name == known
}

/// Whether the `known` flag is present in some directive of the list.
pub open spec fn any_sets(directives: Seq<DirectiveView>, known: Seq<char>) -> bool {
    exists|i: int| 0 <= i < directives.len() && directive_sets(#[trigger] directives[i], known)
}

/// The diagnostics of a list of directives: those of each directive, in the
/// order of the directives.
pub open spec fn directive_errors(
    directives: Seq<DirectiveView>,
    known: Seq<char>,
    message: Seq<char>,
) -> Seq<Diagnostic>
    decreases directives.len(),
{
    if directives.len() == 0 {
        Seq::empty()
    } else {
        directive_errors(directives.drop_last(), known, message) + directive_error(
            directives.last(),
            known,
            message,
        )
    }
}

/// What the directives on the type ask for: `BundleFromComponents` is generated
/// unless `ignore_from_components` is present.
pub open spec fn container_attributes(directives: Seq<DirectiveView>) -> BundleAttributes {
    BundleAttributes {
        impl_from_components: !any_sets(directives, BUNDLE_ATTRIBUTE_NO_FROM_COMPONENTS@),
    }
}

/// The diagnostics of the directives on the type.
pub open spec fn container_errors(directives: Seq<DirectiveView>) -> Seq<Diagnostic> {
    directive_errors(
        directives,
        BUNDLE_ATTRIBUTE_NO_FROM_COMPONENTS@,
        INVALID_CONTAINER_FLAG_MESSAGE@,
    )
}

/// Whether the directives on a field exclude it from composition: `ignore` is
/// present.
pub open spec fn field_ignored(directives: Seq<DirectiveView>) -> bool {
    any_sets(directives, BUNDLE_ATTRIBUTE_IGNORE_NAME@)
}

/// The diagnostics of the directives on one field.
pub open spec fn field_directive_errors(directives: Seq<DirectiveView>) -> Seq<Diagnostic> {
    directive_errors(directives, BUNDLE_ATTRIBUTE_IGNORE_NAME@, INVALID_FIELD_FLAG_MESSAGE@)
}

/// An attribute gives rise to diagnostic `e`: it is a directive, and `e` is the
/// diagnostic for one of its unknown flags, or for its fault.
pub open spec fn reports(
    directive: DirectiveView,
    known: Seq<char>,
    message: Seq<char>,
    e: Diagnostic,
) -> bool {
    &&& is_directive(directive)
    &&& {
        ||| exists|i: int|
            0 <= i < directive.flags.len() && is_unknown(#[trigger] directive.flags[i], known)
                && e == flag_error(directive.flags[i], message)
        ||| directive.fault matches Some(fault) && e == fault_error(fault)
    }
}

/// A diagnostic stands in the concatenation of two lists exactly if it stands in
/// one of them.
pub proof fn lemma_contains_add(a: Seq<Diagnostic>, b: Seq<Diagnostic>, e: Diagnostic)
    ensures
        (a + b).contains(e) <==> a.contains(e) || b.contains(e),
{
    if a.contains(e) {
        let k = choose|k: int| 0 <= k < a.len() && a[k] == e;
        assert((a + b)[k] == e);
    }
    if b.contains(e) {
        let k = choose|k: int| 0 <= k < b.len() && b[k] == e;
        assert((a + b)[a.len() + k] == e);
    }
    if (a + b).contains(e) {
        let k = choose|k: int| 0 <= k < (a + b).len() && (a + b)[k] == e;
        if k < a.len() {
            assert(a[k] == e);
        } else {
            assert(b[k - a.len()] == e);
        }
    }
}

/// The diagnostics of one directive are those that it gives rise to: every
/// unknown flag has its diagnostic, the fault has its own, and there is no
/// other.
pub proof fn lemma_directive_error(
    directive: DirectiveView,
    known: Seq<char>,
    message: Seq<char>,
    e: Diagnostic,
)
    ensures
        directive_error(directive, known, message).contains(e) <==> reports(
            directive,
            known,
            message,
            e,
        ),
{
    if is_directive(directive) {
        let flags = directive.flags;
        let unknown = |f: FlagView| is_unknown(f, known);
        let kept = flags.filter(unknown);
        let of_flags = flag_errors(flags, known, message);
        let of_fault = fault_errors(directive.fault);
        lemma_contains_add(of_flags, of_fault, e);
        if of_flags.contains(e) {
            let k = choose|k: int| 0 <= k < of_flags.len() && of_flags[k] == e;
            flags.lemma_filter_pred(unknown, k);
            flags.lemma_filter_contains_rev(unknown, kept[k]);
            let i = choose|i: int| 0 <= i < flags.len() && flags[i] == kept[k];
            assert(is_unknown(flags[i], known) && e == flag_error(flags[i], message));
        }
        if exists|i: int|
            0 <= i < flags.len() && is_unknown(#[trigger] flags[i], known) && e == flag_error(
                flags[i],
                message,
            ) {
            let i = choose|i: int|
                0 <= i < flags.len() && is_unknown(#[trigger] flags[i], known) && e == flag_error(
                    flags[i],
                    message,
                );
            flags.lemma_filter_contains(unknown, i);
            let k = choose|k: int| 0 <= k < kept.len() && kept[k] == flags[i];
            assert(of_flags[k] == e);
        }
        if of_fault.contains(e) {
            assert(of_fault[0] == e);
        }
        if directive.fault matches Some(fault) && e == fault_error(fault) {
            assert(of_fault[0] == e);
        }
    }
}

/// The diagnostics of a list of directives are those that its directives give
/// rise to, and no others.
pub proof fn lemma_directive_errors(
    directives: Seq<DirectiveView>,
    known: Seq<char>,
    message: Seq<char>,
    e: Diagnostic,
)
    ensures
        directive_errors(directives, known, message).contains(e) <==> exists|j: int|
            0 <= j < directives.len() && reports(#[trigger] directives[j], known, message, e),
    decreases directives.len(),
{
    if directives.len() > 0 {
        let init = directives.drop_last();
        let last = directives.last();
        lemma_directive_errors(init, known, message, e);
        lemma_directive_error(last, known, message, e);
        lemma_contains_add(
            directive_errors(init, known, message),
            directive_error(last, known, message),
            e,
        );
        if exists|j: int| 0 <= j < init.len() && reports(#[trigger] init[j], known, message, e) {
            let j = choose|j: int|
                0 <= j < init.len() && reports(#[trigger] init[j], known, message, e);
            assert(directives[j] == init[j]);
        }
        if reports(last, known, message, e) {
            assert(directives[directives.len() - 1] == last);
        }
        if exists|j: int|
            0 <= j < directives.len() && reports(#[trigger] directives[j], known, message, e) {
            let j = choose|j: int|
                0 <= j < directives.len() && reports(#[trigger] directives[j], known, message, e);
            if j < init.len() {
                assert(init[j] == directives[j]);
            }
        }
    }
}

/// Scans one attribute for the `known` flag: whether it is a directive in which
/// the flag is present, and the diagnostics of the attribute.
pub fn scan_directive(directive: &Directive, known: &str, message: &str) -> (r: (
    bool,
    Vec<CompositionError>,
))
    ensures
        r.0 == directive_sets(directive@, known@),
        diagnostics(r.1@) == directive_error(directive@, known@, message@),
{
    let mut present = false;
    let mut errors: Vec<CompositionError> = Vec::new();
    let name = String::from_str(BUNDLE_ATTRIBUTE_NAME);
    if !(directive.name == name) {
        assert(diagnostics(errors@) =~= Seq::<Diagnostic>::empty());
        return (present, errors);
    }
    let key = String::from_str(known);
    let ghost flags = directive@.flags;
    let ghost unknown = |f: FlagView| is_unknown(f, known@);
    let mut i: usize = 0;
    proof {
        reveal(Seq::filter);
        assert(flags.take(0) =~= Seq::<FlagView>::empty());
        assert(diagnostics(errors@) =~= flag_errors(flags.take(0), known@, message@));
    }
    while i < directive.flags.len()
        invariant
            i <= directive.flags.len(),
            key@ == known@,
            flags == directive@.flags,
            flags.len() == directive.flags.len(),
            is_directive(directive@),
            unknown == (|f: FlagView| is_unknown(f, known@)),
            present == (exists|j: int| 0 <= j < i && (#[trigger] flags[j]).name == known@),
            diagnostics(errors@) == flag_errors(flags.take(i as int), known@, message@),
        decreases directive.flags.len() - i,
    {
        let flag = &directive.flags[i];
        proof {
            assert(flags[i as int] == flag@);
            assert(flags.take(i + 1) =~= flags.take(i as int).push(flags[i as int]));
            flags.take(i as int).lemma_filter_push(flags[i as int], unknown);
        }
        if flag.name == key {
            present = true;
        } else {
            let e = CompositionError::new(message, Site::Span(flag.span));
            proof {
                lemma_diagnostics_push(errors@, e);
                assert(flag_errors(flags.take(i as int), known@, message@).push(e@)
                    =~= flag_errors(flags.take(i + 1), known@, message@));
            }
            errors.push(e);
        }
        i += 1;
    }
    assert(flags.take(i as int) =~= flags);
    match &directive.fault {
        Some(fault) => {
            let e = CompositionError {
                message: fault.message.clone(),
                site: Site::Span(fault.span),
            };
            proof {
                lemma_diagnostics_push(errors@, e);
                assert(diagnostics(errors@).push(e@) =~= diagnostics(errors@) + seq![e@]);
            }
            errors.push(e);
        },
        None => {
            assert(diagnostics(errors@) + Seq::<Diagnostic>::empty() =~= diagnostics(errors@));
        },
    }
    (present, errors)
}

/// Scans a list of attributes for the `known` flag: whether it is present in any
/// directive among them, and the diagnostics of all of them.
pub fn scan_directives(directives: &Vec<Directive>, known: &str, message: &str) -> (r: (
    bool,
    Vec<CompositionError>,
))
    ensures
        r.0 == any_sets(directive_views(directives@), known@),
        diagnostics(r.1@) == directive_errors(directive_views(directives@), known@, message@),
{
    let ghost views = directive_views(directives@);
    let mut present = false;
    let mut errors: Vec<CompositionError> = Vec::new();
    let mut i: usize = 0;
    assert(views.take(0) =~= Seq::<DirectiveView>::empty());
    assert(diagnostics(errors@) =~= Seq::<Diagnostic>::empty());
    while i < directives.len()
        invariant
            i <= directives.len(),
            views == directive_views(directives@),
            present == any_sets(views.take(i as int), known@),
            diagnostics(errors@) == directive_errors(views.take(i as int), known@, message@),
        decreases directives.len() - i,
    {
        let (set, mut found) = scan_directive(&directives[i], known, message);
        proof {
            let before = views.take(i as int);
            let now = views.take(i + 1);
            assert(views[i as int] == directives@[i as int]@);
            assert(now.drop_last() =~= before);
            assert(now.last() == views[i as int]);
            if any_sets(before, known@) {
                let k = choose|k: int|
                    0 <= k < before.len() && directive_sets(#[trigger] before[k], known@);
                assert(now[k] == before[k]);
            }
            if set {
                assert(directive_sets(now[i as int], known@));
            }
            if any_sets(now, known@) && !set {
                let k = choose|k: int|
                    0 <= k < now.len() && directive_sets(#[trigger] now[k], known@);
                assert(before[k] == now[k]);
            }
            assert(diagnostics(errors@ + found@) =~= diagnostics(errors@) + diagnostics(found@));
        }
        if set {
            present = true;
        }
        errors.append(&mut found);
        i += 1;
    }
    assert(views.take(i as int) =~= views);
    (present, errors)
}

/// Scans the attributes on the type. `BundleFromComponents` is generated unless
/// `ignore_from_components` is present; every other flag is reported with
/// [`INVALID_CONTAINER_FLAG_MESSAGE`], at the flag.
pub fn scan_container_directives(directives: &Vec<Directive>) -> (r: (
    BundleAttributes,
    Vec<CompositionError>,
))
    ensures
        r.0 == container_attributes(directive_views(directives@)),
        diagnostics(r.1@) == container_errors(directive_views(directives@)),
{
    let mut attributes = BundleAttributes::default();
    let (present, errors) = scan_directives(
        directives,
        BUNDLE_ATTRIBUTE_NO_FROM_COMPONENTS,
        INVALID_CONTAINER_FLAG_MESSAGE,
    );
    if present {
        attributes.impl_from_components = false;
    }
    (attributes, errors)
}

/// Scans the attributes on one field. The field is ignored if `ignore` is
/// present; every other flag is reported with [`INVALID_FIELD_FLAG_MESSAGE`],
/// at the flag.
pub fn scan_field_directives(directives: &Vec<Directive>) -> (r: (bool, Vec<CompositionError>))
    ensures
        r.0 == field_ignored(directive_views(directives@)),
        diagnostics(r.1@) == field_directive_errors(directive_views(directives@)),
{
    scan_directives(directives, BUNDLE_ATTRIBUTE_IGNORE_NAME, INVALID_FIELD_FLAG_MESSAGE)
}

} // verus!
