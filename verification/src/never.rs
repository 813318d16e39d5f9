use vstd::prelude::*;

verus! {

/// A stand-in for an uninhabited type.
///
/// A genuine zero-variant type cannot be declared in this setting, so the
/// emptiness is emulated: the single field is private, no function of this
/// crate ever builds a value, and the type invariant below is satisfiable by
/// no assignment of the field at all. Verified code therefore can never hold
/// a `Never`, and a computation whose declared output is `Never` can never
/// complete.
pub struct Never {
    marker: bool,
}

/// The invariant every `Never` value would have to satisfy. It contradicts
/// itself, so constructing a `Never` is impossible for verified code.
#[verifier::type_invariant]
pub closed spec fn never_excluded(n: Never) -> bool {
    n.marker && !n.marker
}

/// No value satisfies `never_excluded`. Code that is handed a `Never` may
/// combine this with `use_type_invariant` to conclude that it is on an
/// unreachable path.
pub proof fn lemma_never_excluded(n: Never)
    ensures
        !never_excluded(n),
{
}

} // verus!
