//! The error that `parse` reports, tagged by the stage that failed.
use vstd::prelude::*;
use vstd::std_specs::cmp::PartialEqSpec;

verus! {

/// What can go wrong when `parse` is called on a `Result`.
#[derive(Debug, Eq)]
pub enum Error<E, P> {
    /// The `Err` that was there before any parse was attempted.
    OriginalErr(E),
    /// The `Err` that parsing the success value produced.
    ParseFailure(P),
}

impl<E: PartialEq, P: PartialEq> PartialEq for Error<E, P> {
    fn eq(&self, other: &Self) -> (r: bool) {
        match (self, other) {
            (Error::OriginalErr(a), Error::OriginalErr(b)) => a == b,
            (Error::ParseFailure(a), Error::ParseFailure(b)) => a == b,
            _ => false,
        }
    }
}

impl<E: PartialEq, P: PartialEq> vstd::std_specs::cmp::PartialEqSpecImpl for Error<E, P> {
    open spec fn obeys_eq_spec() -> bool {
        <E as PartialEqSpec>::obeys_eq_spec() && <P as PartialEqSpec>::obeys_eq_spec()
    }

    open spec fn eq_spec(&self, other: &Self) -> bool {
        match (self, other) {
            (Error::OriginalErr(a), Error::OriginalErr(b)) => <E as PartialEqSpec>::eq_spec(a, b),
            (Error::ParseFailure(a), Error::ParseFailure(b)) => <P as PartialEqSpec>::eq_spec(a, b),
            _ => false,
        }
    }
}

/// Two errors are equal exactly when they carry the same variant and their
/// wrapped values are equal: an original error never equals a parse failure.
pub proof fn lemma_eq_same_variant<E: PartialEq, P: PartialEq>(a: Error<E, P>, b: Error<E, P>)
    ensures
        a.eq_spec(&b) <==> ((a is OriginalErr && b is OriginalErr
            && <E as PartialEqSpec>::eq_spec(&a->OriginalErr_0, &b->OriginalErr_0))
            || (a is ParseFailure && b is ParseFailure
            && <P as PartialEqSpec>::eq_spec(&a->ParseFailure_0, &b->ParseFailure_0))),
        (a is OriginalErr && b is ParseFailure) ==> !a.eq_spec(&b),
{
}

} // verus!
