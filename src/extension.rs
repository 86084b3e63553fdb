//! The `parse` extension on `Result`.
use vstd::prelude::*;
use crate::error::Error;
use crate::from_text::FromText;

verus! {

/// What the combined result is for a given outcome of reading the text.
pub open spec fn lifted<F, E, P>(parsed: Result<F, P>) -> Result<F, Error<E, P>> {
    match parsed {
        Ok(v) => Ok(v),
        Err(p) => Err(Error::ParseFailure(p)),
    }
}

/// Turns the outcome of reading the text into the combined result: a value
/// read stays a success, a parse error becomes `ParseFailure`.
pub fn parse_outcome<F, E, P>(parsed: Result<F, P>) -> (r: Result<F, Error<E, P>>)
    ensures
        r == lifted::<F, E, P>(parsed),
{
    match parsed {
        Ok(v) => Ok(v),
        Err(p) => Err(Error::ParseFailure(p)),
    }
}

/// Runs `read` on the success value and combines the outcome; an `Err(e)` comes
/// back as `Err(OriginalErr(e))` and `read` is not called at all.
pub fn parse_with<T, F, E, P, R: FnOnce(T) -> Result<F, P>>(r: Result<T, E>, read: R) -> (out: Result<F, Error<E, P>>)
    requires
        r matches Ok(t) ==> read.requires((t,)),
    ensures
        r matches Err(e) ==> out == Err::<F, Error<E, P>>(Error::OriginalErr(e)),
        r matches Ok(t) ==> exists|x: Result<F, P>| read.ensures((t,), x) && out == lifted::<F, E, P>(x),
{
    match r {
        Err(e) => Err(Error::OriginalErr(e)),
        Ok(t) => parse_outcome(read(t)),
    }
}

/// What `parse` owes for an outcome whose text view (or original error) is
/// `view`: the original error is passed on untouched; text comes back as the
/// value it reads as, or as `ParseFailure` where it reads as none.
pub open spec fn parse_ensures<F: FromText, E>(view: Result<Seq<char>, E>, r: Result<F, Error<E, F::Err>>) -> bool {
    match view {
        Err(e) => r == Err::<F, Error<E, F::Err>>(Error::OriginalErr(e)),
        Ok(s) => match r {
            Ok(v) => F::text_value(s) == Some(v),
            Err(Error::ParseFailure(_)) => F::text_value(s) is None,
            Err(Error::OriginalErr(_)) => false,
        },
    }
}

/// Extension trait that adds `parse` to `Result`.
pub trait ParseResult<E>: Sized {
    /// The text of the success value, or the original error.
    spec fn text_view(&self) -> Result<Seq<char>, E>;

    /// Parses the success value's text into `F`, unless this is already an `Err`.
    ///
    /// An `Err(e)` comes back as `Err(OriginalErr(e))` without any parse being
    /// attempted. A success comes back as the value its text reads as, or as
    /// `Err(ParseFailure(p))` with the target type's own parse error `p`.
    fn parse<F: FromText>(self) -> (r: Result<F, Error<E, F::Err>>)
        ensures
            parse_ensures::<F, E>(self.text_view(), r),
    ;
}

/// Parsing `Ok(t)` agrees with reading `t` directly: where the target type
/// reads `t` as a value, `parse` returns that value; where it reads none,
/// `parse` returns `ParseFailure` and never `OriginalErr`.
pub proof fn lemma_parse_agrees_with_from_text<F: FromText, E>(
    t: &str,
    direct: Result<F, F::Err>,
    r: Result<F, Error<E, F::Err>>,
)
    requires
        call_ensures(F::from_text, (t,), direct),
        call_ensures(<Result<&str, E> as ParseResult<E>>::parse::<F>, (Ok::<&str, E>(t),), r),
    ensures
        direct matches Ok(v) ==> r == Ok::<F, Error<E, F::Err>>(v),
        direct is Err <==> r matches Err(Error::ParseFailure(_)),
{
}

impl<'a, E> ParseResult<E> for Result<&'a str, E> {
    open spec fn text_view(&self) -> Result<Seq<char>, E> {
        match self {
            Ok(t) => Ok(t@),
            Err(e) => Err(*e),
        }
    }

    fn parse<F: FromText>(self) -> (r: Result<F, Error<E, F::Err>>) {
        match self {
            Err(e) => Err(Error::OriginalErr(e)),
            Ok(t) => parse_outcome(F::from_text(t)),
        }
    }
}

impl<E> ParseResult<E> for Result<String, E> {
    open spec fn text_view(&self) -> Result<Seq<char>, E> {
        match self {
            Ok(t) => Ok(t@),
            Err(e) => Err(*e),
        }
    }

    fn parse<F: FromText>(self) -> (r: Result<F, Error<E, F::Err>>) {
        match self {
            Err(e) => Err(Error::OriginalErr(e)),
            Ok(t) => parse_outcome(F::from_text(t.as_str())),
        }
    }
}

impl<'a, E> ParseResult<E> for Result<&'a String, E> {
    open spec fn text_view(&self) -> Result<Seq<char>, E> {
        match self {
            Ok(t) => Ok(t@),
            Err(e) => Err(*e),
        }
    }

    fn parse<F: FromText>(self) -> (r: Result<F, Error<E, F::Err>>) {
        match self {
            Err(e) => Err(Error::OriginalErr(e)),
            Ok(t) => parse_outcome(F::from_text(t.as_str())),
        }
    }
}

} // verus!
