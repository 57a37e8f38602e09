//! Numeric conversions that refuse to lose information: a cast succeeds
//! only when the value is exactly representable in the target type.
use vstd::prelude::*;

pub mod integers;

verus! {

/// The error of a cast whose value does not fit the target type; it names
/// both types.
#[derive(Debug, Clone, Copy, PartialEq, Eq)]
pub struct CastError {
    from: &'static str,
    to: &'static str,
}

impl View for CastError {
    type V = (Seq<char>, Seq<char>);

    /// The names of the source and target types.
    closed spec fn view(&self) -> (Seq<char>, Seq<char>) {
        (self.from@, self.to@)
    }
}

impl CastError {
    /// The error for a cast from the type named `from` to the type named
    /// `to`.
    pub fn new(from: &'static str, to: &'static str) -> (e: Self)
        ensures
            e@ == (from@, to@),
    {
        CastError { from, to }
    }

    /// The name of the source type.
    pub fn from_type(&self) -> (s: &'static str)
        ensures
            s@ == self@.0,
    {
        self.from
    }

    /// The text shown for this error, naming both types.
    pub fn to_string(&self) -> (s: String)
        ensures
            s@ == "cannot safely cast "@ + self@.0 + " to "@ + self@.1
                + ": value is not exactly representable"@,
    {
        let mut s = String::from_str("cannot safely cast ");
        s.append(self.from);
        s.append(" to ");
        s.append(self.to);
        s.append(": value is not exactly representable");
        s
    }

    /// The name of the target type.
    pub fn to_type(&self) -> (s: &'static str)
        ensures
            s@ == self@.1,
    {
        self.to
    }
}

/// A conversion into `T` that fails rather than truncate, wrap or round.
pub trait SafeCast<T>: Sized {
    /// Whether `self` is exactly representable as a `T`.
    spec fn fits(self) -> bool;

    /// `self` as a `T`, meaningful where it fits.
    spec fn converted(self) -> T;

    /// The names of the source and target types, as a failed cast reports
    /// them.
    spec fn type_names() -> (Seq<char>, Seq<char>);

    /// `self` as a `T`, or a [`CastError`] when it is not exactly
    /// representable there.
    fn safe_cast(self) -> (r: Result<T, CastError>)
        ensures
            r is Ok <==> self.fits(),
            r matches Ok(v) ==> v == self.converted(),
            r matches Err(e) ==> e@ == Self::type_names();
}

} // verus!
