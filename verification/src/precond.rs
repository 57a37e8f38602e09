//! Preconditions checked at run time and reported as values.
use vstd::prelude::*;

verus! {

/// A violated precondition, carrying its description.
#[derive(Debug, Clone, Copy, PartialEq, Eq)]
pub struct PreconditionError {
    msg: &'static str,
}

impl View for PreconditionError {
    type V = Seq<char>;

    /// The description.
    closed spec fn view(&self) -> Seq<char> {
        self.msg@
    }
}

impl PreconditionError {
    /// The error with description `msg`.
    pub fn new(msg: &'static str) -> (e: Self)
        ensures
            e@ == msg@,
    {
        PreconditionError { msg }
    }

    /// The description.
    pub fn msg(&self) -> (m: &'static str)
        ensures
            m@ == self@,
    {
        self.msg
    }
}

impl PreconditionError {
    /// The text shown for this error: `"precondition violated: "` and the
    /// description.
    pub fn to_string(&self) -> (s: String)
        ensures
            s@ == "precondition violated: "@ + self@,
    {
        let mut s = String::from_str("precondition violated: ");
        s.append(self.msg);
        s
    }
}

/// `Ok(())` when `cond` holds, otherwise the error described by `msg`.
pub fn check(cond: bool, msg: &'static str) -> (r: Result<(), PreconditionError>)
    ensures
        r is Ok <==> cond,
        r matches Err(e) ==> e@ == msg@,
{
    if cond {
        Ok(())
    } else {
        Err(PreconditionError::new(msg))
    }
}

} // verus!
