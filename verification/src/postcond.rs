//! Postconditions checked at run time and reported as values.
use vstd::prelude::*;

verus! {

/// A violated postcondition, carrying its description.
#[derive(Debug, Clone, Copy, PartialEq, Eq)]
pub struct PostconditionError {
    msg: &'static str,
}

impl View for PostconditionError {
    type V = Seq<char>;

    /// The description.
    closed spec fn view(&self) -> Seq<char> {
        self.msg@
    }
}

impl PostconditionError {
    /// The error with description `msg`.
    pub fn new(msg: &'static str) -> (e: Self)
        ensures
            e@ == msg@,
    {
        PostconditionError { msg }
    }

    /// The description.
    pub fn message(&self) -> (m: &'static str)
        ensures
            m@ == self@,
    {
        self.msg
    }
}

impl PostconditionError {
    /// The text shown for this error: `"postcondition violated: "` and the
    /// description.
    pub fn to_string(&self) -> (s: String)
        ensures
            s@ == "postcondition violated: "@ + self@,
    {
        let mut s = String::from_str("postcondition violated: ");
        s.append(self.msg);
        s
    }
}

/// `Ok(())` when `cond` holds, otherwise the error described by `msg`.
pub fn check(cond: bool, msg: &'static str) -> (r: Result<(), PostconditionError>)
    ensures
        r is Ok <==> cond,
        r matches Err(e) ==> e@ == msg@,
{
    if cond {
        Ok(())
    } else {
        Err(PostconditionError::new(msg))
    }
}

} // verus!
