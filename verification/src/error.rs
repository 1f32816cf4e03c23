use vstd::prelude::*;

verus! {

/// A list specifying general error categories.
#[derive(Clone, Copy, Debug, Eq, PartialEq, Structural)]
pub enum Error {
    /// A non-finite value was provided.
    NotFinite,
}

impl Error {
    /// A short description of the error, suitable for a diagnostic message.
    pub fn as_str(&self) -> (r: &'static str)
        ensures
            r@ == "a non-finite value was provided"@,
    {
        match *self {
            Error::NotFinite => "a non-finite value was provided",
        }
    }
}

} // verus!
