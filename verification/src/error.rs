//! Startup failures.

use vstd::prelude::*;

verus! {

/// Why the gateway cannot start.
#[derive(Debug, PartialEq, Eq)]
pub enum Error {
    /// A setting that cannot be used; the text says which and why.
    Config(String),
}

impl View for Error {
    type V = Seq<char>;

    open spec fn view(&self) -> Seq<char> {
        match *self {
            Error::Config(message) => message@,
        }
    }
}

impl Error {
    /// The diagnostic text.
    pub fn to_string(&self) -> (message: String)
        ensures
            message@ == self@,
    {
        match self {
            Error::Config(message) => message.clone(),
        }
    }
}

/// A result with its error as text.
pub open spec fn outcome<T>(r: Result<T, Error>) -> Result<T, Seq<char>> {
    match r {
        Ok(value) => Ok(value),
        Err(error) => Err(error@),
    }
}

/// A configuration failure described by four texts in a row.
pub fn config_error(a: &str, b: &str, c: &str, d: &str) -> (error: Error)
    ensures
        error@ == a@ + b@ + c@ + d@,
{
    Error::Config(a.to_owned().concat(b).concat(c).concat(d))
}

/// A failure reads as the text that it was made with, and a result as the value or the
/// text that it holds.
pub proof fn law_failures_read_as_their_text<T>(message: String, value: T)
    ensures
        Error::Config(message)@ == message@,
        outcome::<T>(Ok(value)) == Ok::<T, Seq<char>>(value),
        outcome::<T>(Err(Error::Config(message))) == Err::<T, Seq<char>>(message@),
{
}

/// A failure made of four texts reads as the four in a row, and shows the text that it
/// holds.
pub proof fn law_failures_show_their_text(a: &str, b: &str, c: &str, d: &str, failure: Error, shown: String)
    requires
        call_ensures(config_error, (a, b, c, d), failure),
        call_ensures(Error::to_string, (&failure,), shown),
    ensures
        failure matches Error::Config(message) && message@ == a@ + b@ + c@ + d@,
        shown@ == a@ + b@ + c@ + d@,
{
}

} // verus!
