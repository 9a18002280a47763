//! The library's error type.
use vstd::prelude::*;
use vstd::string::StringExecFns;

verus! {

/// A failure to decode or to narrow a node.
#[derive(Debug, PartialEq, Eq)]
pub enum Error {
    /// A node rule was broken; the message says which.
    General(String),
    /// The encoded value itself was malformed (a field missing or of the
    /// wrong type, a tag that names no node), or a lower text layer failed;
    /// the payload is that failure's message.
    Wrapper(String),
}

/// The mathematical value of an [`Error`].
pub enum ErrorView {
    General(Seq<char>),
    Wrapper(Seq<char>),
}

impl View for Error {
    type V = ErrorView;

    open spec fn view(&self) -> ErrorView {
        match self {
            Error::General(m) => ErrorView::General(m@),
            Error::Wrapper(m) => ErrorView::Wrapper(m@),
        }
    }
}

impl Clone for Error {
    fn clone(&self) -> (r: Error)
        ensures
            r == *self,
    {
        match self {
            Error::General(m) => Error::General(m.clone()),
            Error::Wrapper(m) => Error::Wrapper(m.clone()),
        }
    }
}

impl ErrorView {
    /// The text shown for the error.
    pub open spec fn message(self) -> Seq<char> {
        match self {
            ErrorView::General(m) => "general error: "@ + m,
            ErrorView::Wrapper(m) => "wrapped error: "@ + m,
        }
    }
}

impl Error {
    /// A broken node rule, with its message.
    pub fn general(msg: &str) -> (e: Error)
        ensures
            e@ == ErrorView::General(msg@),
    {
        Error::General(msg.to_owned())
    }

    /// A malformed encoded value or a failure of a lower layer, with its
    /// message.
    pub fn wrapper(msg: &str) -> (e: Error)
        ensures
            e@ == ErrorView::Wrapper(msg@),
    {
        Error::Wrapper(msg.to_owned())
    }

    /// The text shown for the error: a prefix naming the variant, then the
    /// payload.
    pub fn message(&self) -> (s: String)
        ensures
            s@ == self@.message(),
    {
        match self {
            Error::General(m) => "general error: ".to_owned().concat(m.as_str()),
            Error::Wrapper(m) => "wrapped error: ".to_owned().concat(m.as_str()),
        }
    }
}

/// The failure to narrow a value to a variant that it does not hold.
pub open spec fn wrong_variant() -> ErrorView {
    ErrorView::General("wrong variant"@)
}

/// Whether an executable result is the given mathematical one.
pub open spec fn agrees<T: View>(r: Result<T, Error>, m: Result<T::V, ErrorView>) -> bool {
    match m {
        Ok(x) => r is Ok && r->Ok_0@ == x,
        Err(e) => r is Err && r->Err_0@ == e,
    }
}

} // verus!
