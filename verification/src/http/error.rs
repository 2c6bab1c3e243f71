use vstd::prelude::*;

verus! {

/// The text that `{:?}` formatting of std writes for a string: the string between double
/// quotes, with quotes, backslashes and unprintable characters escaped.
pub uninterp spec fn debug_text(s: Seq<char>) -> Seq<char>;

/// Calls std's `Debug` formatting for `str` through `format!`. The contract only gives the
/// result its name, `debug_text` of the argument; nothing about the escaping is claimed.
#[verifier::external_body]
pub(crate) fn debug_string(s: &str) -> (r: String)
    ensures
        r@ == debug_text(s@),
{
    format!("{:?}", s)
}

/// A failure of the HTTP transport, with the detail the transport reported.
#[derive(Debug)]
pub enum Error {
    Text(String),
}

/// The model of a transport failure.
pub enum ErrorModel {
    Text(Seq<char>),
}

impl View for Error {
    type V = ErrorModel;

    open spec fn view(&self) -> ErrorModel {
        match self {
            Error::Text(detail) => ErrorModel::Text(detail@),
        }
    }
}

impl Clone for Error {
    fn clone(&self) -> (r: Self)
        ensures
            r@ == self@,
    {
        match self {
            Error::Text(detail) => Error::Text(detail.clone()),
        }
    }
}

impl ErrorModel {
    /// The debug form of the error: the variant name around the quoted detail.
    pub open spec fn debug(self) -> Seq<char> {
        match self {
            ErrorModel::Text(detail) => "Text("@ + debug_text(detail) + ")"@,
        }
    }
}

impl Error {
    /// Writes the debug form.
    pub fn debug_string(&self) -> (r: String)
        ensures
            r@ == self@.debug(),
    {
        match self {
            Error::Text(detail) => {
                let mut out = String::from_str("Text(");
                let quoted = debug_string(detail.as_str());
                out.append(quoted.as_str());
                out.append(")");
                out
            },
        }
    }
}

} // verus!
