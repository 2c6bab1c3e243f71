use vstd::prelude::*;
use crate::http;
use crate::http::error::debug_string;

verus! {

/// What can go wrong for a service call, on the calling or on the serving side.
#[derive(Debug)]
pub enum ServiceError {
    /// The exchange took longer than the client allows.
    ServiceRequestTimeout,
    /// A body did not decode as the expected gates; the detail says why.
    JSONParseError(String),
    /// A body that names no gate the service knows.
    WrongGate,
}

/// The failure type shared by the client and the server path.
#[derive(Debug)]
pub enum Error {
    /// The HTTP transport failed; the detail is the transport's.
    Http(http::error::Error),
    /// The websocket transport failed.
    Websocket,
    /// A timeout, a body that did not decode, or a gate that is not served.
    Service(ServiceError),
    /// Anything else, with or without a detail.
    Custom(Option<String>),
}

/// The model of a `ServiceError`.
pub enum ServiceErrorModel {
    ServiceRequestTimeout,
    JSONParseError(Seq<char>),
    WrongGate,
}

/// The model of an `Error`.
pub enum ErrorModel {
    Http(http::error::ErrorModel),
    Websocket,
    Service(ServiceErrorModel),
    Custom(Option<Seq<char>>),
}

impl View for ServiceError {
    type V = ServiceErrorModel;

    open spec fn view(&self) -> ServiceErrorModel {
        match self {
            ServiceError::ServiceRequestTimeout => ServiceErrorModel::ServiceRequestTimeout,
            ServiceError::JSONParseError(detail) => ServiceErrorModel::JSONParseError(detail@),
            ServiceError::WrongGate => ServiceErrorModel::WrongGate,
        }
    }
}

impl View for Error {
    type V = ErrorModel;

    open spec fn view(&self) -> ErrorModel {
        match self {
            Error::Http(e) => ErrorModel::Http(e@),
            Error::Websocket => ErrorModel::Websocket,
            Error::Service(e) => ErrorModel::Service(e@),
            Error::Custom(Some(detail)) => ErrorModel::Custom(Some(detail@)),
            Error::Custom(None) => ErrorModel::Custom(None),
        }
    }
}

impl Clone for ServiceError {
    fn clone(&self) -> (r: Self)
        ensures
            r@ == self@,
    {
        match self {
            ServiceError::ServiceRequestTimeout => ServiceError::ServiceRequestTimeout,
            ServiceError::JSONParseError(detail) => ServiceError::JSONParseError(detail.clone()),
            ServiceError::WrongGate => ServiceError::WrongGate,
        }
    }
}

impl Clone for Error {
    fn clone(&self) -> (r: Self)
        ensures
            r@ == self@,
    {
        match self {
            Error::Http(e) => Error::Http(e.clone()),
            Error::Websocket => Error::Websocket,
            Error::Service(e) => Error::Service(e.clone()),
            Error::Custom(Some(detail)) => Error::Custom(Some(detail.clone())),
            Error::Custom(None) => Error::Custom(None),
        }
    }
}

impl ServiceErrorModel {
    /// The debug form: the variant name, around the quoted detail where there is one.
    pub open spec fn debug(self) -> Seq<char> {
        match self {
            ServiceErrorModel::ServiceRequestTimeout => "ServiceRequestTimeout"@,
            ServiceErrorModel::JSONParseError(detail) => "JSONParseError("@
                + http::error::debug_text(detail) + ")"@,
            ServiceErrorModel::WrongGate => "WrongGate"@,
        }
    }
}

impl ErrorModel {
    /// The string form of the error, the only part of it that may reach the wire.
    pub open spec fn message(self) -> Seq<char> {
        match self {
            ErrorModel::Http(e) => "Http error. "@ + e.debug(),
            ErrorModel::Websocket => "Websocket error."@,
            ErrorModel::Service(e) => "Service error. "@ + e.debug(),
            ErrorModel::Custom(Some(detail)) => "Custom Error. "@ + detail,
            ErrorModel::Custom(None) => "Custom Error. "@ + "empty"@,
        }
    }
}

impl ServiceError {
    /// Writes the debug form.
    pub fn debug_string(&self) -> (r: String)
        ensures
            r@ == self@.debug(),
    {
        match self {
            ServiceError::ServiceRequestTimeout => String::from_str("ServiceRequestTimeout"),
            ServiceError::JSONParseError(detail) => {
                let mut out = String::from_str("JSONParseError(");
                let quoted = debug_string(detail.as_str());
                out.append(quoted.as_str());
                out.append(")");
                out
            },
            ServiceError::WrongGate => String::from_str("WrongGate"),
        }
    }
}

impl Error {
    /// Writes the string form.
    pub fn to_string(&self) -> (r: String)
        ensures
            r@ == self@.message(),
    {
        match self {
            Error::Http(e) => {
                let mut out = String::from_str("Http error. ");
                let inner = e.debug_string();
                out.append(inner.as_str());
                out
            },
            Error::Websocket => String::from_str("Websocket error."),
            Error::Service(e) => {
                let mut out = String::from_str("Service error. ");
                let inner = e.debug_string();
                out.append(inner.as_str());
                out
            },
            Error::Custom(Some(detail)) => {
                let mut out = String::from_str("Custom Error. ");
                out.append(detail.as_str());
                out
            },
            Error::Custom(None) => {
                let mut out = String::from_str("Custom Error. ");
                out.append("empty");
                out
            },
        }
    }
}

} // verus!
