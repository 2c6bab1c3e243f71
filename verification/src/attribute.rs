use vstd::prelude::*;
use crate::wire::same_text;

verus! {

/// The transport that a service's entry point is set up for.
#[derive(Debug, Clone, Copy, PartialEq, Eq, Structural)]
pub enum Protocol {
    Http,
    Websocket,
}

/// The arguments of a service's entry point: `protocol = "http"` or
/// `protocol = "websocket"`.
#[derive(Debug, Clone, Copy, PartialEq, Eq, Structural)]
pub struct MainArgs {
    pub protocol: Protocol,
}

/// Why the arguments of an entry point were refused.
#[derive(Debug, Clone, Copy, PartialEq, Eq, Structural)]
pub enum ArgsError {
    /// The argument is not called `protocol`.
    ExpectedProtocol,
    /// The value names no protocol.
    UnknownProtocol,
}

/// The protocol that a name stands for.
pub open spec fn protocol_of(name: Seq<char>) -> Option<Protocol> {
    if name == "http"@ {
        Some(Protocol::Http)
    } else if name == "websocket"@ {
        Some(Protocol::Websocket)
    } else {
        None
    }
}

/// What the arguments `name = "value"` mean.
pub open spec fn args_of(name: Seq<char>, value: Seq<char>) -> Result<MainArgs, ArgsError> {
    if name != "protocol"@ {
        Err(ArgsError::ExpectedProtocol)
    } else {
        match protocol_of(value) {
            Some(protocol) => Ok(MainArgs { protocol }),
            None => Err(ArgsError::UnknownProtocol),
        }
    }
}

impl ArgsError {
    /// What to tell the author of the entry point.
    pub fn message(self) -> (r: &'static str)
        ensures
            self is ExpectedProtocol ==> r@ == "expected `protocol`"@,
            self is UnknownProtocol ==> r@ == "protocol must be `http` or `websocket`"@,
    {
        match self {
            ArgsError::ExpectedProtocol => "expected `protocol`",
            ArgsError::UnknownProtocol => "protocol must be `http` or `websocket`",
        }
    }
}

impl Protocol {
    /// Reads the name of a protocol.
    pub fn from_name(name: &str) -> (r: Option<Protocol>)
        ensures
            r == protocol_of(name@),
    {
        if same_text(name, "http") {
            Some(Protocol::Http)
        } else if same_text(name, "websocket") {
            Some(Protocol::Websocket)
        } else {
            None
        }
    }
}

impl MainArgs {
    /// Reads the arguments `name = "value"`: the name has to be `protocol`, the value the
    /// name of a protocol.
    pub fn parse(name: &str, value: &str) -> (r: Result<MainArgs, ArgsError>)
        ensures
            r == args_of(name@, value@),
    {
        if !same_text(name, "protocol") {
            return Err(ArgsError::ExpectedProtocol);
        }
        match Protocol::from_name(value) {
            Some(protocol) => Ok(MainArgs { protocol }),
            None => Err(ArgsError::UnknownProtocol),
        }
    }
}

} // verus!
