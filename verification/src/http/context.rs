use std::marker::PhantomData;
use vstd::prelude::*;
use crate::error::{ErrorModel, ServiceError, ServiceErrorModel};
use crate::http::gates::{self, decode, encode, Gates, Undecoded};
use crate::{http, wire, Error, Origin};

verus! {

/// The time, in milliseconds, that one whole exchange with an origin may take.
pub const SERVICE_REQUEST_TIMEOUT: u64 = 5000;

/// A contract: the gates that go to a service, the gates that come back, where the
/// service is, and whether it is reached over the internal route.
pub struct Context<GReq: Gates, GRes: Gates> {
    pub(crate) origin: Origin,
    pub(crate) phantom: PhantomData<(GReq, GRes)>,
    pub(crate) internal: bool,
}

/// What a client hands to its transport: one POST, described in full.
pub struct Call {
    pub url: String,
    pub body: String,
    /// Milliseconds after which the transport gives up.
    pub timeout: u64,
}

/// What came of the one attempt to reach the origin.
pub enum Exchange {
    /// The exchange did not finish in time.
    TimedOut,
    /// The transport failed in some other way and said how.
    Failed(String),
    /// The origin answered with this body.
    Answered(String),
}

/// The decimal digit for a number below ten.
pub open spec fn digit(d: nat) -> char {
    if d == 0 {
        '0'
    } else if d == 1 {
        '1'
    } else if d == 2 {
        '2'
    } else if d == 3 {
        '3'
    } else if d == 4 {
        '4'
    } else if d == 5 {
        '5'
    } else if d == 6 {
        '6'
    } else if d == 7 {
        '7'
    } else if d == 8 {
        '8'
    } else {
        '9'
    }
}

/// A number in decimal, without sign or leading zeros.
pub open spec fn decimal(n: nat) -> Seq<char>
    decreases n,
{
    if n < 10 {
        seq![digit(n)]
    } else {
        decimal(n / 10).push(digit(n % 10))
    }
}

/// The route of a contract: `internal-request` for an internal one, `request` otherwise.
pub open spec fn route_of(internal: bool) -> Seq<char> {
    if internal {
        "internal-request"@
    } else {
        "request"@
    }
}

/// The address that requests under a contract are posted to.
pub open spec fn url_of(origin: Origin, internal: bool) -> Seq<char> {
    "http://"@ + origin.spec_ip() + ":"@ + decimal(origin.spec_port() as nat) + "/"@ + route_of(
        internal,
    )
}

/// What a failed decoding of a response reports when the body is an object but not one
/// of the expected gates.
pub open spec fn mismatch() -> Seq<char> {
    "body does not match the expected gates"@
}

fn digit_str(d: u16) -> (r: &'static str)
    requires
        d < 10,
    ensures
        r@ == seq![digit(d as nat)],
{
    let r = if d == 0 {
        "0"
    } else if d == 1 {
        "1"
    } else if d == 2 {
        "2"
    } else if d == 3 {
        "3"
    } else if d == 4 {
        "4"
    } else if d == 5 {
        "5"
    } else if d == 6 {
        "6"
    } else if d == 7 {
        "7"
    } else if d == 8 {
        "8"
    } else {
        "9"
    };
    proof {
        reveal_strlit("0");
        reveal_strlit("1");
        reveal_strlit("2");
        reveal_strlit("3");
        reveal_strlit("4");
        reveal_strlit("5");
        reveal_strlit("6");
        reveal_strlit("7");
        reveal_strlit("8");
        reveal_strlit("9");
        assert(r@ =~= seq![digit(d as nat)]);
    }
    r
}

/// Appends a number in decimal.
pub fn push_decimal(out: &mut String, n: u16)
    ensures
        final(out)@ == old(out)@ + decimal(n as nat),
    decreases n,
{
    if n >= 10 {
        push_decimal(out, n / 10);
    }
    out.append(digit_str(n % 10));
    assert(out@ =~= old(out)@ + decimal(n as nat));
}

impl<GReq: Gates, GRes: Gates> Context<GReq, GRes> {
    /// Where the service is, as a model value.
    pub closed spec fn spec_origin(&self) -> Origin {
        self.origin
    }

    /// Whether the contract is internal, as a model value.
    pub closed spec fn spec_internal(&self) -> bool {
        self.internal
    }

    /// The contract with the service at `origin`.
    pub fn new(origin: Origin, internal: bool) -> (r: Self)
        ensures
            r.spec_origin() == origin,
            r.spec_internal() == internal,
    {
        Self { origin, phantom: PhantomData, internal }
    }

    /// Where the service is.
    pub fn origin(&self) -> (r: &Origin)
        ensures
            *r == self.spec_origin(),
    {
        &self.origin
    }

    /// Whether the service is reached over the internal route.
    pub fn internal(&self) -> (r: bool)
        ensures
            r == self.spec_internal(),
    {
        self.internal
    }

    /// The last segment of the path that requests are posted to.
    pub fn route(&self) -> (r: &'static str)
        ensures
            r@ == route_of(self.spec_internal()),
    {
        if self.internal {
            "internal-request"
        } else {
            "request"
        }
    }

    /// The address that requests are posted to.
    pub fn url(&self) -> (r: String)
        ensures
            r@ == url_of(self.spec_origin(), self.spec_internal()),
    {
        let mut out = String::from_str("http://");
        out.append(self.origin.ip());
        out.append(":");
        push_decimal(&mut out, self.origin.port());
        out.append("/");
        out.append(self.route());
        assert(out@ =~= url_of(self.spec_origin(), self.spec_internal()));
        out
    }

    /// The call that sends `gate` under this contract.
    pub open spec fn call_for(&self, gate: GReq::V, call: Call) -> bool {
        &&& call.url@ == url_of(self.spec_origin(), self.spec_internal())
        &&& call.body@ == gates::body_of::<GReq>(gate)
        &&& call.timeout == SERVICE_REQUEST_TIMEOUT
    }

    /// Whether a call goes to this contract's address with the fixed timeout.
    pub open spec fn addressed(&self, call: Call) -> bool {
        &&& call.url@ == url_of(self.spec_origin(), self.spec_internal())
        &&& call.timeout == SERVICE_REQUEST_TIMEOUT
    }

    /// What a request returns for each way the exchange can end.
    pub open spec fn resolved(exchange: Exchange, r: Result<GRes, Error>) -> bool {
        match exchange {
            Exchange::TimedOut => r matches Err(e) && e@ == ErrorModel::Service(
                ServiceErrorModel::ServiceRequestTimeout,
            ),
            Exchange::Failed(detail) => r matches Err(e) && e@ == ErrorModel::Http(
                http::error::ErrorModel::Text(detail@),
            ),
            Exchange::Answered(body) => match gates::gate_of::<GRes>(body@) {
                Some(gate) => r matches Ok(found) && found@ == gate,
                None => r matches Err(e) && e@ == ErrorModel::Service(
                    ServiceErrorModel::JSONParseError(
                        match wire::json_object(body@) {
                            Ok(_) => mismatch(),
                            Err(complaint) => complaint,
                        },
                    ),
                ),
            },
        }
    }

    /// Turns the end of an exchange into the result of the request: a timeout and any
    /// other transport failure into their errors, an answer into its gate or
    /// into the error that says why it holds none.
    pub fn resolve(exchange: Exchange) -> (r: Result<GRes, Error>)
        ensures
            Self::resolved(exchange, r),
    {
        match exchange {
            Exchange::TimedOut => Err(Error::Service(ServiceError::ServiceRequestTimeout)),
            Exchange::Failed(detail) => Err(Error::Http(http::error::Error::Text(detail))),
            Exchange::Answered(body) => match decode::<GRes>(body.as_str()) {
                Ok(gate) => Ok(gate),
                Err(Undecoded::Malformed(detail)) => Err(
                    Error::Service(ServiceError::JSONParseError(detail)),
                ),
                Err(Undecoded::Unrecognized) => Err(
                    Error::Service(
                        ServiceError::JSONParseError(
                            String::from_str("body does not match the expected gates"),
                        ),
                    ),
                ),
            },
        }
    }

    /// The one call that sends `gate` under this contract.
    pub fn prepare(&self, gate: &GReq) -> (r: Call)
        ensures
            self.call_for(gate@, r),
    {
        Call { url: self.url(), body: encode(gate), timeout: SERVICE_REQUEST_TIMEOUT }
    }

    /// Sends `gate` to the service and returns its answer. The transport is called once,
    /// with the one call that this contract and `gate` determine; what it reports
    /// decides the result as `resolved` says.
    pub fn request<F: FnOnce(Call) -> Exchange>(&self, transport: F, gate: GReq) -> (r: Result<
        GRes,
        Error,
    >)
        requires
            forall|call: Call| self.addressed(call) ==> transport.requires((call,)),
        ensures
            exists|call: Call, exchange: Exchange|
                self.call_for(gate@, call) && #[trigger] transport.ensures((call,), exchange)
                    && Self::resolved(exchange, r),
    {
        let call = self.prepare(&gate);
        let ghost sent = call;
        assert(self.addressed(call));
        let exchange = transport(call);
        let r = Self::resolve(exchange);
        assert(self.call_for(gate@, sent) && transport.ensures((sent,), exchange) && Self::resolved(
            exchange,
            r,
        ));
        r
    }
}

} // verus!
