use vstd::prelude::*;
use crate::http::gates::Gates;
use crate::http::Context;
use crate::Error;

verus! {

/// The status classes that the runtime answers with.
#[derive(Debug, Clone, Copy, PartialEq, Eq, Structural)]
pub enum Status {
    /// The handler was reached; the body holds its outcome.
    Success,
    /// The caller's address is not admitted.
    BadRequest,
    /// The exchange failed before the handler was reached.
    ServerError,
    /// The post hook refused the response.
    Locked,
}

impl Status {
    /// The HTTP status code of the class.
    pub open spec fn spec_code(self) -> u16 {
        match self {
            Status::Success => 200,
            Status::BadRequest => 400,
            Status::ServerError => 500,
            Status::Locked => 423,
        }
    }

    /// The HTTP status code of the class.
    #[verifier::when_used_as_spec(spec_code)]
    pub fn code(self) -> (r: u16)
        ensures
            r == self.spec_code(),
    {
        match self {
            Status::Success => 200,
            Status::BadRequest => 400,
            Status::ServerError => 500,
            Status::Locked => 423,
        }
    }
}

/// An inbound request as the runtime and the hooks see it.
pub struct Request {
    /// The caller's address without the port, where the transport could tell it.
    pub peer_addr: Option<String>,
    pub body: String,
}

/// An outbound response as the runtime and the hooks see it.
pub struct Response {
    pub status: Status,
    pub body: String,
}

/// The model of a request.
pub struct RequestModel {
    pub peer_addr: Option<Seq<char>>,
    pub body: Seq<char>,
}

/// The model of a response.
pub struct ResponseModel {
    pub status: Status,
    pub body: Seq<char>,
}

impl View for Request {
    type V = RequestModel;

    open spec fn view(&self) -> RequestModel {
        RequestModel {
            peer_addr: match self.peer_addr {
                Some(peer) => Some(peer@),
                None => None,
            },
            body: self.body@,
        }
    }
}

impl View for Response {
    type V = ResponseModel;

    open spec fn view(&self) -> ResponseModel {
        ResponseModel { status: self.status, body: self.body@ }
    }
}

/// Lets a request pass unchanged: what a worker without a pre hook does.
pub fn pass_request(request: Request) -> (r: Result<Request, Error>)
    ensures
        r == Ok::<Request, Error>(request),
{
    Ok(request)
}

/// Lets a response pass unchanged: what a worker without a post hook does.
pub fn pass_response(response: Response) -> (r: Result<Response, Error>)
    ensures
        r == Ok::<Response, Error>(response),
{
    Ok(response)
}

/// The business logic of a service: a handler for the request gates of one contract,
/// and optionally a hook before and a hook after it.
///
/// One worker value serves every connection, so state that it changes must sit behind
/// a handle that its clones share.
pub trait Worker: Clone + Sync + Send {
    type GReq: Gates;

    type GRes: Gates;

    /// Handles one request gate. A gate that the worker does not serve is answered with
    /// `ServiceError::WrongGate`.
    fn process_request(&self, gates: Self::GReq) -> Result<Self::GRes, Error>;

    /// The contract that this worker serves. It has to be the same one at every call:
    /// the runtime reads the route when the service is made and the address when it
    /// starts, and does not compare the two.
    fn context_ref(&self) -> &Context<Self::GReq, Self::GRes>;

    /// Runs before the handler; an error ends the exchange. A worker that does not
    /// define the hook lets every request pass unchanged.
    fn middleware_pre(&self, request: Request) -> (r: Result<Request, Error>)
        default_ensures
            r == Ok::<Request, Error>(request),
    {
        pass_request(request)
    }

    /// Runs after the handler; an error replaces the response. A worker that does not
    /// define the hook lets every response pass unchanged.
    fn middleware_post(&self, response: Response) -> (r: Result<Response, Error>)
        default_ensures
            r == Ok::<Response, Error>(response),
    {
        pass_response(response)
    }
}

} // verus!
