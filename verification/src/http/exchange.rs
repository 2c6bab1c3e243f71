use vstd::prelude::*;
use crate::error::{ErrorModel, ServiceError, ServiceErrorModel};
use crate::http::gates::{self, decode, GateErrorResponse, GateResult, Gates, Undecoded};
use crate::http::worker::{Request, RequestModel, Response, ResponseModel, Status};
use crate::origin::AllowedOrigins;
use crate::{wire, Error};

verus! {

/// How far an exchange has come. The stages are passed in this order and none twice.
#[derive(Debug, Clone, Copy, PartialEq, Eq, Structural)]
pub enum Stage {
    /// The connection was accepted.
    Received,
    /// The caller's address is known and admitted.
    OriginChecked,
    /// The pre hook let the request pass.
    PreHooked,
    /// The handler's outcome, or the reason why it was not called, is the pending response.
    Handled,
    /// The post hook let the response pass.
    PostHooked,
    /// The response was returned; nothing follows. An exchange is here once the response
    /// of its last move has been sent: no move leads here by itself.
    Responded,
}

impl Stage {
    /// The position of the stage in the order of an exchange.
    pub open spec fn rank(self) -> nat {
        match self {
            Stage::Received => 0,
            Stage::OriginChecked => 1,
            Stage::PreHooked => 2,
            Stage::Handled => 3,
            Stage::PostHooked => 4,
            Stage::Responded => 5,
        }
    }
}

/// What the environment of the runtime reports to it.
pub enum Event<GRes: Gates> {
    /// A connection was accepted and this request read from it.
    Accepted(Request),
    /// The pre hook returned.
    PreHookReturned(Result<Request, Error>),
    /// The handler returned.
    HandlerReturned(Result<GRes, Error>),
    /// The post hook returned.
    PostHookReturned(Result<Response, Error>),
}

/// What the runtime asks its environment to do next.
pub enum Action<GReq: Gates> {
    /// Run the pre hook on this request and report what it returned.
    PreHook(Request),
    /// Call the handler with this gate and report what it returned.
    Handle(GReq),
    /// Run the post hook on this response and report what it returned.
    PostHook(Response),
    /// Return this response; the exchange is over.
    Respond(Response),
}

/// The model of an event. Of a failed hook only the failure itself counts.
pub enum EventModel<V> {
    Accepted(RequestModel),
    PreHookReturned(Option<RequestModel>),
    HandlerReturned(Result<V, ErrorModel>),
    PostHookReturned(Option<ResponseModel>),
}

/// The model of an action.
pub enum ActionModel<V> {
    PreHook(RequestModel),
    Handle(V),
    PostHook(ResponseModel),
    Respond(ResponseModel),
}

impl<GRes: Gates> View for Event<GRes> {
    type V = EventModel<GRes::V>;

    open spec fn view(&self) -> EventModel<GRes::V> {
        match self {
            Event::Accepted(request) => EventModel::Accepted(request@),
            Event::PreHookReturned(Ok(request)) => EventModel::PreHookReturned(Some(request@)),
            Event::PreHookReturned(Err(_)) => EventModel::PreHookReturned(None),
            Event::HandlerReturned(Ok(gate)) => EventModel::HandlerReturned(Ok(gate@)),
            Event::HandlerReturned(Err(e)) => EventModel::HandlerReturned(Err(e@)),
            Event::PostHookReturned(Ok(response)) => EventModel::PostHookReturned(Some(response@)),
            Event::PostHookReturned(Err(_)) => EventModel::PostHookReturned(None),
        }
    }
}

impl<GReq: Gates> View for Action<GReq> {
    type V = ActionModel<GReq::V>;

    open spec fn view(&self) -> ActionModel<GReq::V> {
        match self {
            Action::PreHook(request) => ActionModel::PreHook(request@),
            Action::Handle(gate) => ActionModel::Handle(gate@),
            Action::PostHook(response) => ActionModel::PostHook(response@),
            Action::Respond(response) => ActionModel::Respond(response@),
        }
    }
}

/// One move of the runtime: the last stage that the exchange has completed, and what
/// is to be done next.
pub struct Step<GReq: Gates> {
    pub stage: Stage,
    pub action: Action<GReq>,
}

/// The answer to a connection whose peer address cannot be told.
pub open spec fn no_peer() -> ResponseModel {
    ResponseModel { status: Status::ServerError, body: "No peer adress"@ }
}

/// The answer to a caller whose address is not admitted.
pub open spec fn rejected() -> ResponseModel {
    ResponseModel { status: Status::BadRequest, body: ""@ }
}

/// The answer when the pre hook fails.
pub open spec fn pre_hook_failed() -> ResponseModel {
    ResponseModel { status: Status::ServerError, body: "Worker pre middleware"@ }
}

/// The answer when the post hook fails.
pub open spec fn post_hook_failed() -> ResponseModel {
    ResponseModel { status: Status::Locked, body: "Worker post middleware"@ }
}

/// The answer to an event that the stage of the exchange does not wait for.
pub open spec fn out_of_turn() -> ResponseModel {
    ResponseModel { status: Status::ServerError, body: "Data error"@ }
}

/// Whether a registry admits an address; without a registry every address is admitted.
pub open spec fn admitted(registry: Option<Set<Seq<char>>>, peer: Seq<char>) -> bool {
    match registry {
        Some(addresses) => addresses.contains(peer),
        None => true,
    }
}

/// The pending response for an outcome of the handler stage: success status, and as
/// body the response gate or the failure body.
pub open spec fn pending<GRes: Gates>(outcome: Result<GRes::V, Seq<char>>) -> ResponseModel {
    ResponseModel {
        status: Status::Success,
        body: wire::json_text(GateResult::<GRes>::wire(outcome)),
    }
}

/// What the handler stage makes of a request body that is no gate: a body that is no
/// object is a parse failure, an object that names no known gate is a wrong gate.
pub open spec fn undecoded(body: Seq<char>) -> ErrorModel {
    match wire::json_object(body) {
        Ok(_) => ErrorModel::Service(ServiceErrorModel::WrongGate),
        Err(complaint) => ErrorModel::Service(ServiceErrorModel::JSONParseError(complaint)),
    }
}

/// The move of the runtime for an event at a stage.
pub open spec fn next<GReq: Gates, GRes: Gates>(
    registry: Option<Set<Seq<char>>>,
    stage: Stage,
    event: EventModel<GRes::V>,
) -> (Stage, ActionModel<GReq::V>) {
    match (stage, event) {
        (Stage::Received, EventModel::Accepted(request)) => match request.peer_addr {
            None => (Stage::Received, ActionModel::Respond(no_peer())),
            Some(peer) => if admitted(registry, peer) {
                (Stage::OriginChecked, ActionModel::PreHook(request))
            } else {
                (Stage::Received, ActionModel::Respond(rejected()))
            },
        },
        (Stage::OriginChecked, EventModel::PreHookReturned(Some(request))) => match gates::gate_of::<
            GReq,
        >(request.body) {
            Some(gate) => (Stage::PreHooked, ActionModel::Handle(gate)),
            None => (
                Stage::Handled,
                ActionModel::PostHook(pending::<GRes>(Err(undecoded(request.body).message()))),
            ),
        },
        (Stage::OriginChecked, EventModel::PreHookReturned(None)) => (
            Stage::OriginChecked,
            ActionModel::Respond(pre_hook_failed()),
        ),
        (Stage::PreHooked, EventModel::HandlerReturned(result)) => (
            Stage::Handled,
            ActionModel::PostHook(pending::<GRes>(GateResult::<GRes>::of(result))),
        ),
        (Stage::Handled, EventModel::PostHookReturned(Some(response))) => (
            Stage::PostHooked,
            ActionModel::Respond(response),
        ),
        (Stage::Handled, EventModel::PostHookReturned(None)) => (
            Stage::Handled,
            ActionModel::Respond(post_hook_failed()),
        ),
        _ => (stage, ActionModel::Respond(out_of_turn())),
    }
}

fn respond<GReq: Gates>(stage: Stage, status: Status, body: &str) -> (r: Step<GReq>)
    ensures
        r.stage == stage,
        r.action@ == ActionModel::<GReq::V>::Respond(ResponseModel { status, body: body@ }),
{
    Step { stage, action: Action::Respond(Response { status, body: String::from_str(body) }) }
}

fn post_hook<GReq: Gates, GRes: Gates>(outcome: GateResult<GRes>) -> (r: Step<GReq>)
    ensures
        r.stage == Stage::Handled,
        r.action@ == ActionModel::<GReq::V>::PostHook(pending::<GRes>(outcome@)),
{
    Step {
        stage: Stage::Handled,
        action: Action::PostHook(Response { status: Status::Success, body: outcome.serialize() }),
    }
}

/// Makes the move of the runtime for an event at a stage.
///
/// The registry decides at the first stage only. Decoding the request body is part of
/// the move that follows the pre hook: a body that holds no gate goes to the post hook
/// as a failure body without the handler being asked for.
pub fn advance<GReq: Gates, GRes: Gates>(
    registry: &Option<AllowedOrigins>,
    stage: Stage,
    event: Event<GRes>,
) -> (r: Step<GReq>)
    ensures
        (r.stage, r.action@) == next::<GReq, GRes>(
            match registry {
                Some(addresses) => Some(addresses@),
                None => None,
            },
            stage,
            event@,
        ),
{
    match (stage, event) {
        (Stage::Received, Event::Accepted(request)) => {
            let allowed = match &request.peer_addr {
                None => None,
                Some(peer) => Some(
                    match registry {
                        Some(addresses) => addresses.contains(peer.as_str()),
                        None => true,
                    },
                ),
            };
            match allowed {
                None => respond(Stage::Received, Status::ServerError, "No peer adress"),
                Some(true) => Step {
                    stage: Stage::OriginChecked,
                    action: Action::PreHook(request),
                },
                Some(false) => respond(Stage::Received, Status::BadRequest, ""),
            }
        },
        (Stage::OriginChecked, Event::PreHookReturned(Ok(request))) => {
            match decode::<GReq>(request.body.as_str()) {
                Ok(gate) => Step { stage: Stage::PreHooked, action: Action::Handle(gate) },
                Err(Undecoded::Malformed(detail)) => post_hook::<GReq, GRes>(
                    GateResult::from(Err(Error::Service(ServiceError::JSONParseError(detail)))),
                ),
                Err(Undecoded::Unrecognized) => post_hook::<GReq, GRes>(
                    GateResult::from(Err(Error::Service(ServiceError::WrongGate))),
                ),
            }
        },
        (Stage::OriginChecked, Event::PreHookReturned(Err(_))) => respond(
            Stage::OriginChecked,
            Status::ServerError,
            "Worker pre middleware",
        ),
        (Stage::PreHooked, Event::HandlerReturned(result)) => post_hook::<GReq, GRes>(
            GateResult::from(result),
        ),
        (Stage::Handled, Event::PostHookReturned(Ok(response))) => Step {
            stage: Stage::PostHooked,
            action: Action::Respond(response),
        },
        (Stage::Handled, Event::PostHookReturned(Err(_))) => respond(
            Stage::Handled,
            Status::Locked,
            "Worker post middleware",
        ),
        (stage, _) => respond(stage, Status::ServerError, "Data error"),
    }
}

/// Whether a request comes from an address that the registry admits.
pub open spec fn welcome(registry: Option<Set<Seq<char>>>, request: RequestModel) -> bool {
    request.peer_addr matches Some(peer) && admitted(registry, peer)
}

/// An exchange never goes back: a move leaves the stage where it is only together with
/// the response that ends the exchange, and otherwise takes it forward.
pub proof fn stages_in_order<GReq: Gates, GRes: Gates>(
    registry: Option<Set<Seq<char>>>,
    stage: Stage,
    event: EventModel<GRes::V>,
)
    ensures
        ({
            let (after, action) = next::<GReq, GRes>(registry, stage, event);
            &&& after.rank() >= stage.rank()
            &&& action !is Respond ==> after.rank() > stage.rank()
            &&& after == stage ==> action is Respond
        }),
{
}

/// The handler is asked for in one situation only: the pre hook has let a request from
/// an admitted origin pass, and the body of that request holds a gate.
pub proof fn handler_follows_pre_hook<GReq: Gates, GRes: Gates>(
    registry: Option<Set<Seq<char>>>,
    stage: Stage,
    event: EventModel<GRes::V>,
)
    requires
        next::<GReq, GRes>(registry, stage, event).1 is Handle,
    ensures
        stage == Stage::OriginChecked,
        event matches EventModel::PreHookReturned(Some(request)) && gates::gate_of::<GReq>(request.body)
            == Some(next::<GReq, GRes>(registry, stage, event).1->Handle_0),
{
}

/// A caller whose address the registry does not hold is answered with a bad request at
/// once: no hook and no handler is asked for.
pub proof fn unlisted_origin_is_rejected<GReq: Gates, GRes: Gates>(
    addresses: Set<Seq<char>>,
    request: RequestModel,
)
    requires
        request.peer_addr matches Some(peer) && !addresses.contains(peer),
    ensures
        next::<GReq, GRes>(Some(addresses), Stage::Received, EventModel::Accepted(request)) == (
            Stage::Received,
            ActionModel::<GReq::V>::Respond(rejected()),
        ),
        rejected().status == Status::BadRequest,
{
}

/// When the pre hook fails the exchange ends with a server error, whatever the hook's
/// error was and whatever the request held.
pub proof fn failed_pre_hook_ends_exchange<GReq: Gates, GRes: Gates>(
    registry: Option<Set<Seq<char>>>,
)
    ensures
        next::<GReq, GRes>(registry, Stage::OriginChecked, EventModel::PreHookReturned(None)) == (
            Stage::OriginChecked,
            ActionModel::<GReq::V>::Respond(pre_hook_failed()),
        ),
        pre_hook_failed().status == Status::ServerError,
{
}

/// A failure of the handler does not end the exchange: it goes to the post hook as a
/// failure body under the success status, and so does a request body that holds no gate.
pub proof fn handler_failure_is_enveloped<GReq: Gates, GRes: Gates>(
    registry: Option<Set<Seq<char>>>,
    e: ErrorModel,
    request: RequestModel,
)
    ensures
        next::<GReq, GRes>(registry, Stage::PreHooked, EventModel::HandlerReturned(Err(e))) == (
            Stage::Handled,
            ActionModel::<GReq::V>::PostHook(
                ResponseModel {
                    status: Status::Success,
                    body: wire::json_text(GateErrorResponse::wire(e.message())),
                },
            ),
        ),
        gates::gate_of::<GReq>(request.body) is None ==> next::<GReq, GRes>(
            registry,
            Stage::OriginChecked,
            EventModel::PreHookReturned(Some(request)),
        ) == (
            Stage::Handled,
            ActionModel::<GReq::V>::PostHook(
                ResponseModel {
                    status: Status::Success,
                    body: wire::json_text(
                        GateErrorResponse::wire(undecoded(request.body).message()),
                    ),
                },
            ),
        ),
{
}

/// When the post hook fails the final response is the locked one: its status is not the
/// handler's success status and its body holds nothing of the pending response.
pub proof fn failed_post_hook_discards_response<GReq: Gates, GRes: Gates>(
    registry: Option<Set<Seq<char>>>,
)
    ensures
        next::<GReq, GRes>(registry, Stage::Handled, EventModel::PostHookReturned(None)) == (
            Stage::Handled,
            ActionModel::<GReq::V>::Respond(post_hook_failed()),
        ),
        post_hook_failed().status == Status::Locked,
        post_hook_failed().status != Status::Success,
{
}

} // verus!
