use vstd::prelude::*;
use crate::error::ErrorModel;
use crate::http::exchange::{self, advance, Action, ActionModel, Event, Stage, Step};
use crate::http::gates::{self, GateResult, Gates};
use crate::http::worker::{Request, RequestModel, Response, ResponseModel, Status, Worker};
use crate::http::{context, Context};
use crate::origin::{self, AllowedOrigins};
use crate::{wire, Error, Origin};

verus! {

/// A TLS server configuration of `rustls`, carried through to the listener unread.
#[verifier::external_type_specification]
#[verifier::external_body]
pub struct ExServerConfig(rustls::ServerConfig);

/// An acceptor builder of `openssl`, carried through to the listener unread.
#[verifier::external_type_specification]
#[verifier::external_body]
pub struct ExSslAcceptorBuilder(openssl::ssl::SslAcceptorBuilder);

/// How the listener encrypts its connections.
pub enum Encryption {
    TLS(rustls::ServerConfig),
    SSL(openssl::ssl::SslAcceptorBuilder),
    /// No encryption.
    Plain,
}

/// What a handler returned, as a model.
pub open spec fn returned<G: Gates>(result: Result<G, Error>) -> Result<G::V, ErrorModel> {
    match result {
        Ok(gate) => Ok(gate@),
        Err(e) => Err(e@),
    }
}

/// Whether `pre` is what the worker's pre hook returned for the request.
pub open spec fn pre_hooked<W: Worker>(worker: W, request: RequestModel, pre: Result<
    Request,
    Error,
>) -> bool {
    exists|asked: Request|
        asked@ == request && #[trigger] W::middleware_pre.ensures((&worker, asked), pre)
}

/// Whether `due` is the pending response for a request that has passed the pre
/// hook: where the body holds a gate, the outcome of what the worker's handler returned
/// for that gate, and otherwise the failure body that says why it holds none.
pub open spec fn handled<W: Worker>(worker: W, passed: RequestModel, due: ResponseModel) -> bool {
    match gates::gate_of::<W::GReq>(passed.body) {
        Some(asked) => exists|gate: W::GReq, result: Result<W::GRes, Error>|
            gate@ == asked && #[trigger] W::process_request.ensures((&worker, gate), result)
                && due == exchange::pending::<W::GRes>(GateResult::<W::GRes>::of(returned(result))),
        None => due == exchange::pending::<W::GRes>(
            Err(exchange::undecoded(passed.body).message()),
        ),
    }
}

/// Whether `post` is what the worker's post hook returned for the pending response of
/// a request that has passed the pre hook.
pub open spec fn post_hooked<W: Worker>(worker: W, passed: RequestModel, post: Result<
    Response,
    Error,
>) -> bool {
    exists|due: Response|
        handled(worker, passed, due@) && #[trigger] W::middleware_post.ensures((&worker, due), post)
}

/// How an exchange ends, given what the worker's hooks and handler return.
///
/// A request that is not welcome ends at once with the answer of the first stage. Any
/// other request goes to the pre hook. If that fails, the exchange ends with a server
/// error. If it lets a request pass, the pending response of that request goes to the
/// post hook, and the exchange ends with what the post hook returns, or locked if it
/// fails.
pub open spec fn exchanged<W: Worker>(
    worker: W,
    registry: Option<Set<Seq<char>>>,
    request: RequestModel,
    reached: Stage,
    response: ResponseModel,
) -> bool {
    if !exchange::welcome(registry, request) {
        reached == Stage::Received && response == if request.peer_addr is None {
            exchange::no_peer()
        } else {
            exchange::rejected()
        }
    } else {
        exists|pre: Result<Request, Error>| #[trigger]
            pre_hooked(worker, request, pre) && match pre {
                Err(_) => reached == Stage::OriginChecked && response
                    == exchange::pre_hook_failed(),
                Ok(passed) => exists|post: Result<Response, Error>| #[trigger]
                    post_hooked(worker, passed@, post) && match post {
                        Err(_) => reached == Stage::Handled && response
                            == exchange::post_hook_failed(),
                        Ok(last) => reached == Stage::PostHooked && response == last@,
                    },
            }
    }
}

/// What holds between the moves of one exchange: the action that is due fits the stage
/// and what the worker has returned so far.
spec fn on_course<W: Worker>(
    worker: W,
    registry: Option<Set<Seq<char>>>,
    request: RequestModel,
    stage: Stage,
    action: ActionModel<<W::GReq as View>::V>,
) -> bool {
    match action {
        ActionModel::PreHook(passing) => stage == Stage::OriginChecked && exchange::welcome(
            registry,
            request,
        ) && passing == request,
        ActionModel::Handle(gate) => stage == Stage::PreHooked && exchange::welcome(
            registry,
            request,
        ) && exists|passed: Request| #[trigger]
            pre_hooked(worker, request, Ok(passed)) && gates::gate_of::<W::GReq>(
                passed@.body,
            ) == Some(gate),
        ActionModel::PostHook(due) => stage == Stage::Handled && exchange::welcome(
            registry,
            request,
        ) && exists|passed: Request| #[trigger]
            pre_hooked(worker, request, Ok(passed)) && handled(worker, passed@, due),
        ActionModel::Respond(response) => exchanged(worker, registry, request, stage, response),
    }
}

/// The route that a listener serves: the client's route behind a slash.
pub open spec fn route_path_of(internal: bool) -> Seq<char> {
    if internal {
        "/internal-request"@
    } else {
        "/request"@
    }
}

/// A service that is being configured. Nothing is bound before `run`.
pub struct Instance<W: Worker> {
    worker: W,
    internal: bool,
    allowed_origins: Option<Vec<Origin>>,
    encryption: Encryption,
    workers_count: usize,
}

/// What serves the connections of a running service: the worker, the registry as it
/// was when the service started, and the route.
pub struct Service<W: Worker> {
    worker: W,
    allowed_origins: Option<AllowedOrigins>,
    route_path: &'static str,
}

/// What `run` hands to the listener.
pub struct Launch<W: Worker> {
    pub service: Service<W>,
    /// The address to bind.
    pub ip: &'static str,
    /// The port to bind.
    pub port: u16,
    /// The number of workers, or `None` where the transport is to choose it.
    pub workers: Option<usize>,
    pub encryption: Encryption,
}

/// How an exchange ended.
pub struct Served {
    /// The last stage that the exchange completed.
    pub reached: Stage,
    pub response: Response,
}

impl<W: Worker> Instance<W> {
    /// The worker that the service is made for.
    pub closed spec fn spec_worker(&self) -> W {
        self.worker
    }

    /// Whether the service listens on the internal route.
    pub closed spec fn spec_internal(&self) -> bool {
        self.internal
    }

    /// The origins whose addresses are admitted, or `None` where every address is.
    pub closed spec fn spec_allowed_origins(&self) -> Option<Seq<Origin>> {
        match self.allowed_origins {
            Some(list) => Some(list@),
            None => None,
        }
    }

    /// How the listener is to encrypt.
    pub closed spec fn spec_encryption(&self) -> Encryption {
        self.encryption
    }

    /// The number of workers asked for; 0 leaves the choice to the transport.
    pub closed spec fn spec_workers_count(&self) -> usize {
        self.workers_count
    }

    /// A service for `worker`: every origin admitted, no encryption, the number of
    /// workers left to the transport, the route that of the contract which the worker
    /// names.
    pub fn new(worker: W) -> (r: Self)
        ensures
            r.spec_worker() == worker,
            exists|context: &Context<W::GReq, W::GRes>| #[trigger]
                W::context_ref.ensures((&worker,), context) && r.spec_internal()
                    == context.spec_internal(),
            r.spec_allowed_origins() is None,
            r.spec_encryption() is Plain,
            r.spec_workers_count() == 0,
    {
        let context = worker.context_ref();
        let internal = context.internal();
        assert(W::context_ref.ensures((&worker,), context));
        Self {
            internal,
            worker,
            allowed_origins: None,
            encryption: Encryption::Plain,
            workers_count: 0,
        }
    }

    /// Chooses how the listener encrypts.
    pub fn set_encryption(&mut self, enc: Encryption)
        ensures
            final(self).spec_encryption() == enc,
            final(self).spec_worker() == old(self).spec_worker(),
            final(self).spec_internal() == old(self).spec_internal(),
            final(self).spec_allowed_origins() == old(self).spec_allowed_origins(),
            final(self).spec_workers_count() == old(self).spec_workers_count(),
    {
        self.encryption = enc;
    }

    /// Chooses the number of workers; 0 leaves the choice to the transport.
    pub fn set_workers_count(&mut self, count: usize)
        ensures
            final(self).spec_workers_count() == count,
            final(self).spec_worker() == old(self).spec_worker(),
            final(self).spec_internal() == old(self).spec_internal(),
            final(self).spec_allowed_origins() == old(self).spec_allowed_origins(),
            final(self).spec_encryption() == old(self).spec_encryption(),
    {
        self.workers_count = count;
    }

    /// Admits callers from the addresses of these origins only.
    pub fn set_allowed_origins(&mut self, allowed_origins: Vec<Origin>)
        ensures
            final(self).spec_allowed_origins() == Some(allowed_origins@),
            final(self).spec_worker() == old(self).spec_worker(),
            final(self).spec_internal() == old(self).spec_internal(),
            final(self).spec_encryption() == old(self).spec_encryption(),
            final(self).spec_workers_count() == old(self).spec_workers_count(),
    {
        self.allowed_origins = Some(allowed_origins);
    }

    /// Prepares the service for its listener: the address and the port are those of the
    /// contract which the worker names, the registry is built from the origins
    /// configured so far, the route follows the visibility read by `new`, and a worker
    /// count of 0 becomes `None`.
    pub fn run(self) -> (r: Launch<W>)
        ensures
            exists|context: &Context<W::GReq, W::GRes>| #[trigger]
                W::context_ref.ensures((&self.spec_worker(),), context) && r.ip@
                    == context.spec_origin().spec_ip() && r.port
                    == context.spec_origin().spec_port(),
            r.workers == if self.spec_workers_count() == 0 {
                None
            } else {
                Some(self.spec_workers_count())
            },
            r.encryption == self.spec_encryption(),
            r.service.spec_worker() == self.spec_worker(),
            r.service.spec_route_path()@ == route_path_of(self.spec_internal()),
            r.service.spec_registry() == match self.spec_allowed_origins() {
                Some(list) => Some(origin::addresses(list)),
                None => None,
            },
    {
        let context = self.worker.context_ref();
        let origin = context.origin();
        let ip = origin.ip();
        let port = origin.port();
        assert(W::context_ref.ensures((&self.spec_worker(),), context) && ip@
            == context.spec_origin().spec_ip() && port == context.spec_origin().spec_port());
        let route_path = if self.internal {
            "/internal-request"
        } else {
            "/request"
        };
        let allowed_origins = match &self.allowed_origins {
            Some(list) => Some(AllowedOrigins::from(list)),
            None => None,
        };
        let workers = if self.workers_count != 0 {
            Some(self.workers_count)
        } else {
            None
        };
        Launch {
            service: Service { worker: self.worker, allowed_origins, route_path },
            ip,
            port,
            workers,
            encryption: self.encryption,
        }
    }
}

impl<W: Worker> Service<W> {
    /// The worker.
    pub closed spec fn spec_worker(&self) -> W {
        self.worker
    }

    /// The route that the listener serves, with its leading slash.
    pub closed spec fn spec_route_path(&self) -> &'static str {
        self.route_path
    }

    /// The admitted addresses, or `None` where every address is admitted.
    pub closed spec fn spec_registry(&self) -> Option<Set<Seq<char>>> {
        match self.allowed_origins {
            Some(addresses) => Some(addresses@),
            None => None,
        }
    }

    /// The worker.
    pub fn worker(&self) -> (r: &W)
        ensures
            *r == self.spec_worker(),
    {
        &self.worker
    }

    /// The route that the listener serves, with its leading slash.
    pub fn route_path(&self) -> (r: &'static str)
        ensures
            r == self.spec_route_path(),
    {
        self.route_path
    }

    /// Whether callers from `peer` are admitted.
    pub fn admits(&self, peer: &str) -> (r: bool)
        ensures
            r == exchange::admitted(self.spec_registry(), peer@),
    {
        match &self.allowed_origins {
            Some(addresses) => addresses.contains(peer),
            None => true,
        }
    }

    /// Makes the move of this service for an event at a stage.
    pub fn step(&self, stage: Stage, event: Event<W::GRes>) -> (r: Step<W::GReq>)
        ensures
            (r.stage, r.action@) == exchange::next::<W::GReq, W::GRes>(
                self.spec_registry(),
                stage,
                event@,
            ),
    {
        advance::<W::GReq, W::GRes>(&self.allowed_origins, stage, event)
    }

    /// Calls the handler with a request gate and wraps what it returns for the wire.
    pub fn processor(&self, data: W::GReq) -> (r: GateResult<W::GRes>)
        ensures
            exists|result: Result<W::GRes, Error>| #[trigger]
                W::process_request.ensures((&self.spec_worker(), data), result) && r@
                    == GateResult::<W::GRes>::of(returned(result)),
    {
        let ghost asked = data;
        let result = self.worker.process_request(data);
        let ghost got = result;
        let r = GateResult::from(result);
        assert(W::process_request.ensures((&self.spec_worker(), asked), got) && r@
            == GateResult::<W::GRes>::of(returned(got)));
        r
    }

    /// Serves one request from acceptance to response: makes the moves of the runtime in
    /// turn and calls the worker's hooks and handler where a move asks for it.
    ///
    /// What the worker returns decides how the exchange ends; `exchanged` says how.
    pub fn serve(&self, request: Request) -> (r: Served)
        ensures
            exchanged(
                self.spec_worker(),
                self.spec_registry(),
                request@,
                r.reached,
                r.response@,
            ),
    {
        let ghost worker = self.spec_worker();
        let ghost registry = self.spec_registry();
        let ghost asked = request@;
        let first = self.step(Stage::Received, Event::Accepted(request));
        let mut stage = first.stage;
        let mut action = first.action;
        loop
            invariant
                worker == self.spec_worker(),
                registry == self.spec_registry(),
                asked == request@,
                on_course(worker, registry, asked, stage, action@),
            decreases
                    2 * (5 - stage.rank()) + if action@ is Respond {
                        0nat
                    } else {
                        1nat
                    },
        {
            let step = match action {
                Action::Respond(response) => {
                    return Served { reached: stage, response };
                },
                Action::PreHook(passing) => {
                    let ghost sent = passing;
                    let pre = self.worker.middleware_pre(passing);
                    let ghost got = pre;
                    let step = self.step(stage, Event::PreHookReturned(pre));
                    proof {
                        assert(W::middleware_pre.ensures((&worker, sent), got));
                        assert(pre_hooked(worker, asked, got));
                        if let Ok(passed) = got {
                            if let ActionModel::PostHook(due) = step.action@ {
                                assert(handled(worker, passed@, due));
                            }
                        } else {
                            assert(exchanged(
                                worker,
                                registry,
                                asked,
                                step.stage,
                                exchange::pre_hook_failed(),
                            ));
                        }
                    }
                    step
                },
                Action::Handle(gate) => {
                    let ghost sent = gate;
                    let result = self.worker.process_request(gate);
                    let ghost got = result;
                    let step = self.step(stage, Event::HandlerReturned(result));
                    proof {
                        let passed = choose|passed: Request| #[trigger]
                            pre_hooked(worker, asked, Ok(passed))
                                && gates::gate_of::<W::GReq>(passed@.body) == Some(
                                sent@,
                            );
                        assert(W::process_request.ensures((&worker, sent), got));
                        assert(handled(worker, passed@, step.action@->PostHook_0));
                    }
                    step
                },
                Action::PostHook(pending) => {
                    let ghost sent = pending;
                    let post = self.worker.middleware_post(pending);
                    let ghost got = post;
                    let step = self.step(stage, Event::PostHookReturned(post));
                    proof {
                        let passed = choose|passed: Request| #[trigger]
                            pre_hooked(worker, asked, Ok(passed)) && handled(
                                worker,
                                passed@,
                                sent@,
                            );
                        assert(W::middleware_post.ensures((&worker, sent), got));
                        assert(post_hooked(worker, passed@, got));
                        assert(exchanged(
                            worker,
                            registry,
                            asked,
                            step.stage,
                            step.action@->Respond_0,
                        ));
                    }
                    step
                },
            };
            stage = step.stage;
            action = step.action;
        }
    }
}

/// A request that is not welcome is answered at the first stage, whatever the worker
/// is: a connection without a peer address with a server error, a caller whose address
/// the registry does not hold with a bad request.
pub proof fn unwelcome_request_is_answered_at_once<W: Worker>(
    worker: W,
    registry: Option<Set<Seq<char>>>,
    request: RequestModel,
    reached: Stage,
    response: ResponseModel,
)
    requires
        exchanged(worker, registry, request, reached, response),
        !exchange::welcome(registry, request),
    ensures
        reached == Stage::Received,
        request.peer_addr is None ==> response == exchange::no_peer(),
        request.peer_addr is Some ==> response == exchange::rejected() && response.status
            == Status::BadRequest,
{
}

/// With a worker whose pre hook never lets a request pass, every welcome request is
/// answered with a server error, and the exchange ends before the handler's stage.
pub proof fn failing_pre_hook_ends_with_server_error<W: Worker>(
    worker: W,
    registry: Option<Set<Seq<char>>>,
    request: RequestModel,
    reached: Stage,
    response: ResponseModel,
)
    requires
        exchanged(worker, registry, request, reached, response),
        exchange::welcome(registry, request),
        forall|asked: Request, pre: Result<Request, Error>| #[trigger]
            W::middleware_pre.ensures((&worker, asked), pre) ==> pre is Err,
    ensures
        reached == Stage::OriginChecked,
        response == exchange::pre_hook_failed(),
        response.status == Status::ServerError,
{
    let pre = choose|pre: Result<Request, Error>| #[trigger]
        pre_hooked(worker, request, pre) && match pre {
            Err(_) => reached == Stage::OriginChecked && response == exchange::pre_hook_failed(),
            Ok(passed) => exists|post: Result<Response, Error>| #[trigger]
                post_hooked(worker, passed@, post) && match post {
                    Err(_) => reached == Stage::Handled && response == exchange::post_hook_failed(),
                    Ok(last) => reached == Stage::PostHooked && response == last@,
                },
        };
    let asked = choose|asked: Request|
        asked@ == request && #[trigger] W::middleware_pre.ensures((&worker, asked), pre);
    assert(pre is Err);
}

/// With a worker whose post hook never lets a response pass, no exchange ends with the
/// handler's outcome: a request that passes the pre hook is answered with the locked
/// response, whose status is not the success status and whose body is the same whatever
/// the handler returned.
pub proof fn failing_post_hook_ends_locked<W: Worker>(
    worker: W,
    registry: Option<Set<Seq<char>>>,
    request: RequestModel,
    reached: Stage,
    response: ResponseModel,
)
    requires
        exchanged(worker, registry, request, reached, response),
        exchange::welcome(registry, request),
        forall|due: Response, post: Result<Response, Error>| #[trigger]
            W::middleware_post.ensures((&worker, due), post) ==> post is Err,
    ensures
        reached == Stage::OriginChecked || reached == Stage::Handled,
        reached == Stage::Handled ==> response == exchange::post_hook_failed() && response.status
            == Status::Locked,
        reached == Stage::OriginChecked ==> response == exchange::pre_hook_failed(),
        response.status != Status::Success,
{
    let pre = choose|pre: Result<Request, Error>| #[trigger]
        pre_hooked(worker, request, pre) && match pre {
            Err(_) => reached == Stage::OriginChecked && response == exchange::pre_hook_failed(),
            Ok(passed) => exists|post: Result<Response, Error>| #[trigger]
                post_hooked(worker, passed@, post) && match post {
                    Err(_) => reached == Stage::Handled && response == exchange::post_hook_failed(),
                    Ok(last) => reached == Stage::PostHooked && response == last@,
                },
        };
    if let Ok(passed) = pre {
        let post = choose|post: Result<Response, Error>| #[trigger]
            post_hooked(worker, passed@, post) && match post {
                Err(_) => reached == Stage::Handled && response == exchange::post_hook_failed(),
                Ok(last) => reached == Stage::PostHooked && response == last@,
            };
        let due = choose|due: Response|
            handled(worker, passed@, due@) && #[trigger] W::middleware_post.ensures(
                (&worker, due),
                post,
            );
        assert(post is Err);
    }
}

/// The address that a client posts to ends in the route that the listener of the same
/// contract serves.
pub proof fn client_reaches_listener(origin: Origin, internal: bool)
    ensures
        context::url_of(origin, internal) == "http://"@ + origin.spec_ip() + ":"@
            + context::decimal(origin.spec_port() as nat) + route_path_of(internal),
{
    reveal_strlit("/");
    reveal_strlit("request");
    reveal_strlit("internal-request");
    reveal_strlit("/request");
    reveal_strlit("/internal-request");
    let head = "http://"@ + origin.spec_ip() + ":"@ + context::decimal(
        origin.spec_port() as nat,
    );
    assert("/"@ + context::route_of(internal) =~= route_path_of(internal));
    assert(head + "/"@ + context::route_of(internal) =~= head + ("/"@
        + context::route_of(internal)));
}

} // verus!
