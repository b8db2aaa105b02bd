use vstd::prelude::*;
use vstd::string::StringExecFns;
use crate::config::{Config, ConfigView, updated};
use crate::dispatch::{Dispatcher, first_claim};
use crate::protocol::{
    IdView, Message, Notification, Outcome, Request, RequestId, Response, ResponseError, INTERNAL_ERROR, INVALID_PARAMS,
    INVALID_REQUEST, exit_method, exit_name, internal_error_code, invalid_params_code,
    invalid_request_code, shutdown_method, shutdown_name,
};
use crate::registry::{PendingView, Registry};

verus! {

/// What the server state is, as mathematical values.
pub struct ServerView<C, O> {
    pub config: ConfigView<C, O>,
    pub pending: Map<IdView, PendingView>,
    pub shutdown_requested: bool,
}

/// The state that the message loop owns: the configuration, the requests
/// that are outstanding, and whether shutdown was requested.
pub struct ServerState<C, O> {
    config: Config<C, O>,
    registry: Registry,
    shutdown_requested: bool,
}

/// What the loop does next with a message.
pub enum Step<P> {
    /// Stop the loop: the exit notification arrived.
    Exit,
    /// Send this response; no handler runs.
    Reply(Response<P>),
    /// Decode `params` for request registration `handler`, run it, and hand
    /// its result to `finish_request`.
    RunRequest { handler: usize, id: RequestId, params: P },
    /// Decode the params of shutdown request `id` and hand the outcome to
    /// `finish_shutdown`.
    RunShutdown { id: RequestId, params: P },
    /// Decode `params` for notification registration `handler` and run it.
    RunNotification { handler: usize, params: P },
    /// Nothing to do: no registration claimed the message, or it was a
    /// response.
    Done,
}

/// The kind of failure that a request handler reports.
pub enum FailureKind {
    /// The request cannot be served as it was asked.
    BadRequest,
    /// The server failed.
    Internal,
}

/// What came of a request handler's run.
pub enum HandlerResult<P> {
    /// The handler's output.
    Done(P),
    /// The params did not decode into the handler's input; the handler did
    /// not run.
    Undecodable { diagnostic: String, params: P },
    /// The handler ran and failed.
    Failed { kind: FailureKind, message: String },
}

/// Whether the params of a request decoded into its handler's input.
pub enum Decoding<P> {
    Decoded,
    Undecodable { diagnostic: String, params: P },
}

/// The message of the error that answers a request after shutdown.
pub open spec fn shutdown_rejection() -> Seq<char> {
    "Shutdown already requested"@
}

/// `resp` answers request `id` with the error that follows a shutdown.
pub open spec fn is_rejected_after_shutdown<P>(resp: Response<P>, id: RequestId) -> bool {
    &&& resp.id == id
    &&& match resp.outcome {
        Outcome::Error(e) => e.code == INVALID_REQUEST && e.message@ == shutdown_rejection()
            && e.data is None,
        _ => false,
    }
}

/// The response to request `id` once its handler's run gave `result`.
pub open spec fn answer<P>(id: RequestId, result: HandlerResult<P>) -> Response<P> {
    Response {
        id,
        outcome: match result {
            HandlerResult::Done(v) => Outcome::Value(v),
            HandlerResult::Undecodable { diagnostic, params } => Outcome::Error(
                ResponseError { code: INVALID_PARAMS, message: diagnostic, data: Some(params) },
            ),
            HandlerResult::Failed { kind, message } => Outcome::Error(
                ResponseError {
                    code: match kind {
                        FailureKind::BadRequest => INVALID_REQUEST,
                        FailureKind::Internal => INTERNAL_ERROR,
                    },
                    message,
                    data: None,
                },
            ),
        },
    }
}

/// The state with the entry of `id` taken out of the registry.
pub open spec fn without_pending<C, O>(s: ServerView<C, O>, id: IdView) -> ServerView<C, O> {
    ServerView { pending: s.pending.remove(id), ..s }
}

/// The state once shutdown request `id` has been answered: the flag is set
/// only where its params decoded.
pub open spec fn after_shutdown<C, O, P>(s: ServerView<C, O>, id: IdView, d: Decoding<P>) -> ServerView<C, O> {
    match d {
        Decoding::Decoded => ServerView { shutdown_requested: true, ..without_pending(s, id) },
        Decoding::Undecodable { .. } => without_pending(s, id),
    }
}

/// The response to shutdown request `id`: the null result where its params
/// decoded, the InvalidParams error where they did not.
pub open spec fn shutdown_answer<P>(id: RequestId, d: Decoding<P>) -> Response<P> {
    match d {
        Decoding::Decoded => Response { id, outcome: Outcome::Null },
        Decoding::Undecodable { diagnostic, params } => answer(
            id,
            HandlerResult::Undecodable { diagnostic, params },
        ),
    }
}

/// How `handle` takes a request `q` in state `s0` to state `s1` and step `r`.
pub open spec fn request_post<C, O, P>(
    s0: ServerView<C, O>,
    q: Request<P>,
    now: u64,
    requests: Seq<Seq<char>>,
    s1: ServerView<C, O>,
    r: Step<P>,
) -> bool {
    if q.method@ == shutdown_name() {
        &&& s1 == ServerView {
            pending: s0.pending.insert(q.id@, PendingView { method: q.method@, started: now }),
            ..s0
        }
        &&& r == Step::RunShutdown { id: q.id, params: q.params }
    } else if s0.shutdown_requested {
        &&& s1 == without_pending(s0, q.id@)
        &&& r matches Step::Reply(resp) && is_rejected_after_shutdown(resp, q.id)
    } else {
        match first_claim(requests, q.method@) {
            Some(i) => {
                &&& s1 == ServerView {
                    pending: s0.pending.insert(q.id@, PendingView { method: q.method@, started: now }),
                    ..s0
                }
                &&& r == Step::RunRequest { handler: i as usize, id: q.id, params: q.params }
            },
            None => {
                &&& s1 == without_pending(s0, q.id@)
                &&& r is Done
            },
        }
    }
}

/// How `handle` takes message `msg` in state `s0` to state `s1` and step `r`.
pub open spec fn handle_post<C, O, P>(
    s0: ServerView<C, O>,
    msg: Message<P>,
    now: u64,
    requests: Seq<Seq<char>>,
    notifications: Seq<Seq<char>>,
    s1: ServerView<C, O>,
    r: Step<P>,
) -> bool {
    match msg {
        Message::Request(q) => request_post(s0, q, now, requests, s1, r),
        Message::Notification(n) => {
            &&& s1 == s0
            &&& if n.method@ == exit_name() {
                r is Exit
            } else {
                match first_claim(notifications, n.method@) {
                    Some(i) => r == Step::RunNotification { handler: i as usize, params: n.params },
                    None => r is Done,
                }
            }
        },
        Message::Response(_) => s1 == s0 && r is Done,
    }
}

impl<C, O> View for ServerState<C, O> {
    type V = ServerView<C, O>;

    closed spec fn view(&self) -> ServerView<C, O> {
        ServerView {
            config: self.config@,
            pending: self.registry@,
            shutdown_requested: self.shutdown_requested,
        }
    }
}

impl<C, O> ServerState<C, O> {
    pub closed spec fn wf(&self) -> bool {
        self.config.wf() && self.registry.wf()
    }

    /// A server with this configuration, nothing outstanding, and no shutdown
    /// requested.
    pub fn new(config: Config<C, O>) -> (r: Self)
        requires
            config.wf(),
        ensures
            r.wf(),
            r@ == (ServerView {
                config: config@,
                pending: Map::empty(),
                shutdown_requested: false,
            }),
    {
        ServerState { config, registry: Registry::new(), shutdown_requested: false }
    }

    /// Decides what to do with the next inbound message, and records it:
    /// a request becomes outstanding until it is answered.
    pub fn handle<P>(
        &mut self,
        msg: Message<P>,
        now: u64,
        requests: &Dispatcher,
        notifications: &Dispatcher,
    ) -> (r: Step<P>)
        requires
            old(self).wf(),
        ensures
            final(self).wf(),
            handle_post(old(self)@, msg, now, requests@, notifications@, final(self)@, r),
    {
        match msg {
            Message::Request(q) => self.on_request(q, now, requests),
            Message::Notification(n) => {
                let exit = String::from_str(exit_method());
                if n.method.eq(&exit) {
                    Step::Exit
                } else {
                    match notifications.claim(&n.method) {
                        Some(i) => Step::RunNotification { handler: i, params: n.params },
                        None => Step::Done,
                    }
                }
            },
            Message::Response(_) => Step::Done,
        }
    }

    fn on_request<P>(&mut self, q: Request<P>, now: u64, requests: &Dispatcher) -> (r: Step<P>)
        requires
            old(self).wf(),
        ensures
            final(self).wf(),
            request_post(old(self)@, q, now, requests@, final(self)@, r),
    {
        let Request { id, method, params } = q;
        let shutdown = String::from_str(shutdown_method());
        let is_shutdown = method.eq(&shutdown);
        let claim = requests.claim(&method);
        self.registry.register(id.duplicate(), method, now);
        assert(self.registry@.remove(id@) =~= old(self).registry@.remove(id@));
        if is_shutdown {
            Step::RunShutdown { id, params }
        } else if self.shutdown_requested {
            let _ = self.registry.complete(&id);
            let error = ResponseError {
                code: invalid_request_code(),
                message: String::from_str("Shutdown already requested"),
                data: None,
            };
            Step::Reply(Response { id, outcome: Outcome::Error(error) })
        } else {
            match claim {
                Some(i) => Step::RunRequest { handler: i, id, params },
                None => {
                    let _ = self.registry.complete(&id);
                    Step::Done
                },
            }
        }
    }

    /// Answers request `id` from its handler's result and takes it out of the
    /// outstanding requests.
    pub fn finish_request<P>(&mut self, id: RequestId, result: HandlerResult<P>) -> (r: Response<P>)
        requires
            old(self).wf(),
        ensures
            final(self).wf(),
            final(self)@ == without_pending(old(self)@, id@),
            r == answer(id, result),
    {
        let _ = self.registry.complete(&id);
        let outcome = match result {
            HandlerResult::Done(v) => Outcome::Value(v),
            HandlerResult::Undecodable { diagnostic, params } => Outcome::Error(
                ResponseError { code: invalid_params_code(), message: diagnostic, data: Some(params) },
            ),
            HandlerResult::Failed { kind, message } => {
                let code = match kind {
                    FailureKind::BadRequest => invalid_request_code(),
                    FailureKind::Internal => internal_error_code(),
                };
                Outcome::Error(ResponseError { code, message, data: None })
            },
        };
        Response { id, outcome }
    }

    /// Answers shutdown request `id` once its params were decoded, or found
    /// not to decode, and takes it out of the outstanding requests. Shutdown
    /// is requested from then on only where they decoded.
    pub fn finish_shutdown<P>(&mut self, id: RequestId, decoded: Decoding<P>) -> (r: Response<P>)
        requires
            old(self).wf(),
        ensures
            final(self).wf(),
            final(self)@ == after_shutdown(old(self)@, id@, decoded),
            r == shutdown_answer(id, decoded),
    {
        let _ = self.registry.complete(&id);
        match decoded {
            Decoding::Decoded => {
                self.shutdown_requested = true;
                Response { id, outcome: Outcome::Null }
            },
            Decoding::Undecodable { diagnostic, params } => {
                let error = ResponseError {
                    code: invalid_params_code(),
                    message: diagnostic,
                    data: Some(params),
                };
                Response { id, outcome: Outcome::Error(error) }
            },
        }
    }

    /// Drops the bookkeeping of request `id`, if it is outstanding; a request
    /// that is not outstanding is no error.
    pub fn cancel(&mut self, id: &RequestId)
        requires
            old(self).wf(),
        ensures
            final(self).wf(),
            final(self)@ == without_pending(old(self)@, id@),
    {
        let _ = self.registry.complete(id);
    }

    /// Applies a configuration update: all of it, or, where the options did
    /// not decode, none of it.
    pub fn update_config<E>(&mut self, decoded: Result<O, E>) -> (r: Result<(), E>)
        requires
            old(self).wf(),
        ensures
            final(self).wf(),
            final(self)@ == (ServerView { config: updated(old(self)@.config, decoded), ..old(self)@ }),
            r is Ok <==> decoded is Ok,
            r is Err ==> r == Err::<(), E>(decoded->Err_0),
    {
        self.config.update(decoded)
    }

    pub fn config(&self) -> (r: &Config<C, O>)
        ensures
            r@ == self@.config,
    {
        &self.config
    }

    pub fn is_shutdown_requested(&self) -> (r: bool)
        ensures
            r == self@.shutdown_requested,
    {
        self.shutdown_requested
    }

    /// Whether request `id` is outstanding.
    pub fn is_pending(&self, id: &RequestId) -> (r: bool)
        requires
            self.wf(),
        ensures
            r == self@.pending.contains_key(id@),
    {
        self.registry.contains(id)
    }
}

/// A request that a registration claims, received while no shutdown is
/// pending, goes to that handler with its identifier and no response of its
/// own; the one response made from the handler's output carries the same
/// identifier, and the request is then no longer outstanding.
pub proof fn claimed_request_answered_once<C, O, P>(
    s0: ServerView<C, O>,
    q: Request<P>,
    now: u64,
    requests: Seq<Seq<char>>,
    notifications: Seq<Seq<char>>,
    s1: ServerView<C, O>,
    step: Step<P>,
    output: P,
)
    requires
        handle_post(s0, Message::Request(q), now, requests, notifications, s1, step),
        q.method@ != shutdown_name(),
        !s0.shutdown_requested,
        first_claim(requests, q.method@) is Some,
    ensures
        step matches Step::RunRequest { id, .. } && id == q.id,
        answer(q.id, HandlerResult::Done(output)) == (Response {
            id: q.id,
            outcome: Outcome::Value(output),
        }),
        !without_pending(s1, q.id@).pending.contains_key(q.id@),
{
}

/// A claimed request whose params fail to decode is answered with one
/// InvalidParams error carrying the diagnostic and the params, and leaves the
/// state as it was before the request arrived.
pub proof fn undecodable_request_changes_nothing<C, O, P>(
    s0: ServerView<C, O>,
    q: Request<P>,
    now: u64,
    requests: Seq<Seq<char>>,
    notifications: Seq<Seq<char>>,
    s1: ServerView<C, O>,
    step: Step<P>,
    diagnostic: String,
)
    requires
        handle_post(s0, Message::Request(q), now, requests, notifications, s1, step),
        q.method@ != shutdown_name(),
        !s0.shutdown_requested,
        first_claim(requests, q.method@) is Some,
        !s0.pending.contains_key(q.id@),
    ensures
        step matches Step::RunRequest { id, .. } && id == q.id,
        answer(q.id, HandlerResult::Undecodable { diagnostic, params: q.params }) == (Response {
            id: q.id,
            outcome: Outcome::Error(
                ResponseError { code: INVALID_PARAMS, message: diagnostic, data: Some(q.params) },
            ),
        }),
        without_pending(s1, q.id@) == s0,
{
    assert(without_pending(s1, q.id@).pending =~= s0.pending);
}

/// A shutdown request goes to the decoding of its params; where they
/// decode, it is answered with the null result and sets the shutdown flag.
pub proof fn shutdown_request_sets_flag<C, O, P>(
    s0: ServerView<C, O>,
    q: Request<P>,
    now: u64,
    requests: Seq<Seq<char>>,
    notifications: Seq<Seq<char>>,
    s1: ServerView<C, O>,
    step: Step<P>,
)
    requires
        handle_post(s0, Message::Request(q), now, requests, notifications, s1, step),
        q.method@ == shutdown_name(),
    ensures
        step == (Step::RunShutdown { id: q.id, params: q.params }),
        after_shutdown(s1, q.id@, Decoding::<P>::Decoded).shutdown_requested,
        !after_shutdown(s1, q.id@, Decoding::<P>::Decoded).pending.contains_key(q.id@),
        shutdown_answer(q.id, Decoding::<P>::Decoded) == (Response {
            id: q.id,
            outcome: Outcome::<P>::Null,
        }),
{
}

/// A shutdown request whose params fail to decode is answered with one
/// InvalidParams error and leaves the state, the shutdown flag included, as
/// it was before the request arrived.
pub proof fn undecodable_shutdown_changes_nothing<C, O, P>(
    s0: ServerView<C, O>,
    q: Request<P>,
    now: u64,
    requests: Seq<Seq<char>>,
    notifications: Seq<Seq<char>>,
    s1: ServerView<C, O>,
    step: Step<P>,
    diagnostic: String,
)
    requires
        handle_post(s0, Message::Request(q), now, requests, notifications, s1, step),
        q.method@ == shutdown_name(),
        !s0.pending.contains_key(q.id@),
    ensures
        step == (Step::RunShutdown { id: q.id, params: q.params }),
        after_shutdown(s1, q.id@, (Decoding::Undecodable { diagnostic, params: q.params })) == s0,
        shutdown_answer(q.id, (Decoding::Undecodable { diagnostic, params: q.params })) == (Response {
            id: q.id,
            outcome: Outcome::Error(
                ResponseError { code: INVALID_PARAMS, message: diagnostic, data: Some(q.params) },
            ),
        }),
{
    assert(without_pending(s1, q.id@).pending =~= s0.pending);
}

/// Once shutdown is requested, every other request is answered with the
/// InvalidRequest error and reaches no handler, whatever is registered.
pub proof fn requests_after_shutdown_rejected<C, O, P>(
    s0: ServerView<C, O>,
    q: Request<P>,
    now: u64,
    requests: Seq<Seq<char>>,
    notifications: Seq<Seq<char>>,
    s1: ServerView<C, O>,
    step: Step<P>,
)
    requires
        handle_post(s0, Message::Request(q), now, requests, notifications, s1, step),
        s0.shutdown_requested,
        q.method@ != shutdown_name(),
    ensures
        step matches Step::Reply(resp) && is_rejected_after_shutdown(resp, q.id),
        s1.shutdown_requested,
        !s1.pending.contains_key(q.id@),
{
}

/// No message clears the shutdown flag once it is set.
pub proof fn shutdown_is_permanent<C, O, P>(
    s0: ServerView<C, O>,
    msg: Message<P>,
    now: u64,
    requests: Seq<Seq<char>>,
    notifications: Seq<Seq<char>>,
    s1: ServerView<C, O>,
    step: Step<P>,
)
    requires
        handle_post(s0, msg, now, requests, notifications, s1, step),
        s0.shutdown_requested,
    ensures
        s1.shutdown_requested,
{
}

/// The exit notification stops the loop before any handler sees it, and
/// changes nothing.
pub proof fn exit_stops_loop<C, O, P>(
    s0: ServerView<C, O>,
    n: Notification<P>,
    now: u64,
    requests: Seq<Seq<char>>,
    notifications: Seq<Seq<char>>,
    s1: ServerView<C, O>,
    step: Step<P>,
)
    requires
        handle_post(s0, Message::Notification(n), now, requests, notifications, s1, step),
        n.method@ == exit_name(),
    ensures
        step is Exit,
        s1 == s0,
{
}

/// After a request is handled, its identifier has exactly one entry or none:
/// a new request replaces an outstanding one with the same identifier.
pub proof fn one_entry_per_id<C, O, P>(
    s0: ServerView<C, O>,
    q: Request<P>,
    now: u64,
    requests: Seq<Seq<char>>,
    notifications: Seq<Seq<char>>,
    s1: ServerView<C, O>,
    step: Step<P>,
)
    requires
        handle_post(s0, Message::Request(q), now, requests, notifications, s1, step),
    ensures
        s1.pending.contains_key(q.id@) ==> s1.pending[q.id@] == (PendingView {
            method: q.method@,
            started: now,
        }),
        forall|k: IdView| k != q.id@ ==> (#[trigger] s1.pending.contains_key(k)
            == s0.pending.contains_key(k)),
{
}

/// Cancelling removes the entry of that identifier and no other; where none
/// is outstanding it changes nothing.
pub proof fn cancel_removes_only_its_entry<C, O>(s0: ServerView<C, O>, id: IdView)
    ensures
        !without_pending(s0, id).pending.contains_key(id),
        forall|k: IdView| k != id ==> (#[trigger] without_pending(s0, id).pending.contains_key(k)
            == s0.pending.contains_key(k)),
        !s0.pending.contains_key(id) ==> without_pending(s0, id) == s0,
{
    if !s0.pending.contains_key(id) {
        assert(s0.pending.remove(id) =~= s0.pending);
    }
}

/// `s1` follows from `s0` by one of the server's operations: handling a
/// message, finishing a request or a shutdown, cancelling, or updating the
/// configuration.
pub open spec fn is_operation<C, O, P>(s0: ServerView<C, O>, s1: ServerView<C, O>) -> bool {
    ||| exists|msg: Message<P>, now: u64, rq: Seq<Seq<char>>, nt: Seq<Seq<char>>, r: Step<P>|
        #[trigger] handle_post(s0, msg, now, rq, nt, s1, r)
    ||| exists|id: IdView| s1 == #[trigger] without_pending(s0, id)
    ||| exists|id: IdView, d: Decoding<P>| s1 == #[trigger] after_shutdown(s0, id, d)
    ||| s1 == (ServerView { config: s1.config, ..s0 })
}

/// Each state of `trace` follows from the one before it by an operation.
pub open spec fn is_history<C, O, P>(trace: Seq<ServerView<C, O>>) -> bool {
    forall|i: int| 0 <= i < trace.len() - 1 ==> #[trigger] is_operation::<C, O, P>(trace[i], trace[i + 1])
}

proof fn operation_keeps_flag<C, O, P>(s0: ServerView<C, O>, s1: ServerView<C, O>)
    requires
        is_operation::<C, O, P>(s0, s1),
        s0.shutdown_requested,
    ensures
        s1.shutdown_requested,
{
    if exists|msg: Message<P>, now: u64, rq: Seq<Seq<char>>, nt: Seq<Seq<char>>, r: Step<P>|
        #[trigger] handle_post(s0, msg, now, rq, nt, s1, r) {
        let (msg, now, rq, nt, r) = choose|msg: Message<P>, now: u64, rq: Seq<Seq<char>>, nt: Seq<Seq<char>>, r: Step<P>|
            #[trigger] handle_post(s0, msg, now, rq, nt, s1, r);
        shutdown_is_permanent(s0, msg, now, rq, nt, s1, r);
    } else if exists|id: IdView, d: Decoding<P>| s1 == #[trigger] after_shutdown(s0, id, d) {
        let (id, d) = choose|id: IdView, d: Decoding<P>| s1 == #[trigger] after_shutdown(s0, id, d);
    }
}

/// Once shutdown is requested, it stays requested through any sequence of
/// operations.
pub proof fn shutdown_stays_requested<C, O, P>(trace: Seq<ServerView<C, O>>, k: int)
    requires
        is_history::<C, O, P>(trace),
        trace.len() > 0,
        trace[0].shutdown_requested,
        0 <= k < trace.len(),
    ensures
        trace[k].shutdown_requested,
    decreases k,
{
    if k > 0 {
        shutdown_stays_requested::<C, O, P>(trace, k - 1);
        let i = k - 1;
        assert(is_operation::<C, O, P>(trace[i], trace[i + 1]));
        operation_keeps_flag::<C, O, P>(trace[i], trace[i + 1]);
    }
}

/// After a shutdown request whose params decoded, followed by any sequence of
/// operations, every request other than shutdown is answered with the
/// InvalidRequest error and reaches no handler.
pub proof fn requests_rejected_after_shutdown_history<C, O, P>(
    s0: ServerView<C, O>,
    shutdown_id: IdView,
    trace: Seq<ServerView<C, O>>,
    q: Request<P>,
    now: u64,
    requests: Seq<Seq<char>>,
    notifications: Seq<Seq<char>>,
    s1: ServerView<C, O>,
    step: Step<P>,
)
    requires
        trace.len() > 0,
        trace[0] == after_shutdown(s0, shutdown_id, Decoding::<P>::Decoded),
        is_history::<C, O, P>(trace),
        handle_post(trace.last(), Message::Request(q), now, requests, notifications, s1, step),
        q.method@ != shutdown_name(),
    ensures
        step matches Step::Reply(resp) && is_rejected_after_shutdown(resp, q.id),
        s1.shutdown_requested,
{
    shutdown_stays_requested::<C, O, P>(trace, trace.len() - 1);
}

} // verus!
