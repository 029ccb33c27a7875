//! The decision engine: which requests are forwarded, and which are answered
//! with an event.

use crate::config::{Config, PercentageSettings};
use crate::draws::{draw_unit, Draws, DrawsView};
use crate::error::RequestError;
use crate::event::RpcEvent;
use crate::plan::{Action, Outbound, OutboundView, Plan, PlanView, Response, ResponseView};
use crate::registry::SignatureRegistry;
use crate::request::{request_of, Request, RequestView};
use vstd::prelude::*;
use vstd::slice::slice_to_vec;
use vstd::string::StringExecFns;

verus! {

/// The state that all requests share: the registry of fabricated
/// signatures, the success rates and the endpoint of the upstream node.
/// Only the registry changes after startup.
#[derive(Debug)]
pub struct GlobalState {
    pub fake_signatures: SignatureRegistry,
    pub percentages: PercentageSettings,
    pub rpc_endpoint: String,
}

/// The model of the [`GlobalState`].
pub struct GlobalStateView {
    pub registry: Set<Seq<char>>,
    pub percentages: PercentageSettings,
    pub endpoint: Seq<char>,
}

impl View for GlobalState {
    type V = GlobalStateView;

    open spec fn view(&self) -> GlobalStateView {
        GlobalStateView {
            registry: self.fake_signatures@,
            percentages: self.percentages,
            endpoint: self.rpc_endpoint@,
        }
    }
}

impl GlobalStateView {
    /// This state with `registry` in place of its registry.
    pub open spec fn with_registry(self, registry: Set<Seq<char>>) -> GlobalStateView {
        GlobalStateView { registry, ..self }
    }

    /// The call that forwards `body` to the upstream node.
    pub open spec fn outbound(self, body: Seq<u8>) -> OutboundView {
        OutboundView { endpoint: self.endpoint, body }
    }
}

/// What the engine decides on one request: the plan or the error, and the
/// registry that it leaves.
pub struct Outcome {
    pub result: Result<PlanView, RequestError>,
    pub registry: Set<Seq<char>>,
}

/// The model of a decision.
pub open spec fn decision_view(decision: Result<Plan, RequestError>) -> Result<
    PlanView,
    RequestError,
> {
    match decision {
        Ok(plan) => Ok(plan@),
        Err(error) => Err(error),
    }
}

/// Whether a step that went from the state `before` to the state `after`
/// and returned `decision` came out as `outcome`: the decision is that of
/// the outcome, the registry is the one it leaves, and nothing else changed.
pub open spec fn settled(
    before: GlobalStateView,
    decision: Result<Plan, RequestError>,
    after: GlobalStateView,
    outcome: Outcome,
) -> bool {
    decision_view(decision) == outcome.result && after == before.with_registry(outcome.registry)
}

/// The name of the method that asks for the status of signatures.
pub open spec fn spec_signature_statuses() -> Seq<char> {
    "getSignatureStatuses"@
}

/// The name of the method that submits a transaction.
pub open spec fn spec_send_transaction() -> Seq<char> {
    "sendTransaction"@
}

/// The plain forward of `request`, which leaves the registry as it is.
pub open spec fn forwarded(request: RequestView, state: GlobalStateView) -> Outcome {
    Outcome {
        result: Ok(PlanView::passthrough(state.outbound(request.body))),
        registry: state.registry,
    }
}

/// The decision on `request` in the state `state`, where the random values
/// are `draws`.
///
/// A first draw that is not below the success rate of calls diverts the
/// request to the drawn event, whatever its method. Of the requests that
/// are not diverted, a query for a registered signature is answered as
/// unconfirmed, a query that names no signature is an error, and a
/// transaction whose draw is not below the success rate of transactions is
/// answered with a fabricated signature. Everything else is forwarded.
pub open spec fn decided(
    request: RequestView,
    state: GlobalStateView,
    draws: DrawsView,
) -> Outcome {
    if state.percentages.rpc_success.diverts(draws.call) {
        draws.event.enacted(request.body, state, draws)
    } else if request.method == spec_signature_statuses() {
        match request.signature {
            Some(signature) => if state.registry.contains(signature) {
                RpcEvent::UnconfirmedSignature.enacted(request.body, state, draws)
            } else {
                forwarded(request, state)
            },
            None => Outcome {
                result: Err(RequestError::MalformedRequest),
                registry: state.registry,
            },
        }
    } else if request.method == spec_send_transaction()
        && state.percentages.tx_success.diverts(draws.transaction) {
        RpcEvent::FalsifiedSignature.enacted(request.body, state, draws)
    } else {
        forwarded(request, state)
    }
}

impl GlobalState {
    /// The state at startup under the configuration `c`: its rates and its
    /// endpoint, and an empty registry.
    pub fn from(c: &Config) -> (state: GlobalState)
        ensures
            state@ == (GlobalStateView {
                registry: Set::empty(),
                percentages: c.settings.percentages,
                endpoint: c.settings.rpc_endpoint@,
            }),
    {
        GlobalState {
            fake_signatures: SignatureRegistry::new(),
            percentages: c.settings.percentages,
            rpc_endpoint: c.settings.rpc_endpoint.clone(),
        }
    }
}

impl Default for GlobalState {
    fn default() -> (state: GlobalState)
        ensures
            state@.registry == Set::<Seq<char>>::empty(),
            state@.percentages.is_default(),
            state@.endpoint == Seq::<char>::empty(),
    {
        GlobalState {
            fake_signatures: SignatureRegistry::new(),
            percentages: PercentageSettings::default(),
            rpc_endpoint: String::new(),
        }
    }
}

/// The call that forwards `payload` to the upstream node: a POST of the
/// same bytes to the configured endpoint.
pub fn passthrough(payload: &[u8], data: &GlobalState) -> (outbound: Outbound)
    ensures
        outbound@ == data@.outbound(payload@),
{
    Outbound { endpoint: data.rpc_endpoint.clone(), body: slice_to_vec(payload) }
}

/// The answer to the health probe: HTTP 200 with an empty body, whatever the
/// configuration.
pub fn health() -> (response: Response)
    ensures
        response@ == ResponseView::healthy(),
{
    Response::healthy()
}

/// Whether `method` reads `name`.
fn is_named(method: &String, name: &str) -> (same: bool)
    ensures
        same == (method@ == name@),
{
    let name = String::from_str(name);
    *method == name
}

/// The plain forward of `request`.
fn forward(request: &Request, data: &GlobalState) -> (plan: Plan)
    ensures
        Ok::<PlanView, RequestError>(plan@) == forwarded(request@, data@).result,
{
    Plan { delay: 0, action: Action::Forward(passthrough(request.body.as_slice(), data), None) }
}

/// Decides on `request` with the random values `draws`.
pub fn decide(request: &Request, data: &mut GlobalState, draws: &Draws) -> (decision: Result<
    Plan,
    RequestError,
>)
    requires
        draws@.wf(),
    ensures
        settled(old(data)@, decision, final(data)@, decided(request@, old(data)@, draws@)),
{
    if data.percentages.rpc_success.is_diverted(draws.call) {
        return Ok(draws.event.enact(request.body.as_slice(), data, draws));
    }
    if is_named(&request.method, "getSignatureStatuses") {
        match &request.signature {
            Some(signature) => {
                if data.fake_signatures.contains(signature.as_str()) {
                    Ok(RpcEvent::UnconfirmedSignature.enact(request.body.as_slice(), data, draws))
                } else {
                    Ok(forward(request, data))
                }
            },
            None => Err(RequestError::MalformedRequest),
        }
    } else if is_named(&request.method, "sendTransaction")
        && data.percentages.tx_success.is_diverted(draws.transaction) {
        Ok(RpcEvent::FalsifiedSignature.enact(request.body.as_slice(), data, draws))
    } else {
        Ok(forward(request, data))
    }
}

/// Handles one inbound call: reads the request out of `payload`, draws the
/// random values that its path needs, and decides.
///
/// A body that is no request is an error and leaves the state as it is.
/// For a body that is one, the decision is the one that [`decided`] gives for
/// some random values in range.
pub fn rpc(payload: &[u8], data: &mut GlobalState) -> (decision: Result<Plan, RequestError>)
    ensures
        request_of(payload@) matches Err(error) ==> decision == Err::<Plan, RequestError>(error)
            && final(data)@ == old(data)@,
        request_of(payload@) matches Ok(request) ==> exists|draws: DrawsView|
            draws.wf() && settled(
                old(data)@,
                decision,
                final(data)@,
                #[trigger] decided(request, old(data)@, draws),
            ),
{
    let ghost before = data@;
    let request = match Request::parse(payload) {
        Ok(request) => request,
        Err(error) => {
            return Err(error);
        },
    };
    let call = draw_unit();
    if data.percentages.rpc_success.is_diverted(call) {
        let event = RpcEvent::random();
        let plan = event.respond(request.body.as_slice(), data);
        proof {
            let read = choose|draws: DrawsView|
                draws.wf() && settled(
                    before,
                    Ok(plan),
                    data@,
                    #[trigger] event.enacted(request@.body, before, draws),
                );
            let draws = DrawsView { call: call as nat, event, ..read };
            assert(settled(before, Ok(plan), data@, decided(request@, before, draws)));
        }
        return Ok(plan);
    }
    if is_named(&request.method, "getSignatureStatuses") {
        match &request.signature {
            Some(signature) => {
                if data.fake_signatures.contains(signature.as_str()) {
                    let event = RpcEvent::UnconfirmedSignature;
                    let plan = event.respond(request.body.as_slice(), data);
                    proof {
                        let read = choose|draws: DrawsView|
                            draws.wf() && settled(
                                before,
                                Ok(plan),
                                data@,
                                #[trigger] event.enacted(request@.body, before, draws),
                            );
                        let draws = DrawsView { call: call as nat, ..read };
                        assert(settled(before, Ok(plan), data@, decided(request@, before, draws)));
                    }
                    Ok(plan)
                } else {
                    let plan = forward(&request, data);
                    proof {
                        let draws = DrawsView { call: call as nat, ..DrawsView::unread() };
                        assert(settled(before, Ok(plan), data@, decided(request@, before, draws)));
                    }
                    Ok(plan)
                }
            },
            None => {
                proof {
                    let draws = DrawsView { call: call as nat, ..DrawsView::unread() };
                    assert(settled(
                        before,
                        Err(RequestError::MalformedRequest),
                        data@,
                        decided(request@, before, draws),
                    ));
                }
                Err(RequestError::MalformedRequest)
            },
        }
    } else if is_named(&request.method, "sendTransaction") {
        let transaction = draw_unit();
        if data.percentages.tx_success.is_diverted(transaction) {
            let event = RpcEvent::FalsifiedSignature;
            let plan = event.respond(request.body.as_slice(), data);
            proof {
                let read = choose|draws: DrawsView|
                    draws.wf() && settled(
                        before,
                        Ok(plan),
                        data@,
                        #[trigger] event.enacted(request@.body, before, draws),
                    );
                let draws = DrawsView {
                    call: call as nat,
                    transaction: transaction as nat,
                    ..read
                };
                assert(settled(before, Ok(plan), data@, decided(request@, before, draws)));
            }
            Ok(plan)
        } else {
            let plan = forward(&request, data);
            proof {
                let draws = DrawsView {
                    call: call as nat,
                    transaction: transaction as nat,
                    ..DrawsView::unread()
                };
                assert(settled(before, Ok(plan), data@, decided(request@, before, draws)));
            }
            Ok(plan)
        }
    } else {
        let plan = forward(&request, data);
        proof {
            let draws = DrawsView { call: call as nat, ..DrawsView::unread() };
            assert(settled(before, Ok(plan), data@, decided(request@, before, draws)));
        }
        Ok(plan)
    }
}

} // verus!
