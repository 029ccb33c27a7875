//! What holds of every decision of the engine.

use crate::base58::base58;
use crate::draws::{
    DrawsView, LATENCY_MAX, LATENCY_MIN, TIMEOUT_MAX, TIMEOUT_MIN, UNCONFIRMED_DELAY,
};
use crate::error::RequestError;
use crate::event::{is_fake_signature, RpcEvent};
use crate::plan::{ActionView, PlanView, ResponseView};
use crate::probability::RESOLUTION;
use crate::request::RequestView;
use crate::service::{
    decided, forwarded, spec_send_transaction, spec_signature_statuses, GlobalStateView, Outcome,
};
use vstd::prelude::*;

verus! {

/// A request together with the random values that it drew.
pub struct Step {
    pub request: RequestView,
    pub draws: DrawsView,
}

/// The registry that is left when the requests of `steps` have been decided
/// one after the other, starting in the state `state`.
pub open spec fn registry_after(state: GlobalStateView, steps: Seq<Step>) -> Set<Seq<char>>
    decreases steps.len(),
{
    if steps.len() == 0 {
        state.registry
    } else {
        let earlier = registry_after(state, steps.drop_last());
        decided(steps.last().request, state.with_registry(earlier), steps.last().draws).registry
    }
}

/// Whether the request at `index` of `steps`, decided in its turn from the
/// state `state`, was answered with a fabricated signature.
pub open spec fn fabricated_at(state: GlobalStateView, steps: Seq<Step>, index: int) -> bool {
    let reached = state.with_registry(registry_after(state, steps.take(index)));
    decided(steps[index].request, reached, steps[index].draws).result matches Ok(plan)
        && plan.event() == Some(RpcEvent::FalsifiedSignature)
}

/// With a success rate of 1 for calls, no draw in range diverts a request:
/// the decision carries none of the tags `Latency`, `RateLimit` and
/// `Timeout`.
pub proof fn lemma_certain_success_never_diverts(
    request: RequestView,
    state: GlobalStateView,
    draws: DrawsView,
)
    requires
        draws.wf(),
        state.percentages.rpc_success@ == RESOLUTION,
    ensures
        !state.percentages.rpc_success.diverts(draws.call),
        decided(request, state, draws).result matches Ok(plan) ==> !(plan.event() matches Some(
            event,
        ) && event.is_random()),
{
}

/// With a success rate of 0 for calls, every request is diverted: the
/// decision carries one of the tags `Latency`, `RateLimit` and `Timeout`,
/// never one of the signature events, and the registry stays as it is.
pub proof fn lemma_no_success_always_diverts(
    request: RequestView,
    state: GlobalStateView,
    draws: DrawsView,
)
    requires
        draws.wf(),
        state.percentages.rpc_success@ == 0,
    ensures
        decided(request, state, draws) == draws.event.enacted(request.body, state, draws),
        decided(request, state, draws).result matches Ok(plan) && plan.event() matches Some(event)
            && event.is_random(),
        decided(request, state, draws).registry == state.registry,
{
}

/// With a success rate of 0 for transactions, every `sendTransaction` that
/// is not diverted is answered with a fabricated signature: the Base58 text
/// of the seed, which is registered.
pub proof fn lemma_no_transaction_succeeds(
    request: RequestView,
    state: GlobalStateView,
    draws: DrawsView,
)
    requires
        draws.wf(),
        request.method == spec_send_transaction(),
        state.percentages.tx_success@ == 0,
        !state.percentages.rpc_success.diverts(draws.call),
    ensures
        decided(request, state, draws) == (Outcome {
            result: Ok(
                PlanView {
                    delay: 0,
                    action: ActionView::Reply(ResponseView::falsified(base58(draws.seed))),
                },
            ),
            registry: state.registry.insert(base58(draws.seed)),
        }),
        is_fake_signature(base58(draws.seed)),
{
    reveal_strlit("sendTransaction");
    reveal_strlit("getSignatureStatuses");
    assert(spec_send_transaction().len() != spec_signature_statuses().len());
}

/// The two signature events come from the method of the request alone, never
/// from the random pick: a decision tagged `FalsifiedSignature` is one on a
/// `sendTransaction` that was not diverted and whose own draw failed, and a
/// decision tagged `UnconfirmedSignature` is one on a query, not diverted,
/// for a registered signature.
pub proof fn lemma_signature_events_follow_the_method(
    request: RequestView,
    state: GlobalStateView,
    draws: DrawsView,
)
    requires
        draws.wf(),
    ensures
        decided(request, state, draws).result matches Ok(plan) && plan.event() == Some(
            RpcEvent::FalsifiedSignature,
        ) ==> request.method == spec_send_transaction()
            && !state.percentages.rpc_success.diverts(draws.call)
            && state.percentages.tx_success.diverts(draws.transaction),
        decided(request, state, draws).result matches Ok(plan) && plan.event() == Some(
            RpcEvent::UnconfirmedSignature,
        ) ==> request.method == spec_signature_statuses()
            && !state.percentages.rpc_success.diverts(draws.call)
            && (request.signature matches Some(signature) && state.registry.contains(signature)),
{
}

/// A decision without a tag is the plain forward: the same body goes to the
/// configured endpoint at once. Every other decision names its event.
pub proof fn lemma_untagged_decision_is_plain_forward(
    request: RequestView,
    state: GlobalStateView,
    draws: DrawsView,
)
    ensures
        decided(request, state, draws).result matches Ok(plan) && plan.event() is None
            ==> decided(request, state, draws) == forwarded(request, state),
{
}

/// The delay of a decision is that of its event: between `LATENCY_MIN` and
/// `LATENCY_MAX` seconds for `Latency`, between `TIMEOUT_MIN` and
/// `TIMEOUT_MAX` for `Timeout`, `UNCONFIRMED_DELAY` for
/// `UnconfirmedSignature`, and none for anything else.
pub proof fn lemma_delay_follows_the_event(
    request: RequestView,
    state: GlobalStateView,
    draws: DrawsView,
)
    requires
        draws.wf(),
    ensures
        decided(request, state, draws).result matches Ok(plan) ==> (match plan.event() {
            Some(RpcEvent::Latency) => LATENCY_MIN <= plan.delay <= LATENCY_MAX,
            Some(RpcEvent::Timeout) => TIMEOUT_MIN <= plan.delay <= TIMEOUT_MAX,
            Some(RpcEvent::UnconfirmedSignature) => plan.delay == UNCONFIRMED_DELAY,
            _ => plan.delay == 0,
        }),
{
}

/// A decision tagged `FalsifiedSignature` answers with the Base58 text of
/// the seed, and leaves that text in the registry.
pub proof fn lemma_fabricated_signature_is_registered(
    request: RequestView,
    state: GlobalStateView,
    draws: DrawsView,
)
    requires
        decided(request, state, draws).result matches Ok(plan) && plan.event() == Some(
            RpcEvent::FalsifiedSignature,
        ),
    ensures
        decided(request, state, draws).result matches Ok(plan) && plan.action == ActionView::Reply(
            ResponseView::falsified(base58(draws.seed)),
        ),
        decided(request, state, draws).registry.contains(base58(draws.seed)),
{
}

/// A query for a signature that the registry holds is answered as
/// unconfirmed unless it is diverted: HTTP 200 with one status, `null`,
/// after the fixed delay. The registry stays as it is.
pub proof fn lemma_registered_signature_is_unconfirmed(
    request: RequestView,
    state: GlobalStateView,
    draws: DrawsView,
    signature: Seq<char>,
)
    requires
        request.method == spec_signature_statuses(),
        request.signature == Some(signature),
        state.registry.contains(signature),
        !state.percentages.rpc_success.diverts(draws.call),
    ensures
        decided(request, state, draws) == RpcEvent::UnconfirmedSignature.enacted(
            request.body,
            state,
            draws,
        ),
        decided(request, state, draws).result matches Ok(plan) && plan.action == ActionView::Reply(
            ResponseView::unconfirmed(),
        ),
        decided(request, state, draws).registry == state.registry,
{
}

/// A query for a signature that the registry does not hold is forwarded
/// unless it is diverted: the same body goes to the configured endpoint at
/// once, the answer is relayed without a tag, and the registry stays as it
/// is.
pub proof fn lemma_unknown_signature_is_forwarded(
    request: RequestView,
    state: GlobalStateView,
    draws: DrawsView,
    signature: Seq<char>,
)
    requires
        request.method == spec_signature_statuses(),
        request.signature == Some(signature),
        !state.registry.contains(signature),
        !state.percentages.rpc_success.diverts(draws.call),
    ensures
        decided(request, state, draws) == forwarded(request, state),
        decided(request, state, draws).result == Ok::<PlanView, RequestError>(
            PlanView::passthrough(state.outbound(request.body)),
        ),
        decided(request, state, draws).registry == state.registry,
{
}

/// A decision that ends in an error leaves the registry as it is.
pub proof fn lemma_error_keeps_registry(
    request: RequestView,
    state: GlobalStateView,
    draws: DrawsView,
)
    requires
        decided(request, state, draws).result is Err,
    ensures
        decided(request, state, draws).result == Err::<PlanView, RequestError>(
            RequestError::MalformedRequest,
        ),
        decided(request, state, draws).registry == state.registry,
{
}

/// No decision removes a signature from the registry.
pub proof fn lemma_decision_keeps_registry(
    request: RequestView,
    state: GlobalStateView,
    draws: DrawsView,
)
    ensures
        state.registry.subset_of(decided(request, state, draws).registry),
{
}

/// No run of decisions removes a signature from the registry.
pub proof fn lemma_registry_only_grows(state: GlobalStateView, steps: Seq<Step>)
    ensures
        state.registry.subset_of(registry_after(state, steps)),
    decreases steps.len(),
{
    if steps.len() > 0 {
        lemma_registry_only_grows(state, steps.drop_last());
        let earlier = registry_after(state, steps.drop_last());
        lemma_decision_keeps_registry(
            steps.last().request,
            state.with_registry(earlier),
            steps.last().draws,
        );
    }
}

/// A run of decisions adds to the registry the signatures that it
/// fabricated and no others: what the registry holds afterwards was there
/// before, or is the Base58 text of the seed of a request that was answered
/// with a fabricated signature.
pub proof fn lemma_registry_holds_fabrications_only(
    state: GlobalStateView,
    steps: Seq<Step>,
    signature: Seq<char>,
)
    requires
        registry_after(state, steps).contains(signature),
        !state.registry.contains(signature),
    ensures
        exists|index: int|
            0 <= index < steps.len() && #[trigger] fabricated_at(state, steps, index) && signature
                == base58(steps[index].draws.seed),
    decreases steps.len(),
{
    let earlier = steps.drop_last();
    let last = steps.len() - 1;
    assert(steps.take(last) == earlier);
    if registry_after(state, earlier).contains(signature) {
        lemma_registry_holds_fabrications_only(state, earlier, signature);
        let index = choose|index: int|
            0 <= index < earlier.len() && #[trigger] fabricated_at(state, earlier, index)
                && signature == base58(earlier[index].draws.seed);
        assert(earlier.take(index) == steps.take(index));
        assert(fabricated_at(state, steps, index));
    } else {
        assert(fabricated_at(state, steps, last));
    }
}

/// Once a signature has been fabricated, every later query for it that is
/// not diverted is answered as unconfirmed, whatever was decided in
/// between.
pub proof fn lemma_fabricated_signature_stays_unconfirmed(
    state: GlobalStateView,
    fabrication: Step,
    between: Seq<Step>,
    query: Step,
)
    requires
        decided(fabrication.request, state, fabrication.draws).result matches Ok(plan)
            && plan.event() == Some(RpcEvent::FalsifiedSignature),
        query.request.method == spec_signature_statuses(),
        query.request.signature == Some(base58(fabrication.draws.seed)),
        !state.percentages.rpc_success.diverts(query.draws.call),
    ensures
        ({
            let fabricated = decided(fabrication.request, state, fabrication.draws).registry;
            let reached = state.with_registry(
                registry_after(state.with_registry(fabricated), between),
            );
            &&& decided(query.request, reached, query.draws) == RpcEvent::UnconfirmedSignature.enacted(
                query.request.body,
                reached,
                query.draws,
            )
            &&& decided(query.request, reached, query.draws).result matches Ok(plan) && plan.action
                == ActionView::Reply(ResponseView::unconfirmed())
            &&& decided(query.request, reached, query.draws).registry == reached.registry
        }),
{
    let signature = base58(fabrication.draws.seed);
    let fabricated = decided(fabrication.request, state, fabrication.draws).registry;
    lemma_fabricated_signature_is_registered(fabrication.request, state, fabrication.draws);
    lemma_registry_only_grows(state.with_registry(fabricated), between);
    let reached = state.with_registry(registry_after(state.with_registry(fabricated), between));
    assert(reached.registry.contains(signature));
    lemma_registered_signature_is_unconfirmed(query.request, reached, query.draws, signature);
}

} // verus!
