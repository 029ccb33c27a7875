//! The catalog of synthetic events and what each of them does.

use crate::base58::{base58, base58_string};
use crate::draws::{
    draw_seed, is_seed, Draws, DrawsView, LATENCY_MAX, LATENCY_MIN, TIMEOUT_MAX, TIMEOUT_MIN,
    UNCONFIRMED_DELAY,
};
use crate::plan::{Action, ActionView, Plan, PlanView, Response, ResponseView};
use crate::random::uniform_between;
use crate::service::{passthrough, settled, GlobalState, GlobalStateView, Outcome};
use vstd::prelude::*;

verus! {

/// A synthetic event that the proxy can enact in place of a plain forward.
#[derive(Clone, Copy, Debug, PartialEq, Eq, Structural)]
pub enum RpcEvent {
    FalsifiedSignature,
    Latency,
    RateLimit,
    Timeout,
    UnconfirmedSignature,
}

/// Whether `signature` is the Base58 text of some seed.
pub open spec fn is_fake_signature(signature: Seq<char>) -> bool {
    exists|seed: Seq<u8>| is_seed(seed) && signature == #[trigger] base58(seed)
}

/// Fabricates a signature: the Base58 text of 64 random ASCII letters and
/// digits.
pub fn generate_fake_signature() -> (signature: String)
    ensures
        is_fake_signature(signature@),
{
    let seed = draw_seed();
    base58_string(seed.as_slice())
}

impl RpcEvent {
    /// The events that the uniform random pick draws from. The two signature
    /// events are reached by method routing only.
    pub open spec fn is_random(self) -> bool {
        self == RpcEvent::Latency || self == RpcEvent::RateLimit || self == RpcEvent::Timeout
    }

    /// The event that stands at `index` in the uniform pick.
    pub open spec fn at_index(index: nat) -> RpcEvent {
        if index == 0 {
            RpcEvent::Latency
        } else if index == 1 {
            RpcEvent::RateLimit
        } else {
            RpcEvent::Timeout
        }
    }

    /// The name of the event, as the header `X-ATC-Event` carries it.
    pub open spec fn spec_name(self) -> Seq<char> {
        match self {
            RpcEvent::FalsifiedSignature => "FalsifiedSignature"@,
            RpcEvent::Latency => "Latency"@,
            RpcEvent::RateLimit => "RateLimit"@,
            RpcEvent::Timeout => "Timeout"@,
            RpcEvent::UnconfirmedSignature => "UnconfirmedSignature"@,
        }
    }

    /// What the event does to a request with the body `body` in the state
    /// `state`, where its random values are `draws`.
    pub open spec fn enacted(
        self,
        body: Seq<u8>,
        state: GlobalStateView,
        draws: DrawsView,
    ) -> Outcome {
        match self {
            RpcEvent::FalsifiedSignature => {
                let signature = base58(draws.seed);
                Outcome {
                    result: Ok(
                        PlanView {
                            delay: 0,
                            action: ActionView::Reply(ResponseView::falsified(signature)),
                        },
                    ),
                    registry: state.registry.insert(signature),
                }
            },
            RpcEvent::Latency => Outcome {
                result: Ok(
                    PlanView {
                        delay: draws.latency,
                        action: ActionView::Forward(state.outbound(body), Some(RpcEvent::Latency)),
                    },
                ),
                registry: state.registry,
            },
            RpcEvent::RateLimit => Outcome {
                result: Ok(
                    PlanView { delay: 0, action: ActionView::Reply(ResponseView::rate_limit()) },
                ),
                registry: state.registry,
            },
            RpcEvent::Timeout => Outcome {
                result: Ok(
                    PlanView {
                        delay: draws.timeout,
                        action: ActionView::Reply(ResponseView::timeout()),
                    },
                ),
                registry: state.registry,
            },
            RpcEvent::UnconfirmedSignature => Outcome {
                result: Ok(
                    PlanView {
                        delay: UNCONFIRMED_DELAY,
                        action: ActionView::Reply(ResponseView::unconfirmed()),
                    },
                ),
                registry: state.registry,
            },
        }
    }

    /// The name of the event, as the header `X-ATC-Event` carries it.
    pub fn name(&self) -> (name: &'static str)
        ensures
            name@ == self.spec_name(),
    {
        match self {
            RpcEvent::FalsifiedSignature => "FalsifiedSignature",
            RpcEvent::Latency => "Latency",
            RpcEvent::RateLimit => "RateLimit",
            RpcEvent::Timeout => "Timeout",
            RpcEvent::UnconfirmedSignature => "UnconfirmedSignature",
        }
    }

    /// Maps a number drawn from `0..=2` to one of the three random events.
    pub fn from_index(index: u64) -> (event: RpcEvent)
        ensures
            event == Self::at_index(index as nat),
            event.is_random(),
    {
        match index {
            0 => RpcEvent::Latency,
            1 => RpcEvent::RateLimit,
            _ => RpcEvent::Timeout,
        }
    }

    /// Picks one of `Latency`, `RateLimit` and `Timeout`, each with the same
    /// probability.
    pub fn random() -> (event: RpcEvent)
        ensures
            event.is_random(),
    {
        RpcEvent::from_index(uniform_between(0, 2))
    }

    /// Enacts the event on a request with the body `payload`, with the random
    /// values `draws`.
    pub fn enact(&self, payload: &[u8], data: &mut GlobalState, draws: &Draws) -> (plan: Plan)
        requires
            draws@.wf(),
        ensures
            settled(
                old(data)@,
                Ok(plan),
                final(data)@,
                self.enacted(payload@, old(data)@, draws@),
            ),
    {
        match self {
            RpcEvent::FalsifiedSignature => fabricate(base58_string(draws.seed.as_slice()), data),
            RpcEvent::Latency => delay_forward(draws.latency, payload, data),
            RpcEvent::RateLimit => Plan { delay: 0, action: Action::Reply(Response::rate_limit()) },
            RpcEvent::Timeout => Plan {
                delay: draws.timeout,
                action: Action::Reply(Response::timeout()),
            },
            RpcEvent::UnconfirmedSignature => Plan {
                delay: UNCONFIRMED_DELAY,
                action: Action::Reply(Response::unconfirmed()),
            },
        }
    }

    /// Enacts the event on a request with the body `payload`, drawing the
    /// random values that the event needs: the seed of the signature for
    /// `FalsifiedSignature`, the delay for `Latency` and `Timeout`.
    pub fn respond(&self, payload: &[u8], data: &mut GlobalState) -> (plan: Plan)
        ensures
            exists|draws: DrawsView|
                draws.wf() && settled(
                    old(data)@,
                    Ok(plan),
                    final(data)@,
                    #[trigger] self.enacted(payload@, old(data)@, draws),
                ),
    {
        let ghost before = data@;
        match self {
            RpcEvent::FalsifiedSignature => {
                let signature = generate_fake_signature();
                let ghost seed = choose|seed: Seq<u8>|
                    is_seed(seed) && signature@ == #[trigger] base58(seed);
                let plan = fabricate(signature, data);
                proof {
                    let draws = DrawsView { seed, ..DrawsView::unread() };
                    assert(settled(before, Ok(plan), data@, self.enacted(payload@, before, draws)));
                }
                plan
            },
            RpcEvent::Latency => {
                let delay = uniform_between(LATENCY_MIN, LATENCY_MAX);
                let plan = delay_forward(delay, payload, data);
                proof {
                    let draws = DrawsView { latency: delay, ..DrawsView::unread() };
                    assert(settled(before, Ok(plan), data@, self.enacted(payload@, before, draws)));
                }
                plan
            },
            RpcEvent::RateLimit => {
                let plan = Plan { delay: 0, action: Action::Reply(Response::rate_limit()) };
                proof {
                    let draws = DrawsView::unread();
                    assert(settled(before, Ok(plan), data@, self.enacted(payload@, before, draws)));
                }
                plan
            },
            RpcEvent::Timeout => {
                let delay = uniform_between(TIMEOUT_MIN, TIMEOUT_MAX);
                let plan = Plan { delay, action: Action::Reply(Response::timeout()) };
                proof {
                    let draws = DrawsView { timeout: delay, ..DrawsView::unread() };
                    assert(settled(before, Ok(plan), data@, self.enacted(payload@, before, draws)));
                }
                plan
            },
            RpcEvent::UnconfirmedSignature => {
                let plan = Plan {
                    delay: UNCONFIRMED_DELAY,
                    action: Action::Reply(Response::unconfirmed()),
                };
                proof {
                    let draws = DrawsView::unread();
                    assert(settled(before, Ok(plan), data@, self.enacted(payload@, before, draws)));
                }
                plan
            },
        }
    }
}

/// Registers `signature` and answers the transaction with it.
fn fabricate(signature: String, data: &mut GlobalState) -> (plan: Plan)
    ensures
        plan@ == (PlanView {
            delay: 0,
            action: ActionView::Reply(ResponseView::falsified(signature@)),
        }),
        final(data)@ == old(data)@.with_registry(old(data)@.registry.insert(signature@)),
{
    let response = Response::falsified(signature.as_str());
    data.fake_signatures.insert(signature);
    Plan { delay: 0, action: Action::Reply(response) }
}

/// Forwards the request after `delay` seconds and tags the answer `Latency`.
fn delay_forward(delay: u64, payload: &[u8], data: &GlobalState) -> (plan: Plan)
    ensures
        plan@ == (PlanView {
            delay,
            action: ActionView::Forward(data@.outbound(payload@), Some(RpcEvent::Latency)),
        }),
{
    Plan { delay, action: Action::Forward(passthrough(payload, data), Some(RpcEvent::Latency)) }
}

} // verus!
