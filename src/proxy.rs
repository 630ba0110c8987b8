//! The send session of a completion message: create a throwaway endpoint,
//! send the chunks to the root window in order, and destroy the endpoint on
//! every path once it exists.
//!
//! The session makes the decisions; its driver performs each action on the
//! display connection and reports back whether it succeeded.

use vstd::prelude::*;
use vstd::string::StringSliceAdditionalSpecFns;
use crate::message::{build_message, chunk, chunk_count, chunk_payload, completion_message, kind_at, Chunk};

verus! {

/// A failure reported by the display connection.
#[derive(Debug, Clone)]
pub enum ActivationError {
    /// Creating the endpoint or sending an event failed; the text says why.
    Transport(String),
}

/// The stage a send session is in.
#[derive(Debug)]
pub enum SendPhase {
    /// The startup id is to be set as a property of the window it names.
    AdvertisingId,
    /// The endpoint is to be created.
    Creating,
    /// The endpoint exists; chunk `next` is to be sent.
    Sending { next: usize },
    /// The endpoint exists and is to be destroyed; `outcome` is what the
    /// session will return.
    Destroying { outcome: Result<(), ActivationError> },
    /// The session is over.
    Finished,
}

/// What the driver of a session is to do next.
#[derive(Debug, Copy, Clone, PartialEq, Eq, Structural)]
pub enum ProxyAction {
    /// Set the startup id as the `_NET_STARTUP_ID` property of its window.
    SetStartupId,
    /// Create the invisible 1x1 override-redirect endpoint.
    CreateEndpoint,
    /// Send chunk `index` as a broadcast event from the endpoint.
    SendChunk { index: usize },
    /// Destroy the endpoint.
    DestroyEndpoint,
    /// Nothing is left to do.
    Done,
}

/// The action a session in `phase` asks for.
pub open spec fn action_of(phase: SendPhase) -> ProxyAction {
    match phase {
        SendPhase::AdvertisingId => ProxyAction::SetStartupId,
        SendPhase::Creating => ProxyAction::CreateEndpoint,
        SendPhase::Sending { next } => ProxyAction::SendChunk { index: next },
        SendPhase::Destroying { .. } => ProxyAction::DestroyEndpoint,
        SendPhase::Finished => ProxyAction::Done,
    }
}

/// Whether the endpoint exists in `phase`: it was created and not yet destroyed.
pub open spec fn endpoint_live(phase: SendPhase) -> bool {
    phase is Sending || phase is Destroying
}

/// The phase after the action of `phase` was performed with `outcome`, for a
/// message of `count` chunks.
pub open spec fn next_phase(phase: SendPhase, outcome: Result<(), ActivationError>, count: nat) -> SendPhase {
    match phase {
        SendPhase::AdvertisingId => match outcome {
            Ok(()) => SendPhase::Creating,
            Err(_) => SendPhase::Finished,
        },
        SendPhase::Creating => match outcome {
            Ok(()) => if count == 0 {
                SendPhase::Destroying { outcome: Ok(()) }
            } else {
                SendPhase::Sending { next: 0 }
            },
            Err(_) => SendPhase::Finished,
        },
        SendPhase::Sending { next } => match outcome {
            Ok(()) => if next + 1 < count {
                SendPhase::Sending { next: (next + 1) as usize }
            } else {
                SendPhase::Destroying { outcome: Ok(()) }
            },
            Err(e) => SendPhase::Destroying { outcome: Err(e) },
        },
        SendPhase::Destroying { .. } => SendPhase::Finished,
        SendPhase::Finished => SendPhase::Finished,
    }
}

/// What a step returns: the session's result when the step ends it.
pub open spec fn step_result(phase: SendPhase, outcome: Result<(), ActivationError>) -> Option<
    Result<(), ActivationError>,
> {
    match phase {
        SendPhase::AdvertisingId => match outcome {
            Ok(()) => None,
            Err(e) => Some(Err(e)),
        },
        SendPhase::Creating => match outcome {
            Ok(()) => None,
            Err(e) => Some(Err(e)),
        },
        SendPhase::Sending { .. } => None,
        SendPhase::Destroying { outcome: kept } => Some(kept),
        SendPhase::Finished => None,
    }
}

/// An upper bound on the steps left before a session in `phase` finishes.
pub open spec fn steps_left(phase: SendPhase, count: nat) -> nat {
    match phase {
        SendPhase::AdvertisingId => count + 3,
        SendPhase::Creating => count + 2,
        SendPhase::Sending { next } => if next <= count {
            (count - next + 1) as nat
        } else {
            1
        },
        SendPhase::Destroying { .. } => 1,
        SendPhase::Finished => 0,
    }
}

/// One message being sent through a throwaway endpoint.
pub struct ProxySend {
    pub chunks: Vec<Chunk>,
    pub phase: SendPhase,
}

impl ProxySend {
    /// The session's invariant: a chunk about to be sent exists.
    pub open spec fn wf(&self) -> bool {
        self.phase matches SendPhase::Sending { next } ==> next < self.chunks@.len()
    }

    /// A session that will send `message` in 20-byte chunks.
    pub fn new(message: &[u8]) -> (r: Self)
        ensures
            r.wf(),
            r.phase is Creating,
            r.chunks@.len() == chunk_count(message@.len()),
            forall|i: int|
                0 <= i < r.chunks@.len() ==> #[trigger] r.chunks@[i].data@ == chunk_payload(message@, i),
            forall|i: int| 0 <= i < r.chunks@.len() ==> #[trigger] r.chunks@[i].kind == kind_at(i),
    {
        ProxySend { chunks: chunk(message), phase: SendPhase::Creating }
    }

    /// The session that finishes the startup identified by `startup_id`: it
    /// sets the id as a property of its window, then sends
    /// `remove: ID=<startup_id>\0` through a throwaway endpoint.
    pub fn for_startup_id(startup_id: &str) -> (r: Self)
        ensures
            r.wf(),
            r.phase is AdvertisingId,
            r.chunks@.len() == chunk_count(completion_message(startup_id.spec_bytes()).len()),
            forall|i: int|
                0 <= i < r.chunks@.len() ==> #[trigger] r.chunks@[i].data@ == chunk_payload(
                    completion_message(startup_id.spec_bytes()),
                    i,
                ),
            forall|i: int| 0 <= i < r.chunks@.len() ==> #[trigger] r.chunks@[i].kind == kind_at(i),
    {
        let message = build_message(startup_id);
        ProxySend { chunks: chunk(message.as_slice()), phase: SendPhase::AdvertisingId }
    }

    /// The action the driver is to perform next.
    pub fn action(&self) -> (r: ProxyAction)
        ensures
            r == action_of(self.phase),
    {
        match &self.phase {
            SendPhase::AdvertisingId => ProxyAction::SetStartupId,
            SendPhase::Creating => ProxyAction::CreateEndpoint,
            SendPhase::Sending { next } => ProxyAction::SendChunk { index: *next },
            SendPhase::Destroying { .. } => ProxyAction::DestroyEndpoint,
            SendPhase::Finished => ProxyAction::Done,
        }
    }

    /// Whether the session is over.
    pub fn is_finished(&self) -> (r: bool)
        ensures
            r == self.phase is Finished,
    {
        matches!(self.phase, SendPhase::Finished)
    }

    /// Records how the last action went and moves on. Returns the session's
    /// result once it is over: the first failure of a creation or a send, or
    /// success. The outcome of the destruction itself is ignored.
    pub fn step(&mut self, outcome: Result<(), ActivationError>) -> (r: Option<Result<(), ActivationError>>)
        requires
            old(self).wf(),
        ensures
            final(self).wf(),
            final(self).chunks@ == old(self).chunks@,
            final(self).phase == next_phase(old(self).phase, outcome, old(self).chunks@.len()),
            r == step_result(old(self).phase, outcome),
    {
        let mut phase = SendPhase::Finished;
        std::mem::swap(&mut phase, &mut self.phase);
        match phase {
            SendPhase::AdvertisingId => match outcome {
                Ok(()) => {
                    self.phase = SendPhase::Creating;
                    None
                },
                Err(e) => Some(Err(e)),
            },
            SendPhase::Creating => match outcome {
                Ok(()) => {
                    if self.chunks.len() == 0 {
                        self.phase = SendPhase::Destroying { outcome: Ok(()) };
                    } else {
                        self.phase = SendPhase::Sending { next: 0 };
                    }
                    None
                },
                Err(e) => Some(Err(e)),
            },
            SendPhase::Sending { next } => {
                assert(next < self.chunks@.len());
                match outcome {
                    Ok(()) => {
                        if next < self.chunks.len() - 1 {
                            self.phase = SendPhase::Sending { next: next + 1 };
                        } else {
                            self.phase = SendPhase::Destroying { outcome: Ok(()) };
                        }
                    },
                    Err(e) => {
                        self.phase = SendPhase::Destroying { outcome: Err(e) };
                    },
                }
                None
            },
            SendPhase::Destroying { outcome: kept } => Some(kept),
            SendPhase::Finished => None,
        }
    }
}

/// Once the endpoint exists, the session cannot end without asking for its
/// destruction: a step that finishes a session whose endpoint is live is the
/// step of the destroy action. A session only finishes without destroying
/// when setting the startup id or creating the endpoint failed, and then no
/// endpoint exists.
pub proof fn lemma_endpoint_destroyed_before_finish(
    phase: SendPhase,
    outcome: Result<(), ActivationError>,
    count: nat,
)
    ensures
        endpoint_live(phase) && next_phase(phase, outcome, count) is Finished
            ==> action_of(phase) == ProxyAction::DestroyEndpoint,
        !endpoint_live(phase) && !(phase is Finished) && next_phase(phase, outcome, count) is Finished
            ==> (phase is AdvertisingId || phase is Creating) && outcome is Err,
        step_result(phase, outcome) is Some <==> (next_phase(phase, outcome, count) is Finished
            && !(phase is Finished)),
{
}

/// Every session ends: each step from an unfinished phase lowers the bound on
/// the steps left, which starts at the chunk count plus three.
pub proof fn lemma_session_terminates(
    phase: SendPhase,
    outcome: Result<(), ActivationError>,
    count: nat,
)
    requires
        count <= usize::MAX,
        phase matches SendPhase::Sending { next } ==> next < count,
        !(phase is Finished),
    ensures
        steps_left(next_phase(phase, outcome, count), count) < steps_left(phase, count),
{
}

/// A failed send ends the sending at once: the next action destroys the
/// endpoint, and the failure is what the session returns.
pub proof fn lemma_send_failure_reported(next: usize, e: ActivationError, count: nat)
    ensures
        action_of(next_phase(SendPhase::Sending { next }, Err(e), count))
            == ProxyAction::DestroyEndpoint,
        step_result(next_phase(SendPhase::Sending { next }, Err(e), count), Ok(())) == Some(
            Err::<(), ActivationError>(e),
        ),
{
}

} // verus!
