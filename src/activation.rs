//! The pending activation of an event loop: the token that the next window
//! will carry, and the deadline after which a window is made without waiting
//! any longer for a requested token.
//!
//! Times are milliseconds on the event loop's own clock. A deadline is held
//! in a wider integer than the clock, so that `now + TOKEN_WAIT_MS` never
//! overflows.

use vstd::prelude::*;

verus! {

/// How long a requested token is waited for, in milliseconds.
pub const TOKEN_WAIT_MS: u64 = 2000;

/// The stage of a pending activation.
#[derive(Debug, Copy, Clone, PartialEq, Eq, Structural)]
pub enum ActivationPhase {
    /// No token and no deadline.
    Idle,
    /// A token was requested and has not arrived; the deadline is armed.
    AwaitingToken,
    /// A token is present for the next window.
    Ready,
}

/// The token for the next window, and the deadline for making it.
#[derive(Debug)]
pub struct PendingActivation {
    pub token: Option<String>,
    pub deadline: Option<u128>,
}

/// The stage that `s` is in.
pub open spec fn phase_of(s: PendingActivation) -> ActivationPhase {
    if s.token is Some {
        ActivationPhase::Ready
    } else if s.deadline is Some {
        ActivationPhase::AwaitingToken
    } else {
        ActivationPhase::Idle
    }
}

/// The deadline armed at `now`: `now` plus the wait.
pub open spec fn wait_deadline(now: u64) -> u128 {
    (now + TOKEN_WAIT_MS) as u128
}

/// Nothing pending.
pub open spec fn idle() -> PendingActivation {
    PendingActivation { token: None, deadline: None }
}

/// The state after a token was requested at `now`.
pub open spec fn requested(now: u64) -> PendingActivation {
    PendingActivation { token: None, deadline: Some(wait_deadline(now)) }
}

/// The state after `token` arrived at `now`.
pub open spec fn arrived(token: String, now: u64) -> PendingActivation {
    PendingActivation { token: Some(token), deadline: Some(wait_deadline(now)) }
}

/// Whether the deadline of `s` is armed and has passed at `now`.
pub open spec fn deadline_passed(s: PendingActivation, now: u64) -> bool {
    s.deadline matches Some(d) && d <= now as u128
}

/// The state after the window a request was made for closed: an awaited
/// request is dropped; anything else stays.
pub open spec fn after_close(s: PendingActivation) -> PendingActivation {
    if phase_of(s) == ActivationPhase::AwaitingToken {
        idle()
    } else {
        s
    }
}

/// The state after a token event at `now` carrying `token`: only an awaited
/// request takes it; a token for a request that was dropped, or one that
/// comes while a token is already held, is ignored.
pub open spec fn after_token(s: PendingActivation, token: String, now: u64) -> PendingActivation {
    if phase_of(s) == ActivationPhase::AwaitingToken {
        arrived(token, now)
    } else {
        s
    }
}

impl PendingActivation {
    /// The state at process start, from the token the environment supplied
    /// if any: `Ready` with that token, else `Idle`.
    pub fn from_environment(env_token: Option<String>) -> (r: Self)
        ensures
            r.token == env_token,
            r.deadline is None,
            phase_of(r) == (if env_token is Some {
                ActivationPhase::Ready
            } else {
                ActivationPhase::Idle
            }),
    {
        PendingActivation { token: env_token, deadline: None }
    }

    /// The current stage.
    pub fn phase(&self) -> (r: ActivationPhase)
        ensures
            r == phase_of(*self),
    {
        if self.token.is_some() {
            ActivationPhase::Ready
        } else if self.deadline.is_some() {
            ActivationPhase::AwaitingToken
        } else {
            ActivationPhase::Idle
        }
    }

    /// The instant the event loop should wake up at, if any.
    pub fn wait_until(&self) -> (r: Option<u128>)
        ensures
            r == self.deadline,
    {
        self.deadline
    }

    /// A new token was requested at `now`: wait for it until the deadline.
    pub fn request_token(&mut self, now: u64)
        ensures
            *final(self) == requested(now),
            phase_of(*final(self)) == ActivationPhase::AwaitingToken,
    {
        self.token = None;
        self.deadline = Some(now as u128 + TOKEN_WAIT_MS as u128);
    }

    /// A `token` arrived at `now`. While a request is awaited, keep it for
    /// the next window and refresh the deadline. Otherwise the request it
    /// answers was dropped or already answered: ignore it.
    pub fn token_ready(&mut self, token: String, now: u64)
        ensures
            *final(self) == after_token(*old(self), token, now),
            phase_of(*old(self)) == ActivationPhase::AwaitingToken ==> *final(self) == arrived(
                token,
                now,
            ) && phase_of(*final(self)) == ActivationPhase::Ready,
            phase_of(*old(self)) != ActivationPhase::AwaitingToken ==> *final(self) == *old(self),
    {
        if self.token.is_none() && self.deadline.is_some() {
            self.token = Some(token);
            self.deadline = Some(now as u128 + TOKEN_WAIT_MS as u128);
        }
    }

    /// A new event cycle at `now`. When the deadline has passed, a window is
    /// to be made: returns `Some` with the token it is to carry, if any, and
    /// leaves nothing pending. Otherwise returns `None` and changes nothing.
    pub fn tick(&mut self, now: u64) -> (r: Option<Option<String>>)
        ensures
            deadline_passed(*old(self), now) ==> r == Some(old(self).token) && *final(self)
                == idle(),
            !deadline_passed(*old(self), now) ==> r is None && *final(self) == *old(self),
    {
        let passed = match self.deadline {
            Some(d) => d <= now as u128,
            None => false,
        };
        if passed {
            Some(self.window_created())
        } else {
            None
        }
    }

    /// A window is being made: it takes the token, if any, and nothing is
    /// left pending.
    pub fn window_created(&mut self) -> (r: Option<String>)
        ensures
            r == old(self).token,
            *final(self) == idle(),
    {
        let token = self.token.take();
        self.deadline = None;
        token
    }

    /// The window the token was requested for closed: a request still
    /// awaited is dropped; anything else stays.
    pub fn window_closed(&mut self)
        ensures
            *final(self) == after_close(*old(self)),
            phase_of(*old(self)) == ActivationPhase::AwaitingToken ==> *final(self) == idle(),
            phase_of(*old(self)) != ActivationPhase::AwaitingToken ==> *final(self) == *old(self),
    {
        if self.token.is_none() && self.deadline.is_some() {
            self.deadline = None;
        }
    }
}

/// A request at `now` arms the deadline `now + TOKEN_WAIT_MS` with no token
/// yet; before the deadline the loop keeps waiting, and once it has passed
/// without a token the next window is made untagged.
pub proof fn lemma_request_deadline(now: u64, t: u64)
    ensures
        phase_of(requested(now)) == ActivationPhase::AwaitingToken,
        requested(now).token is None,
        requested(now).deadline == Some((now + TOKEN_WAIT_MS) as u128),
        t < now + TOKEN_WAIT_MS ==> !deadline_passed(requested(now), t),
        t >= now + TOKEN_WAIT_MS ==> deadline_passed(requested(now), t),
{
}

/// A token that arrives while its request is awaited moves the activation to
/// `Ready` at once, and the next window made, by a tick past the refreshed
/// deadline or directly, carries it.
pub proof fn lemma_token_tags_next_window(now: u64, token: String, at: u64, t: u64)
    ensures
        phase_of(after_token(requested(now), token, at)) == ActivationPhase::Ready,
        after_token(requested(now), token, at).token == Some(token),
        t >= at + TOKEN_WAIT_MS ==> deadline_passed(after_token(requested(now), token, at), t),
{
}

/// A request whose window closed is dropped for good: a token that answers
/// it later changes nothing, so no window is ever given that token.
pub proof fn lemma_dropped_request_ignores_token(s: PendingActivation, token: String, at: u64)
    requires
        phase_of(s) == ActivationPhase::AwaitingToken,
    ensures
        after_close(s) == idle(),
        after_token(after_close(s), token, at) == idle(),
        after_token(after_close(s), token, at).token is None,
{
}

} // verus!
