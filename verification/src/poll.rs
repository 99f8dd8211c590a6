use vstd::prelude::*;
use crate::errors::AuthError;
use crate::text::str_eq;

verus! {

/// Seconds added to the polling interval when the provider asks to slow
/// down without naming a new interval.
pub const SLOW_DOWN_INCREMENT: u64 = 5;

/// The freshly obtained credential. Produced exactly once per successful
/// flow; never persisted by this subsystem.
#[derive(Debug, Clone, PartialEq, Eq)]
pub struct AccessToken {
    pub secret: String,
}

/// The fields of a token-endpoint response that the poller reads. The
/// caller decodes the provider's JSON body and hands these in as plain
/// values; a field that the body lacks is `None`.
#[derive(Debug, Clone, PartialEq, Eq)]
pub struct TokenResponseFields {
    pub access_token: Option<String>,
    pub error: Option<String>,
    pub interval: Option<u64>,
}

/// One classified token-endpoint response. Drives the poller.
#[derive(Debug, Clone, PartialEq, Eq)]
pub enum PollOutcome {
    /// `authorization_pending`: the user has not decided yet.
    Pending,
    /// `slow_down`: poll less often, at the given interval if one was named.
    SlowDown(Option<u64>),
    /// The provider issued the token.
    Success(AccessToken),
    /// `access_denied`: the user rejected the request. Fatal.
    Denied,
    /// `expired_token`: the device code's lifetime elapsed. Fatal.
    Expired,
    /// Any other error or a malformed body. Fatal for this flow.
    TransientError(AuthError),
}

/// The response says the user has not yet approved.
pub open spec fn is_pending_response(f: TokenResponseFields) -> bool {
    f.error matches Some(e) && e@ == "authorization_pending"@
}

/// The response asks the poller to slow down.
pub open spec fn is_slow_down_response(f: TokenResponseFields) -> bool {
    f.error matches Some(e) && e@ == "slow_down"@
}

/// The response says the user rejected the request.
pub open spec fn is_denied_response(f: TokenResponseFields) -> bool {
    f.error matches Some(e) && e@ == "access_denied"@
}

/// The response says the device code has expired.
pub open spec fn is_expired_response(f: TokenResponseFields) -> bool {
    f.error matches Some(e) && e@ == "expired_token"@
}

/// The response carries a usable token and no error.
pub open spec fn is_success_response(f: TokenResponseFields) -> bool {
    &&& f.error is None
    &&& f.access_token matches Some(t) && t@.len() > 0
}

/// Classifies one token-endpoint response. An explicit `error` field wins
/// over anything else, as the provider never sends both; a body with
/// neither field, or with an empty token, is malformed.
pub fn classify_token_response(f: TokenResponseFields) -> (r: PollOutcome)
    ensures
        r is Pending <==> is_pending_response(f),
        r is SlowDown <==> is_slow_down_response(f),
        r matches PollOutcome::SlowDown(h) ==> h == f.interval,
        r is Denied <==> is_denied_response(f),
        r is Expired <==> is_expired_response(f),
        r is Success <==> is_success_response(f),
        r matches PollOutcome::Success(t) ==> f.access_token == Some(t.secret),
        r matches PollOutcome::TransientError(e) ==> (f.error matches Some(c) ==> e
            == AuthError::ProviderError(c)),
        r matches PollOutcome::TransientError(e) ==> (f.error is None ==> (e matches
            AuthError::MalformedResponse(c) && (c@ == "token response held neither an access token nor an error"@
            || c@ == "token response held an empty access token"@))),
{
    proof {
        reveal_strlit("authorization_pending");
        reveal_strlit("slow_down");
        reveal_strlit("access_denied");
        reveal_strlit("expired_token");
        assert("authorization_pending"@.len() == 21);
        assert("slow_down"@.len() == 9);
        assert("access_denied"@.len() == 13);
        assert("expired_token"@.len() == 13);
        assert("access_denied"@[0] == 'a');
        assert("expired_token"@[0] == 'e');
    }
    match f.error {
        Some(e) => {
            if str_eq(e.as_str(), "authorization_pending") {
                PollOutcome::Pending
            } else if str_eq(e.as_str(), "slow_down") {
                PollOutcome::SlowDown(f.interval)
            } else if str_eq(e.as_str(), "access_denied") {
                PollOutcome::Denied
            } else if str_eq(e.as_str(), "expired_token") {
                PollOutcome::Expired
            } else {
                PollOutcome::TransientError(AuthError::ProviderError(e))
            }
        },
        None => {
            match f.access_token {
                Some(t) => {
                    if t.as_str().is_empty() {
                        PollOutcome::TransientError(
                            AuthError::MalformedResponse(
                                "token response held an empty access token".to_owned(),
                            ),
                        )
                    } else {
                        PollOutcome::Success(AccessToken { secret: t })
                    }
                },
                None => {
                    PollOutcome::TransientError(
                        AuthError::MalformedResponse(
                            "token response held neither an access token nor an error".to_owned(),
                        ),
                    )
                },
            }
        },
    }
}

/// The poller's whole mutable state: the seconds to wait before the next
/// attempt. It only ever grows (see `lemma_intervals_nondecreasing`).
#[derive(Debug, Clone, Copy, PartialEq, Eq)]
pub struct PollerState {
    pub interval: u64,
}

/// A poller state is well formed when its interval respects the
/// provider-mandated minimum of one second.
pub open spec fn poller_wf(st: PollerState) -> bool {
    st.interval >= 1
}

/// The interval after a `slow_down`: the provider's new value if it names
/// one that is no decrease, otherwise the old interval raised by the fixed
/// increment (capped at the integer maximum).
pub open spec fn spec_next_interval(cur: u64, hint: Option<u64>) -> u64 {
    match hint {
        Some(h) => if h > cur {
            h
        } else {
            cur
        },
        None => if cur <= u64::MAX - SLOW_DOWN_INCREMENT {
            (cur + SLOW_DOWN_INCREMENT) as u64
        } else {
            u64::MAX
        },
    }
}

/// What the poller does after one classified response.
#[derive(Debug, PartialEq, Eq)]
pub enum PollStep {
    /// Sleep for the new state's interval, then poll again.
    Continue(PollerState),
    /// The loop is over, successfully or not.
    Done(Result<AccessToken, AuthError>),
}

/// The poller's transition function on one classified response.
pub open spec fn spec_poll_step(st: PollerState, o: PollOutcome) -> PollStep {
    match o {
        PollOutcome::Pending => PollStep::Continue(st),
        PollOutcome::SlowDown(h) => PollStep::Continue(
            (PollerState { interval: spec_next_interval(st.interval, h) }),
        ),
        PollOutcome::Success(t) => PollStep::Done(Ok(t)),
        PollOutcome::Denied => PollStep::Done(Err(AuthError::Denied)),
        PollOutcome::Expired => PollStep::Done(Err(AuthError::Expired)),
        PollOutcome::TransientError(e) => PollStep::Done(Err(e)),
    }
}

/// Advances the poller by one classified response.
///
/// A pending response keeps the loop alive and never yields a token; a
/// denial or expiry ends the loop at once with the matching error; the
/// interval never decreases while the loop continues.
pub fn poll_step(st: PollerState, o: PollOutcome) -> (r: PollStep)
    ensures
        r == spec_poll_step(st, o),
        o is Pending ==> r == PollStep::Continue(st),
        r matches PollStep::Continue(n) ==> n.interval >= st.interval,
        poller_wf(st) ==> (r matches PollStep::Continue(n) ==> poller_wf(n)),
        o is Denied ==> r == PollStep::Done(Err::<AccessToken, AuthError>(AuthError::Denied)),
        o is Expired ==> r == PollStep::Done(Err::<AccessToken, AuthError>(AuthError::Expired)),
{
    match o {
        PollOutcome::Pending => PollStep::Continue(st),
        PollOutcome::SlowDown(h) => {
            let next: u64 = match h {
                Some(hi) => if hi > st.interval {
                    hi
                } else {
                    st.interval
                },
                None => if st.interval <= u64::MAX - SLOW_DOWN_INCREMENT {
                    st.interval + SLOW_DOWN_INCREMENT
                } else {
                    u64::MAX
                },
            };
            PollStep::Continue((PollerState { interval: next }))
        },
        PollOutcome::Success(t) => PollStep::Done(Ok(t)),
        PollOutcome::Denied => PollStep::Done(Err(AuthError::Denied)),
        PollOutcome::Expired => PollStep::Done(Err(AuthError::Expired)),
        PollOutcome::TransientError(e) => PollStep::Done(Err(e)),
    }
}

/// The state after one response, for the pacing law: a finished loop keeps
/// its last state.
pub open spec fn spec_step_state(st: PollerState, o: PollOutcome) -> PollerState {
    match spec_poll_step(st, o) {
        PollStep::Continue(n) => n,
        PollStep::Done(_) => st,
    }
}

/// The state after a whole sequence of responses.
pub open spec fn spec_poller_after(st: PollerState, os: Seq<PollOutcome>) -> PollerState
    decreases os.len(),
{
    if os.len() == 0 {
        st
    } else {
        spec_poller_after(spec_step_state(st, os[0]), os.drop_first())
    }
}

/// No single response lowers the interval.
pub proof fn lemma_step_nondecreasing(st: PollerState, o: PollOutcome)
    ensures
        spec_step_state(st, o).interval >= st.interval,
{
}

/// No sequence of responses lowers the interval.
pub proof fn lemma_after_nondecreasing(st: PollerState, os: Seq<PollOutcome>)
    ensures
        spec_poller_after(st, os).interval >= st.interval,
    decreases os.len(),
{
    if os.len() > 0 {
        lemma_step_nondecreasing(st, os[0]);
        lemma_after_nondecreasing(spec_step_state(st, os[0]), os.drop_first());
    }
}

/// Running the poller over `os1` and then `os2` is running it over their
/// concatenation.
pub proof fn lemma_after_split(st: PollerState, os1: Seq<PollOutcome>, os2: Seq<PollOutcome>)
    ensures
        spec_poller_after(st, os1 + os2) == spec_poller_after(spec_poller_after(st, os1), os2),
    decreases os1.len(),
{
    if os1.len() == 0 {
        assert(os1 + os2 =~= os2);
    } else {
        assert((os1 + os2).drop_first() =~= os1.drop_first() + os2);
        lemma_after_split(spec_step_state(st, os1[0]), os1.drop_first(), os2);
    }
}

/// The pacing law: over any run of the poller, the interval used on a later
/// attempt is at least the interval used on an earlier one.
pub proof fn lemma_intervals_nondecreasing(st: PollerState, os: Seq<PollOutcome>, i: int, j: int)
    requires
        0 <= i <= j <= os.len(),
    ensures
        spec_poller_after(st, os.take(i)).interval <= spec_poller_after(st, os.take(j)).interval,
{
    assert(os.take(j) =~= os.take(i) + os.subrange(i, j));
    lemma_after_split(st, os.take(i), os.subrange(i, j));
    lemma_after_nondecreasing(spec_poller_after(st, os.take(i)), os.subrange(i, j));
}

} // verus!

