use vstd::prelude::*;
use crate::device::AuthFlowState;
use crate::device::DeviceResponseFields;
use crate::device::device_authorization_from_response;
use crate::device::device_fields_complete;
use crate::device::into_flow_state;
use crate::device::spec_effective_interval;
use crate::errors::AuthError;
use crate::poll::AccessToken;
use crate::poll::PollStep;
use crate::poll::PollerState;
use crate::poll::TokenResponseFields;
use crate::poll::classify_token_response;
use crate::poll::is_denied_response;
use crate::poll::is_expired_response;
use crate::poll::is_pending_response;
use crate::poll::is_slow_down_response;
use crate::poll::is_success_response;
use crate::poll::poll_step;
use crate::poll::poller_wf;
use crate::poll::spec_next_interval;
use crate::server::CallbackServer;
use crate::text::local_url;
use crate::text::spec_local_url;

verus! {

/// The phase of one authentication flow. A flow moves from `Idle` through
/// `AwaitingUserApproval`, `Polling` and `Binding` to `TokenServed` and
/// finally `Closed`; `Failed` is terminal, and the error behind it is the
/// one the failing operation returned. A failed flow is discarded and a
/// fresh one started.
#[derive(Debug, Clone, Copy, PartialEq, Eq, Structural)]
pub enum FlowPhase {
    Idle,
    AwaitingUserApproval,
    Polling,
    Binding,
    TokenServed,
    Closed,
    Failed,
}

/// One authentication flow, sequencing device-code acquisition, token
/// polling and the callback server. The flow owns the record of the bound
/// server, so starting and closing operate on it directly instead of
/// guessing about a shared port.
///
/// The caller drives it: after `start` it shows the user code, then
/// `begin_polling` opens the completion step, each provider response goes
/// through `on_poll_response`, and the returned action says what to do
/// next (sleep and poll again, bind the callback server, or give up).
#[derive(Debug)]
pub struct AuthFlow {
    pub phase: FlowPhase,
    pub poller: Option<PollerState>,
    pub server: Option<CallbackServer>,
    /// The process-wide port the callback server binds.
    pub port: u16,
}

/// A flow is well formed when its parts exist exactly in the phases that
/// use them: a poller while polling, a bound server only once the token is
/// served, and never on a foreign port.
pub open spec fn flow_wf(fl: AuthFlow) -> bool {
    &&& fl.phase is Polling <==> fl.poller is Some
    &&& fl.poller matches Some(p) ==> poller_wf(p)
    &&& fl.server is Some <==> fl.phase is TokenServed
    &&& fl.server matches Some(s) ==> s.port == fl.port
}

/// What the caller must do next while completing a flow.
#[derive(Debug, PartialEq, Eq)]
pub enum PollAdvance {
    /// Sleep this many seconds, poll the token endpoint once, and hand the
    /// response fields back to `on_poll_response`.
    Sleep(u64),
    /// Polling succeeded: bind the callback server on the flow's port and
    /// report the result to `on_bind_result`.
    Bind(AccessToken),
    /// The flow failed with this terminal error.
    Fail(AuthError),
}

impl AuthFlow {
    /// A fresh, idle flow whose callback server will use `port`.
    pub fn new(port: u16) -> (r: AuthFlow)
        ensures
            r.phase is Idle,
            r.poller is None,
            r.server is None,
            r.port == port,
            flow_wf(r),
    {
        AuthFlow { phase: FlowPhase::Idle, poller: None, server: None, port }
    }

    /// Starts the flow from one device-authorization response: on success
    /// the caller gets the snapshot to display, otherwise the error, and
    /// the flow is dead. No server is bound either way.
    pub fn start(&mut self, status_success: bool, fields: DeviceResponseFields) -> (r: Result<
        AuthFlowState,
        AuthError,
    >)
        requires
            old(self).phase is Idle,
            flow_wf(*old(self)),
        ensures
            flow_wf(*final(self)),
            final(self).port == old(self).port,
            final(self).server is None,
            r is Ok <==> status_success && device_fields_complete(fields),
            r is Ok <==> final(self).phase is AwaitingUserApproval,
            r is Err ==> final(self).phase is Failed,
            r matches Ok(st) ==> ({
                &&& fields.device_code == Some(st.device_code)
                &&& fields.user_code == Some(st.user_code)
                &&& fields.verification_uri == Some(st.verification_uri)
                &&& st.interval == spec_effective_interval(fields.interval)
                &&& st.interval >= 1
                &&& st.device_code@.len() > 0
            }),
            !status_success ==> (r matches Err(e) && e matches AuthError::ProviderError(c)
                && c@ == "device authorization request returned a failure status"@),
            status_success && !device_fields_complete(fields) ==> (r matches Err(e) && e matches
                AuthError::MalformedResponse(c)
                && c@ == "device authorization response lacked a required field"@),
    {
        match device_authorization_from_response(status_success, fields) {
            Ok(d) => {
                self.phase = FlowPhase::AwaitingUserApproval;
                Ok(into_flow_state(d))
            },
            Err(e) => {
                self.phase = FlowPhase::Failed;
                Err(e)
            },
        }
    }

    /// Opens the completion step: the caller re-submits the device code and
    /// interval it was handed by `start`, and is told how long to sleep
    /// before the first poll attempt.
    #[allow(unused_variables)]
    pub fn begin_polling(&mut self, device_code: &str, interval: u64) -> (sleep_for: u64)
        requires
            old(self).phase is AwaitingUserApproval,
            flow_wf(*old(self)),
            device_code@.len() > 0,
            interval >= 1,
        ensures
            flow_wf(*final(self)),
            final(self).phase is Polling,
            final(self).poller == (Some(PollerState { interval })),
            final(self).server is None,
            final(self).port == old(self).port,
            sleep_for == interval,
    {
        self.poller = Some(PollerState { interval });
        self.phase = FlowPhase::Polling;
        interval
    }

    /// Advances the flow by one token-endpoint response.
    ///
    /// A pending response keeps the flow polling at an unchanged interval;
    /// a slow-down raises the interval and keeps polling; a token moves the
    /// flow to binding; a denial or expiry kills the flow at once with the
    /// matching error, and so does any unrecognised or malformed response.
    pub fn on_poll_response(&mut self, fields: TokenResponseFields) -> (r: PollAdvance)
        requires
            old(self).phase is Polling,
            flow_wf(*old(self)),
        ensures
            flow_wf(*final(self)),
            final(self).port == old(self).port,
            final(self).server is None,
            r is Sleep <==> final(self).phase is Polling,
            r is Sleep <==> is_pending_response(fields) || is_slow_down_response(fields),
            r is Fail <==> !(is_pending_response(fields) || is_slow_down_response(fields)
                || is_success_response(fields)),
            r matches PollAdvance::Sleep(s) ==> (final(self).poller matches Some(n) && n.interval
                == s && s >= old(self).poller->0.interval),
            is_pending_response(fields) ==> r == PollAdvance::Sleep(
                old(self).poller->0.interval,
            ) && final(self).poller == old(self).poller,
            is_slow_down_response(fields) ==> r == PollAdvance::Sleep(
                spec_next_interval(old(self).poller->0.interval, fields.interval),
            ),
            is_denied_response(fields) ==> r == PollAdvance::Fail(AuthError::Denied),
            is_expired_response(fields) ==> r == PollAdvance::Fail(AuthError::Expired),
            is_success_response(fields) ==> (r matches PollAdvance::Bind(t) && fields.access_token
                == Some(t.secret) && final(self).phase is Binding),
            r is Bind <==> is_success_response(fields),
            r is Fail ==> final(self).phase is Failed,
            r matches PollAdvance::Fail(e) ==> (fields.error matches Some(c) ==> ((
            !is_denied_response(fields) && !is_expired_response(fields)) ==> e
                == AuthError::ProviderError(c))),
            r matches PollAdvance::Fail(e) ==> (fields.error is None ==> e matches
                AuthError::MalformedResponse(_)),
    {
        let st = self.poller.unwrap();
        let outcome = classify_token_response(fields);
        match poll_step(st, outcome) {
            PollStep::Continue(n) => {
                self.poller = Some(n);
                PollAdvance::Sleep(n.interval)
            },
            PollStep::Done(Ok(t)) => {
                self.poller = None;
                self.phase = FlowPhase::Binding;
                PollAdvance::Bind(t)
            },
            PollStep::Done(Err(e)) => {
                self.poller = None;
                self.phase = FlowPhase::Failed;
                PollAdvance::Fail(e)
            },
        }
    }

    /// Records the outcome of binding the callback server. A successful
    /// bind serves the token and yields the local URL; a port conflict
    /// surfaces as `BindError` and kills the flow.
    pub fn on_bind_result(&mut self, token: AccessToken, bound: bool) -> (r: Result<
        String,
        AuthError,
    >)
        requires
            old(self).phase is Binding,
            flow_wf(*old(self)),
        ensures
            flow_wf(*final(self)),
            final(self).port == old(self).port,
            bound ==> ({
                &&& r matches Ok(url) && url@ == spec_local_url(old(self).port)
                &&& final(self).phase is TokenServed
                &&& final(self).server matches Some(s) && s.token == token && s.port == old(
                    self,
                ).port && !s.closed
            }),
            !bound ==> ({
                &&& r == Err::<String, AuthError>(AuthError::BindError)
                &&& final(self).phase is Failed
                &&& final(self).server is None
            }),
    {
        if bound {
            let url = local_url(self.port);
            self.server = Some(CallbackServer::bound(token, self.port));
            self.phase = FlowPhase::TokenServed;
            Ok(url)
        } else {
            self.phase = FlowPhase::Failed;
            Err(AuthError::BindError)
        }
    }

    /// Best-effort teardown. Whatever phase the flow is in, and whether or
    /// not the advisory close request reached the server, the record of the
    /// server is dropped and the call reports success; closing twice
    /// succeeds twice.
    #[allow(unused_variables)]
    pub fn close(&mut self, delivery_ok: bool) -> (r: Result<(), AuthError>)
        requires
            flow_wf(*old(self)),
        ensures
            flow_wf(*final(self)),
            r is Ok,
            final(self).server is None,
            final(self).port == old(self).port,
            final(self).poller == old(self).poller,
            final(self).phase == spec_close_phase(old(self).phase),
    {
        self.server = None;
        if self.phase == FlowPhase::TokenServed {
            self.phase = FlowPhase::Closed;
        }
        Ok(())
    }
}

/// The phase after a close: a flow that was serving its token is closed,
/// any other flow is left as it was.
pub open spec fn spec_close_phase(p: FlowPhase) -> FlowPhase {
    if p is TokenServed {
        FlowPhase::Closed
    } else {
        p
    }
}

/// Teardown is idempotent: a second close leaves the flow exactly where
/// the first one left it, and, like every close, it succeeds.
pub proof fn lemma_close_idempotent(p: FlowPhase)
    ensures
        spec_close_phase(spec_close_phase(p)) == spec_close_phase(p),
{
}

/// A flow that has not reached the token-served phase holds no bound
/// server: in particular, a flow that was only started, and never
/// completed, never bound a listener.
pub proof fn lemma_no_server_unless_served(fl: AuthFlow)
    requires
        flow_wf(fl),
        !(fl.phase is TokenServed),
    ensures
        fl.server is None,
{
}

} // verus!
