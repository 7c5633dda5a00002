//! Keeping the one connection to the directory usable: how it is opened and
//! authenticated at startup, and how a request makes sure of it before it
//! goes to the directory.

use crate::directory::{DirectoryReply, DirectoryRequest, RequestModel};
use vstd::arithmetic::power2::{lemma_pow2_unfold, pow2};
use vstd::prelude::*;

verus! {

/// How long a check made while serving keeps trying. A round is a bind on
/// the connection at hand and, if that fails, a new connection and one bind
/// on it.
#[derive(Clone, Copy, Debug)]
pub struct RetryPolicy {
    /// The number of failed rounds after which a check gives up; `None` for
    /// a check that goes on until a bind is accepted.
    pub max_rounds: Option<u32>,
    /// The pause after the first failed round, in milliseconds. It doubles
    /// with every further failed round.
    pub base_delay_ms: u64,
    /// The longest pause, in milliseconds.
    pub max_delay_ms: u64,
}

/// Where the directory is, who the service is to it, and how hard it tries.
pub struct ServerState {
    pub ldap_server: String,
    pub username: String,
    pub password: String,
    pub retry: RetryPolicy,
}

/// Why the connection could not be made usable.
#[derive(Clone, Copy, Debug, PartialEq, Eq, Structural)]
pub enum SessionError {
    /// The directory rejected the bind.
    AuthError,
    /// The directory could not be reached.
    TransportError,
}

/// The step of a check whose reply is awaited.
#[derive(Clone, Copy, Debug, PartialEq, Eq, Structural)]
pub enum CheckPhase {
    /// At startup: the first connection is being opened.
    Connecting,
    /// At startup: the first connection is being authenticated.
    Authenticating,
    /// While serving: the connection at hand is being authenticated.
    Binding,
    /// While serving: the connection was dropped and a new one is being
    /// opened.
    Reconnecting,
    /// While serving: the new connection is being authenticated.
    Rebinding,
}

impl CheckPhase {
    /// Whether the phase belongs to a check made while serving, as opposed
    /// to the one at startup.
    pub open spec fn serving(self) -> bool {
        self is Binding || self is Reconnecting || self is Rebinding
    }

    /// Whether the request that is out in this phase is a bind.
    pub open spec fn awaits_bind(self) -> bool {
        self is Authenticating || self is Binding || self is Rebinding
    }

    /// How many requests of its round a serving check has behind it.
    pub open spec fn position(self) -> nat {
        match self {
            CheckPhase::Reconnecting => 1,
            CheckPhase::Rebinding => 2,
            _ => 0,
        }
    }
}

/// A check of the connection under way: the step whose reply is awaited,
/// and how many rounds have failed so far.
pub struct ConnectionCheck {
    phase: CheckPhase,
    failed_rounds: u32,
}

/// The mathematical content of a [`ConnectionCheck`].
pub struct CheckModel {
    pub phase: CheckPhase,
    pub failed_rounds: u32,
}

impl View for ConnectionCheck {
    type V = CheckModel;

    closed spec fn view(&self) -> CheckModel {
        CheckModel { phase: self.phase, failed_rounds: self.failed_rounds }
    }
}

/// What a check does next.
pub enum CheckStep {
    /// Wait for `delay_ms` milliseconds, send the request and come back
    /// with its reply.
    Continue { check: ConnectionCheck, delay_ms: u64, request: DirectoryRequest },
    /// The connection is bound: go ahead.
    Ready,
    /// The check has made all the rounds it was allowed, in vain.
    GaveUp(SessionError),
    /// The service cannot start.
    Fatal(SessionError),
}

/// The mathematical content of a [`CheckStep`].
pub enum CheckStepModel {
    Continue { check: CheckModel, delay_ms: u64, request: RequestModel },
    Ready,
    GaveUp(SessionError),
    Fatal(SessionError),
}

impl View for CheckStep {
    type V = CheckStepModel;

    open spec fn view(&self) -> CheckStepModel {
        match *self {
            CheckStep::Continue { check, delay_ms, request } => CheckStepModel::Continue {
                check: check@,
                delay_ms,
                request: request@,
            },
            CheckStep::Ready => CheckStepModel::Ready,
            CheckStep::GaveUp(error) => CheckStepModel::GaveUp(error),
            CheckStep::Fatal(error) => CheckStepModel::Fatal(error),
        }
    }
}

/// The request that authenticates the connection as the service.
pub open spec fn bind_request(state: ServerState) -> RequestModel {
    RequestModel::Bind { principal: state.username@, credential: state.password@ }
}

/// The request that replaces the connection by a new one, with encryption
/// negotiated where the directory offers it.
pub open spec fn connect_request(state: ServerState) -> RequestModel {
    RequestModel::Connect { server: state.ldap_server@, starttls: true }
}

/// The smaller of two numbers.
pub open spec fn least(a: int, b: int) -> int {
    if a <= b {
        a
    } else {
        b
    }
}

/// The pause after `failed_rounds` failed rounds: the base pause after the
/// first, twice the one before after each further one, and never more than
/// the longest pause.
pub open spec fn backoff_delay(policy: RetryPolicy, failed_rounds: nat) -> int
    decreases failed_rounds,
{
    if failed_rounds <= 1 {
        least(policy.base_delay_ms as int, policy.max_delay_ms as int)
    } else {
        least(
            2 * backoff_delay(policy, (failed_rounds - 1) as nat),
            policy.max_delay_ms as int,
        )
    }
}

/// One more failed round, counted no further than the counter goes.
pub open spec fn one_more(failed_rounds: u32) -> u32 {
    if failed_rounds < u32::MAX {
        (failed_rounds + 1) as u32
    } else {
        failed_rounds
    }
}

/// What a serving check does when a round has failed with `error`: give up
/// if that was the last round allowed, else pause and start the next round
/// with a bind on the connection at hand.
pub open spec fn after_failed_round(state: ServerState, check: CheckModel, error: SessionError)
    -> CheckStepModel {
    let failed = one_more(check.failed_rounds);
    if state.retry.max_rounds is Some && failed >= state.retry.max_rounds->0 {
        CheckStepModel::GaveUp(error)
    } else {
        CheckStepModel::Continue {
            check: CheckModel { phase: CheckPhase::Binding, failed_rounds: failed },
            delay_ms: backoff_delay(state.retry, failed as nat) as u64,
            request: bind_request(state),
        }
    }
}

/// What a check does when `reply` comes back for the step it awaits.
///
/// At startup a connection that cannot be opened or authenticated is fatal.
/// While serving, a bind that fails has the connection replaced and the bind
/// tried once on the new one; if the directory cannot be reached or rejects
/// that bind too, the round has failed.
pub open spec fn check_step(state: ServerState, check: CheckModel, reply: DirectoryReply)
    -> CheckStepModel {
    match check.phase {
        CheckPhase::Connecting => if reply.succeeded() {
            CheckStepModel::Continue {
                check: CheckModel { phase: CheckPhase::Authenticating, ..check },
                delay_ms: 0,
                request: bind_request(state),
            }
        } else {
            CheckStepModel::Fatal(SessionError::TransportError)
        },
        CheckPhase::Authenticating => if reply.succeeded() {
            CheckStepModel::Ready
        } else {
            CheckStepModel::Fatal(SessionError::AuthError)
        },
        CheckPhase::Binding => if reply.succeeded() {
            CheckStepModel::Ready
        } else {
            CheckStepModel::Continue {
                check: CheckModel { phase: CheckPhase::Reconnecting, ..check },
                delay_ms: 0,
                request: connect_request(state),
            }
        },
        CheckPhase::Reconnecting => if reply.succeeded() {
            CheckStepModel::Continue {
                check: CheckModel { phase: CheckPhase::Rebinding, ..check },
                delay_ms: 0,
                request: bind_request(state),
            }
        } else {
            after_failed_round(state, check, SessionError::TransportError)
        },
        CheckPhase::Rebinding => if reply.succeeded() {
            CheckStepModel::Ready
        } else {
            after_failed_round(state, check, SessionError::AuthError)
        },
    }
}

/// What a check has asked for, and how it ended if it has.
pub struct CheckRun {
    pub asked: Seq<RequestModel>,
    pub outcome: Option<Result<(), SessionError>>,
}

/// A check that hears `replies` in order, one for each request it sends,
/// for as long as it goes on: the requests it sends after the one that is
/// out, and its outcome.
pub open spec fn check_run(state: ServerState, check: CheckModel, replies: Seq<DirectoryReply>)
    -> CheckRun
    decreases replies.len(),
{
    if replies.len() == 0 {
        CheckRun { asked: Seq::empty(), outcome: None }
    } else {
        match check_step(state, check, replies[0]) {
            CheckStepModel::Continue { check: next, delay_ms, request } => {
                let rest = check_run(state, next, replies.drop_first());
                CheckRun { asked: seq![request] + rest.asked, outcome: rest.outcome }
            },
            CheckStepModel::Ready => CheckRun { asked: Seq::empty(), outcome: Some(Ok(())) },
            CheckStepModel::GaveUp(error) => CheckRun {
                asked: Seq::empty(),
                outcome: Some(Err(error)),
            },
            CheckStepModel::Fatal(error) => CheckRun {
                asked: Seq::empty(),
                outcome: Some(Err(error)),
            },
        }
    }
}

/// A pause is never longer than the longest pause.
pub proof fn lemma_backoff_delay_bounds(policy: RetryPolicy, failed_rounds: nat)
    ensures
        0 <= backoff_delay(policy, failed_rounds) <= policy.max_delay_ms,
    decreases failed_rounds,
{
    if failed_rounds > 1 {
        lemma_backoff_delay_bounds(policy, (failed_rounds - 1) as nat);
    }
}

/// Pauses do not get shorter from one failed round to the next.
pub proof fn lemma_backoff_delay_grows(policy: RetryPolicy, failed_rounds: nat)
    ensures
        backoff_delay(policy, failed_rounds) <= backoff_delay(policy, failed_rounds + 1),
    decreases failed_rounds,
{
    lemma_backoff_delay_bounds(policy, failed_rounds);
    if failed_rounds > 1 {
        lemma_backoff_delay_grows(policy, (failed_rounds - 1) as nat);
    }
}

/// The pauses are exponential: after `failed_rounds` failed rounds the
/// pause is the base pause times two to the number of rounds after the
/// first, or the longest pause if that is less.
pub proof fn lemma_backoff_delay_is_exponential(policy: RetryPolicy, failed_rounds: nat)
    requires
        failed_rounds >= 1,
    ensures
        backoff_delay(policy, failed_rounds) == least(
            policy.base_delay_ms * pow2((failed_rounds - 1) as nat),
            policy.max_delay_ms as int,
        ),
    decreases failed_rounds,
{
    let base = policy.base_delay_ms as int;
    if failed_rounds == 1 {
        vstd::arithmetic::power2::lemma2_to64();
        assert(base * 1 == base);
    } else {
        let before = pow2((failed_rounds - 2) as nat) as int;
        let now = pow2((failed_rounds - 1) as nat) as int;
        lemma_backoff_delay_is_exponential(policy, (failed_rounds - 1) as nat);
        lemma_pow2_unfold((failed_rounds - 1) as nat);
        assert(base * now == 2 * (base * before)) by (nonlinear_arith)
            requires
                now == 2 * before,
        ;
    }
}

/// Once a pause is the longest pause, or none at all, it stays so.
proof fn lemma_backoff_delay_settles(policy: RetryPolicy, from: nat, to: nat)
    requires
        1 <= from <= to,
        backoff_delay(policy, from) == policy.max_delay_ms || backoff_delay(policy, from) == 0,
    ensures
        backoff_delay(policy, to) == backoff_delay(policy, from),
    decreases to,
{
    if from < to {
        lemma_backoff_delay_settles(policy, from, (to - 1) as nat);
    }
}

/// A check says that the connection is ready exactly when the directory
/// has just accepted a bind: the connection is known to be bound at that
/// moment.
pub proof fn lemma_ready_means_bind_accepted(
    state: ServerState,
    check: CheckModel,
    reply: DirectoryReply,
)
    ensures
        check_step(state, check, reply) is Ready <==> check.phase.awaits_bind()
            && reply.succeeded(),
{
}

/// Which checks end in which error. Only the check at startup is ever
/// fatal. A check gives up only while serving under a limit on its rounds,
/// when a round has just failed and as many rounds have failed as the limit
/// allows.
pub proof fn lemma_errors_by_phase(state: ServerState, check: CheckModel, reply: DirectoryReply)
    ensures
        check_step(state, check, reply) is Fatal ==> !check.phase.serving()
            && !reply.succeeded(),
        check_step(state, check, reply) is GaveUp ==> {
            &&& check.phase.serving()
            &&& check.phase.position() > 0
            &&& !reply.succeeded()
            &&& state.retry.max_rounds is Some
            &&& one_more(check.failed_rounds) >= state.retry.max_rounds->0
        },
{
}

/// A check made while serving without a limit on its rounds never ends in
/// an error, whatever the directory answers and however often: it goes on
/// until a bind is accepted, and every request it sends on the way is a bind
/// or a new connection.
pub proof fn lemma_unlimited_check_never_fails(
    state: ServerState,
    check: CheckModel,
    replies: Seq<DirectoryReply>,
)
    requires
        check.phase.serving(),
        state.retry.max_rounds is None,
    ensures
        check_run(state, check, replies).outcome is None || check_run(
            state,
            check,
            replies,
        ).outcome == Some(Ok::<(), SessionError>(())),
        forall|i: int|
            0 <= i < check_run(state, check, replies).asked.len() ==> {
                let request = #[trigger] check_run(state, check, replies).asked[i];
                request == bind_request(state) || request == connect_request(state)
            },
    decreases replies.len(),
{
    if replies.len() > 0 {
        match check_step(state, check, replies[0]) {
            CheckStepModel::Continue { check: next, delay_ms, request } => {
                lemma_unlimited_check_never_fails(state, next, replies.drop_first());
            },
            _ => {},
        }
    }
}

/// A check made while serving without a limit on its rounds, whose
/// directory keeps failing, is still going after any number of replies.
pub proof fn lemma_unlimited_check_retries_without_bound(
    state: ServerState,
    check: CheckModel,
    replies: Seq<DirectoryReply>,
)
    requires
        check.phase.serving(),
        state.retry.max_rounds is None,
        forall|i: int| 0 <= i < replies.len() ==> !(#[trigger] replies[i]).succeeded(),
    ensures
        check_run(state, check, replies).outcome is None,
        check_run(state, check, replies).asked.len() == replies.len(),
    decreases replies.len(),
{
    if replies.len() > 0 {
        match check_step(state, check, replies[0]) {
            CheckStepModel::Continue { check: next, delay_ms, request } => {
                lemma_unlimited_check_retries_without_bound(state, next, replies.drop_first());
            },
            _ => {},
        }
    }
}

/// How many replies a serving check with a limit of `max_rounds` can still
/// take before it has ended: three for each round left, less what it has
/// behind it of the round it is in.
pub open spec fn replies_left(check: CheckModel, max_rounds: u32) -> int {
    if check.failed_rounds < max_rounds {
        3 * (max_rounds - check.failed_rounds) - check.phase.position()
    } else {
        3 - check.phase.position()
    }
}

/// A check made while serving with a limit on its rounds has ended, ready
/// or given up, once it has heard as many replies as it had left; it never
/// hangs.
pub proof fn lemma_limited_check_ends(
    state: ServerState,
    check: CheckModel,
    replies: Seq<DirectoryReply>,
)
    requires
        check.phase.serving(),
        state.retry.max_rounds is Some,
        replies.len() >= replies_left(check, state.retry.max_rounds->0),
    ensures
        check_run(state, check, replies).outcome is Some,
    decreases replies.len(),
{
    match check_step(state, check, replies[0]) {
        CheckStepModel::Continue { check: next, delay_ms, request } => {
            lemma_limited_check_ends(state, next, replies.drop_first());
        },
        _ => {},
    }
}

impl RetryPolicy {
    /// The policy of a check that goes on until a bind is accepted, without
    /// pause: the directory decides how long a request waits.
    pub fn unlimited() -> (policy: RetryPolicy)
        ensures
            policy.max_rounds is None,
            policy.base_delay_ms == 0,
            policy.max_delay_ms == 0,
    {
        RetryPolicy { max_rounds: None, base_delay_ms: 0, max_delay_ms: 0 }
    }

    /// The pause after `failed_rounds` failed rounds, in milliseconds.
    pub fn delay_ms(&self, failed_rounds: u32) -> (delay: u64)
        ensures
            delay == backoff_delay(*self, failed_rounds as nat),
    {
        let mut delay: u64 = if self.base_delay_ms <= self.max_delay_ms {
            self.base_delay_ms
        } else {
            self.max_delay_ms
        };
        let mut round: u32 = 1;
        while round < failed_rounds && 0 < delay && delay < self.max_delay_ms
            invariant
                1 <= round,
                round <= failed_rounds || round == 1,
                delay == backoff_delay(*self, round as nat),
            decreases failed_rounds - round,
        {
            delay = if delay <= self.max_delay_ms / 2 {
                2 * delay
            } else {
                self.max_delay_ms
            };
            round += 1;
        }
        proof {
            lemma_backoff_delay_bounds(*self, round as nat);
            if round < failed_rounds {
                lemma_backoff_delay_settles(*self, round as nat, failed_rounds as nat);
            }
        }
        delay
    }
}

impl ServerState {
    /// The request that authenticates the connection as the service.
    fn bind(&self) -> (request: DirectoryRequest)
        ensures
            request@ == bind_request(*self),
    {
        DirectoryRequest::Bind {
            principal: self.username.clone(),
            credential: self.password.clone(),
        }
    }

    /// The request that replaces the connection by a new one.
    fn connect(&self) -> (request: DirectoryRequest)
        ensures
            request@ == connect_request(*self),
    {
        DirectoryRequest::Connect { server: self.ldap_server.clone(), starttls: true }
    }

    /// Starts the check made at startup: hands out the request that opens
    /// the first connection, and the check to report its reply to.
    pub fn establish_ldap_connection(&self) -> (start: (ConnectionCheck, DirectoryRequest))
        ensures
            start.0@ == (CheckModel { phase: CheckPhase::Connecting, failed_rounds: 0 }),
            start.1@ == connect_request(*self),
    {
        (ConnectionCheck { phase: CheckPhase::Connecting, failed_rounds: 0 }, self.connect())
    }

    /// Starts the check made before a request goes to the directory: hands
    /// out the request that authenticates the connection at hand, and the
    /// check to report its reply to.
    pub fn check_connection(&self) -> (start: (ConnectionCheck, DirectoryRequest))
        ensures
            start.0@ == (CheckModel { phase: CheckPhase::Binding, failed_rounds: 0 }),
            start.1@ == bind_request(*self),
    {
        (ConnectionCheck { phase: CheckPhase::Binding, failed_rounds: 0 }, self.bind())
    }

    /// What a serving check does when a round has failed with `error`.
    fn round_failed(&self, failed_rounds: u32, error: SessionError) -> (step: CheckStep)
        ensures
            step@ == after_failed_round(
                *self,
                (CheckModel { phase: CheckPhase::Binding, failed_rounds }),
                error,
            ),
    {
        let failed: u32 = if failed_rounds < u32::MAX {
            failed_rounds + 1
        } else {
            failed_rounds
        };
        let last = match self.retry.max_rounds {
            Some(max_rounds) => failed >= max_rounds,
            None => false,
        };
        if last {
            CheckStep::GaveUp(error)
        } else {
            CheckStep::Continue {
                check: ConnectionCheck { phase: CheckPhase::Binding, failed_rounds: failed },
                delay_ms: self.retry.delay_ms(failed),
                request: self.bind(),
            }
        }
    }
}

impl ConnectionCheck {
    /// Takes the reply to the request that is out and says what to do next.
    pub fn advance(self, state: &ServerState, reply: DirectoryReply) -> (step: CheckStep)
        ensures
            step@ == check_step(*state, self@, reply),
    {
        let accepted = reply.is_success();
        let failed_rounds: u32 = self.failed_rounds;
        match self.phase {
            CheckPhase::Connecting => {
                if accepted {
                    CheckStep::Continue {
                        check: ConnectionCheck { phase: CheckPhase::Authenticating, failed_rounds },
                        delay_ms: 0,
                        request: state.bind(),
                    }
                } else {
                    CheckStep::Fatal(SessionError::TransportError)
                }
            },
            CheckPhase::Authenticating => {
                if accepted {
                    CheckStep::Ready
                } else {
                    CheckStep::Fatal(SessionError::AuthError)
                }
            },
            CheckPhase::Binding => {
                if accepted {
                    CheckStep::Ready
                } else {
                    CheckStep::Continue {
                        check: ConnectionCheck { phase: CheckPhase::Reconnecting, failed_rounds },
                        delay_ms: 0,
                        request: state.connect(),
                    }
                }
            },
            CheckPhase::Reconnecting => {
                if accepted {
                    CheckStep::Continue {
                        check: ConnectionCheck { phase: CheckPhase::Rebinding, failed_rounds },
                        delay_ms: 0,
                        request: state.bind(),
                    }
                } else {
                    state.round_failed(failed_rounds, SessionError::TransportError)
                }
            },
            CheckPhase::Rebinding => {
                if accepted {
                    CheckStep::Ready
                } else {
                    state.round_failed(failed_rounds, SessionError::AuthError)
                }
            },
        }
    }
}

} // verus!
