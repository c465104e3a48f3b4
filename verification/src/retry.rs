//! The retry policy and the dispatch state machine.
//!
//! One dispatch is a sequence of attempts. Each attempt yields a [`Reply`]:
//! the transport either failed, or it delivered the node's own answer, which
//! is a value or an [`RpcError`]. Only one answer makes the dispatch try
//! again: the error by which the node says that it is still starting.

use vstd::prelude::*;

verus! {

/// The error code by which the node reports that it is still starting up.
pub const NODE_BUSY: i64 = -28;

/// The number of busy replies that a client tolerates unless told otherwise.
pub const DEFAULT_MAX_ATTEMPTS: u32 = 10;

/// The pause between two attempts, in milliseconds, unless told otherwise.
pub const DEFAULT_INTERVAL: u64 = 500;

/// An error that the node itself reported in a well-formed response.
#[derive(Clone, Debug, PartialEq, Eq)]
pub struct RpcError {
    pub code: i64,
    pub message: String,
}

/// The outcome of one attempt: the outer layer is the transport's, the inner
/// layer the node's.
pub type Reply<T, E> = Result<Result<T, RpcError>, E>;

/// How often a busy node is asked again, and how long to wait in between.
#[derive(Clone, Copy, Debug, PartialEq, Eq)]
pub struct RetryPolicy {
    pub max_attempts: u32,
    /// Milliseconds.
    pub interval: u64,
}

/// The policy of a client that was told nothing else.
pub open spec fn default_retry_policy() -> RetryPolicy {
    RetryPolicy { max_attempts: DEFAULT_MAX_ATTEMPTS, interval: DEFAULT_INTERVAL }
}

impl Default for RetryPolicy {
    fn default() -> (policy: Self)
        ensures
            policy == default_retry_policy(),
    {
        RetryPolicy { max_attempts: DEFAULT_MAX_ATTEMPTS, interval: DEFAULT_INTERVAL }
    }
}

/// Whether a reply is the node's busy signal.
pub open spec fn is_busy<T, E>(reply: Reply<T, E>) -> bool {
    reply matches Ok(Err(error)) && error.code == NODE_BUSY
}

impl RpcError {
    /// Whether this error is the node's busy signal.
    pub fn is_node_busy(&self) -> (busy: bool)
        ensures
            busy == (self.code == NODE_BUSY),
    {
        self.code == NODE_BUSY
    }
}

/// Whether a reply is the node's busy signal.
pub fn is_node_busy<T, E>(reply: &Reply<T, E>) -> (busy: bool)
    ensures
        busy == is_busy(*reply),
{
    match reply {
        Ok(Err(error)) => error.is_node_busy(),
        _ => false,
    }
}

/// What the two fields of a decoded response body mean. A body answers with
/// a result or with an error; one that holds both, or neither, is no answer
/// of the node at all.
pub open spec fn answer_of<T>(result: Option<T>, error: Option<RpcError>) -> Option<
    Result<T, RpcError>,
> {
    match (result, error) {
        (Some(value), None) => Some(Ok(value)),
        (None, Some(error)) => Some(Err(error)),
        _ => None,
    }
}

/// Reads the two fields of a decoded response body. `None` says that the body
/// is malformed: the caller reports it as a failure of the transport, never
/// as an error of the node.
pub fn interpret<T>(result: Option<T>, error: Option<RpcError>) -> (answer: Option<
    Result<T, RpcError>,
>)
    ensures
        answer == answer_of(result, error),
{
    match (result, error) {
        (Some(value), None) => Some(Ok(value)),
        (None, Some(error)) => Some(Err(error)),
        _ => None,
    }
}

/// The progress of one dispatch: how many more busy replies it will answer
/// with another attempt, and the pause before each.
#[derive(Clone, Copy, Debug, PartialEq, Eq)]
pub struct Dispatch {
    pub remaining: u32,
    pub interval: u64,
}

/// What to do after an attempt.
#[derive(Debug, PartialEq, Eq)]
pub enum Next<T, E> {
    /// Hand this reply to the caller; the dispatch is over.
    Return(Reply<T, E>),
    /// Wait `wait` milliseconds, attempt again, and go on from `then`.
    Retry { wait: u64, then: Dispatch },
}

impl Dispatch {
    /// The dispatch that a policy starts with. Without a policy nothing is
    /// ever retried.
    pub open spec fn start(policy: Option<RetryPolicy>) -> Dispatch {
        match policy {
            Some(policy) => Dispatch { remaining: policy.max_attempts, interval: policy.interval },
            None => Dispatch { remaining: 0, interval: 0 },
        }
    }

    /// The decision after an attempt that yielded `reply`.
    pub open spec fn step<T, E>(self, reply: Reply<T, E>) -> Next<T, E> {
        if self.remaining > 0 && is_busy(reply) {
            Next::Retry {
                wait: self.interval,
                then: Dispatch { remaining: (self.remaining - 1) as u32, interval: self.interval },
            }
        } else {
            Next::Return(reply)
        }
    }

    /// Starts a dispatch under `policy`.
    pub fn begin(policy: Option<RetryPolicy>) -> (dispatch: Dispatch)
        ensures
            dispatch == Dispatch::start(policy),
    {
        match policy {
            Some(policy) => Dispatch { remaining: policy.max_attempts, interval: policy.interval },
            None => Dispatch { remaining: 0, interval: 0 },
        }
    }

    /// Decides what follows an attempt. A busy reply is answered with a pause
    /// and another attempt while any are left; every other reply, and the
    /// busy reply of the last attempt, goes back to the caller as it came.
    pub fn on_reply<T, E>(self, reply: Reply<T, E>) -> (next: Next<T, E>)
        ensures
            next == self.step(reply),
    {
        if self.remaining > 0 && is_node_busy(&reply) {
            Next::Retry {
                wait: self.interval,
                then: Dispatch { remaining: self.remaining - 1, interval: self.interval },
            }
        } else {
            Next::Return(reply)
        }
    }
}

/// Whether `replies`, in the order the attempts yielded them, are one whole
/// dispatch that may absorb `budget` busy replies: every reply but the last
/// was the busy signal, and the last either is not, or came from the attempt
/// after the budget ran out.
pub open spec fn is_run<T, E>(budget: nat, replies: Seq<Reply<T, E>>) -> bool {
    &&& 1 <= replies.len() <= budget + 1
    &&& forall|k: int| 0 <= k < replies.len() - 1 ==> is_busy(#[trigger] replies[k])
    &&& (replies.len() == budget + 1 || !is_busy(replies.last()))
}

/// Whether `call` may have yielded `replies`, attempt by attempt.
pub open spec fn yields<T, E, C: Fn(u32) -> Reply<T, E>>(call: C, replies: Seq<Reply<T, E>>) -> bool {
    forall|k: int| 0 <= k < replies.len() ==> call_ensures(call, (k as u32,), #[trigger] replies[k])
}

/// Performs one dispatch. `call` makes the attempt whose number it is given,
/// counted from zero and never above the policy's budget; `pause` waits the
/// milliseconds it is given, which is always the policy's interval. The
/// replies seen form one run under the policy's budget, and the last of them
/// is returned as it came.
pub fn dispatch<T, E, C: Fn(u32) -> Reply<T, E>, W: Fn(u64)>(
    policy: Option<RetryPolicy>,
    call: C,
    pause: W,
) -> (reply: Reply<T, E>)
    requires
        forall|attempt: u32|
            attempt <= Dispatch::start(policy).remaining ==> call_requires(call, (attempt,)),
        call_requires(pause, (Dispatch::start(policy).interval,)),
    ensures
        exists|replies: Seq<Reply<T, E>>|
            is_run(Dispatch::start(policy).remaining as nat, replies) && yields(call, replies)
                && #[trigger] replies.last() == reply,
{
    let mut state = Dispatch::begin(policy);
    let mut attempt: u32 = 0;
    let ghost budget = state.remaining as nat;
    let ghost mut seen: Seq<Reply<T, E>> = Seq::empty();
    loop
        invariant
            forall|attempt: u32| attempt <= budget ==> call_requires(call, (attempt,)),
            call_requires(pause, (state.interval,)),
            budget == Dispatch::start(policy).remaining,
            attempt + state.remaining == budget,
            seen.len() == attempt,
            yields(call, seen),
            forall|k: int| 0 <= k < seen.len() ==> is_busy(#[trigger] seen[k]),
        decreases state.remaining,
    {
        let reply = call(attempt);
        proof {
            seen = seen.push(reply);
        }
        match state.on_reply(reply) {
            Next::Return(reply) => {
                assert(is_run(budget, seen));
                assert(seen.last() == reply);
                return reply;
            },
            Next::Retry { wait, then } => {
                pause(wait);
                state = then;
                attempt = attempt + 1;
            },
        }
    }
}

impl Dispatch {
    /// Whether the state machine, fed `replies` one by one from this state,
    /// asks for another attempt after each reply but the last and returns at
    /// the last.
    pub open spec fn settles<T, E>(self, replies: Seq<Reply<T, E>>) -> bool
        decreases replies.len(),
    {
        replies.len() > 0 && match self.step(replies[0]) {
            Next::Return(_) => replies.len() == 1,
            Next::Retry { then, .. } => then.settles(replies.drop_first()),
        }
    }

    /// The milliseconds that the state machine asks to wait in all while it is
    /// fed `replies` from this state.
    pub open spec fn waited<T, E>(self, replies: Seq<Reply<T, E>>) -> nat
        decreases replies.len(),
    {
        if replies.len() == 0 {
            0
        } else {
            match self.step(replies[0]) {
                Next::Return(_) => 0,
                Next::Retry { wait, then } => wait as nat + then.waited(replies.drop_first()),
            }
        }
    }
}

/// The runs are exactly the sequences of replies on which the state machine
/// settles: it retries after every reply but the last, and returns the last.
pub proof fn run_is_what_the_machine_settles_on<T, E>(state: Dispatch, replies: Seq<Reply<T, E>>)
    ensures
        state.settles(replies) <==> is_run(state.remaining as nat, replies),
    decreases replies.len(),
{
    if replies.len() > 0 {
        let rest = replies.drop_first();
        match state.step(replies[0]) {
            Next::Return(_) => {
                if replies.len() > 1 && is_run(state.remaining as nat, replies) {
                    assert(is_busy(replies[0]));
                }
            },
            Next::Retry { then, .. } => {
                run_is_what_the_machine_settles_on(then, rest);
                assert(forall|k: int| 0 <= k < rest.len() ==> rest[k] == replies[k + 1]);
                if is_run(then.remaining as nat, rest) {
                    assert forall|k: int| 0 <= k < replies.len() - 1 implies is_busy(
                        #[trigger] replies[k],
                    ) by {
                        if k > 0 {
                            assert(rest[k - 1] == replies[k]);
                        }
                    }
                    assert(rest.last() == replies.last());
                }
                if is_run(state.remaining as nat, replies) {
                    assert(replies.len() > 1);
                    assert forall|k: int| 0 <= k < rest.len() - 1 implies is_busy(
                        #[trigger] rest[k],
                    ) by {
                        assert(rest[k] == replies[k + 1]);
                    }
                    assert(rest.last() == replies.last());
                }
            },
        }
    }
}

/// During a run the state machine asks for one pause of the policy's interval
/// after every reply but the last.
pub proof fn run_waits_between_attempts<T, E>(state: Dispatch, replies: Seq<Reply<T, E>>)
    requires
        is_run(state.remaining as nat, replies),
    ensures
        state.waited(replies) == (replies.len() - 1) * state.interval,
    decreases replies.len(),
{
    let rest = replies.drop_first();
    run_is_what_the_machine_settles_on(state, replies);
    match state.step(replies[0]) {
        Next::Return(_) => {
            assert(replies.len() == 1);
            assert(state.waited(replies) == 0);
            assert((replies.len() - 1) * state.interval == 0) by (nonlinear_arith)
                requires
                    replies.len() == 1,
            ;
        },
        Next::Retry { wait, then } => {
            run_is_what_the_machine_settles_on(then, rest);
            run_waits_between_attempts(then, rest);
            assert(wait == state.interval && then.interval == state.interval);
            assert(state.waited(replies) == wait + then.waited(rest));
            assert((rest.len() - 1) * state.interval + state.interval == (replies.len() - 1)
                * state.interval) by (nonlinear_arith)
                requires
                    rest.len() == replies.len() - 1,
            ;
        },
    }
}

/// Against a node that answers every attempt with the busy signal, a dispatch
/// whose policy allows `budget` retries makes `budget + 1` attempts, waits the
/// interval `budget` times, and returns the busy error of the last attempt.
pub proof fn busy_node_exhausts_the_policy<T, E>(policy: RetryPolicy, replies: Seq<Reply<T, E>>)
    requires
        is_run(policy.max_attempts as nat, replies),
        forall|k: int| 0 <= k < replies.len() ==> is_busy(#[trigger] replies[k]),
    ensures
        replies.len() == policy.max_attempts + 1,
        is_busy(replies.last()),
        Dispatch::start(Some(policy)).waited(replies) == policy.max_attempts * policy.interval,
{
    run_waits_between_attempts(Dispatch::start(Some(policy)), replies);
}

/// Without a retry policy a dispatch makes exactly one attempt, whatever the
/// reply is, and never waits.
pub proof fn no_policy_means_one_attempt<T, E>(replies: Seq<Reply<T, E>>)
    requires
        is_run(Dispatch::start(None).remaining as nat, replies),
    ensures
        replies.len() == 1,
        Dispatch::start(None).waited(replies) == 0,
{
    run_waits_between_attempts(Dispatch::start(None), replies);
}

/// A transport failure ends the dispatch at the attempt that met it, under
/// any policy: the failure of the first attempt is returned with no retry.
pub proof fn transport_failure_is_not_retried<T, E>(
    budget: nat,
    replies: Seq<Reply<T, E>>,
    attempt: int,
)
    requires
        is_run(budget, replies),
        0 <= attempt < replies.len(),
        replies[attempt] is Err,
    ensures
        replies.len() == attempt + 1,
{
}

/// An error of the node with any code but the busy signal ends the dispatch
/// at the attempt that met it, whatever is left of the budget.
pub proof fn other_error_is_not_retried<T, E>(
    budget: nat,
    replies: Seq<Reply<T, E>>,
    attempt: int,
)
    requires
        is_run(budget, replies),
        0 <= attempt < replies.len(),
        replies[attempt] matches Ok(Err(error)) && error.code != NODE_BUSY,
    ensures
        replies.len() == attempt + 1,
{
}

/// A value from the node ends the dispatch at the attempt that met it.
pub proof fn success_is_returned_at_once<T, E>(
    budget: nat,
    replies: Seq<Reply<T, E>>,
    attempt: int,
)
    requires
        is_run(budget, replies),
        0 <= attempt < replies.len(),
        replies[attempt] matches Ok(Ok(_)),
    ensures
        replies.len() == attempt + 1,
{
}

} // verus!
