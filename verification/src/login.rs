//! The login retry protocol.
//!
//! A session is established before any request is served. An attempt is a
//! logon followed by two verification queries, each after a short pause; it
//! succeeds only if all three calls do. A failed attempt is followed by a
//! longer pause and another attempt, up to a fixed number of attempts.
//!
//! The protocol is a state machine. It names the next action; the embedding
//! program performs it and reports whether it succeeded.

use crate::category::QueryCategory;
use vstd::prelude::*;

verus! {

/// Number of attempts made before giving up.
pub const MAX_LOGIN_ATTEMPTS: u8 = 5;

/// Seconds waited between a failed attempt and the next one.
pub const RETRY_DELAY_SECS: u64 = 5;

/// Seconds waited after a logon, and again after the first verification
/// query, before the next call is made.
pub const SETTLE_DELAY_SECS: u64 = 2;

/// The call or pause of an attempt that is under way.
#[derive(Clone, Copy, PartialEq, Eq, Debug, Structural)]
pub enum Phase {
    /// The logon.
    Logon,
    /// The pause after the logon.
    Settle,
    /// The first verification query, for the holdings.
    Holdings,
    /// The pause after the first verification query.
    SettleAgain,
    /// The second verification query, for today's pending orders.
    PendingOrders,
}

/// Where the protocol stands.
#[derive(Clone, Copy, PartialEq, Eq, Debug, Structural)]
pub enum LoginState {
    /// The attempt with this number, counted from one, is under way.
    Attempting { attempt: u8, phase: Phase },
    /// The attempt with this number failed, and the pause before the next one
    /// is under way.
    RetryWait { attempt: u8 },
    /// The session is established and verified.
    LoggedIn,
    /// Every attempt failed.
    Failed,
}

/// What the embedding program is to do next.
#[derive(Clone, Copy, PartialEq, Eq, Debug, Structural)]
pub enum LoginAction {
    /// Call the logon entry point with the first address of the server.
    Logon,
    /// Wait.
    Pause { seconds: u64 },
    /// Make a data query and drop its data.
    Query { category: QueryCategory },
    /// Start serving requests.
    Serve,
    /// Terminate without serving.
    Abort,
}

/// Where the protocol goes after a failed attempt: to the pause before the
/// next one, or, after the last one, to the end.
pub open spec fn after_failure(attempt: u8) -> (LoginState, LoginAction) {
    if attempt >= MAX_LOGIN_ATTEMPTS {
        (LoginState::Failed, LoginAction::Abort)
    } else {
        (LoginState::RetryWait { attempt }, LoginAction::Pause { seconds: RETRY_DELAY_SECS })
    }
}

/// The state the protocol starts in, with the action it starts with.
pub open spec fn initial() -> (LoginState, LoginAction) {
    (LoginState::Attempting { attempt: 1, phase: Phase::Logon }, LoginAction::Logon)
}

/// The transition function: from a state and the outcome of the action that
/// led to it, the next state and the next action. A pause has no outcome that
/// matters. A final state stays, and repeats its action.
pub open spec fn next(state: LoginState, succeeded: bool) -> (LoginState, LoginAction) {
    match state {
        LoginState::Attempting { attempt, phase } => match phase {
            Phase::Logon => if succeeded {
                (
                    LoginState::Attempting { attempt, phase: Phase::Settle },
                    LoginAction::Pause { seconds: SETTLE_DELAY_SECS },
                )
            } else {
                after_failure(attempt)
            },
            Phase::Settle => (
                LoginState::Attempting { attempt, phase: Phase::Holdings },
                LoginAction::Query { category: QueryCategory::Holdings },
            ),
            Phase::Holdings => if succeeded {
                (
                    LoginState::Attempting { attempt, phase: Phase::SettleAgain },
                    LoginAction::Pause { seconds: SETTLE_DELAY_SECS },
                )
            } else {
                after_failure(attempt)
            },
            Phase::SettleAgain => (
                LoginState::Attempting { attempt, phase: Phase::PendingOrders },
                LoginAction::Query { category: QueryCategory::PendingOrders },
            ),
            Phase::PendingOrders => if succeeded {
                (LoginState::LoggedIn, LoginAction::Serve)
            } else {
                after_failure(attempt)
            },
        },
        LoginState::RetryWait { attempt } => if attempt >= MAX_LOGIN_ATTEMPTS {
            (LoginState::Failed, LoginAction::Abort)
        } else {
            (
                LoginState::Attempting { attempt: (attempt + 1) as u8, phase: Phase::Logon },
                LoginAction::Logon,
            )
        },
        LoginState::LoggedIn => (LoginState::LoggedIn, LoginAction::Serve),
        LoginState::Failed => (LoginState::Failed, LoginAction::Abort),
    }
}

/// Starts the protocol: the first attempt begins with its logon.
pub fn start() -> (begin: (LoginState, LoginAction))
    ensures
        begin == initial(),
{
    (LoginState::Attempting { attempt: 1, phase: Phase::Logon }, LoginAction::Logon)
}

/// What follows a failed attempt.
fn fail(attempt: u8) -> (step: (LoginState, LoginAction))
    ensures
        step == after_failure(attempt),
{
    if attempt >= MAX_LOGIN_ATTEMPTS {
        (LoginState::Failed, LoginAction::Abort)
    } else {
        (LoginState::RetryWait { attempt }, LoginAction::Pause { seconds: RETRY_DELAY_SECS })
    }
}

/// Advances the protocol by the outcome of the action it last named.
pub fn step(state: LoginState, succeeded: bool) -> (step: (LoginState, LoginAction))
    ensures
        step == next(state, succeeded),
{
    match state {
        LoginState::Attempting { attempt, phase } => match phase {
            Phase::Logon => if succeeded {
                (
                    LoginState::Attempting { attempt, phase: Phase::Settle },
                    LoginAction::Pause { seconds: SETTLE_DELAY_SECS },
                )
            } else {
                fail(attempt)
            },
            Phase::Settle => (
                LoginState::Attempting { attempt, phase: Phase::Holdings },
                LoginAction::Query { category: QueryCategory::Holdings },
            ),
            Phase::Holdings => if succeeded {
                (
                    LoginState::Attempting { attempt, phase: Phase::SettleAgain },
                    LoginAction::Pause { seconds: SETTLE_DELAY_SECS },
                )
            } else {
                fail(attempt)
            },
            Phase::SettleAgain => (
                LoginState::Attempting { attempt, phase: Phase::PendingOrders },
                LoginAction::Query { category: QueryCategory::PendingOrders },
            ),
            Phase::PendingOrders => if succeeded {
                (LoginState::LoggedIn, LoginAction::Serve)
            } else {
                fail(attempt)
            },
        },
        LoginState::RetryWait { attempt } => if attempt >= MAX_LOGIN_ATTEMPTS {
            (LoginState::Failed, LoginAction::Abort)
        } else {
            (LoginState::Attempting { attempt: attempt + 1, phase: Phase::Logon }, LoginAction::Logon)
        },
        LoginState::LoggedIn => (LoginState::LoggedIn, LoginAction::Serve),
        LoginState::Failed => (LoginState::Failed, LoginAction::Abort),
    }
}

/// The state reached from the start after the given outcomes, oldest first.
pub open spec fn state_after(outcomes: Seq<bool>) -> LoginState
    decreases outcomes.len(),
{
    if outcomes.len() == 0 {
        initial().0
    } else {
        next(state_after(outcomes.drop_last()), outcomes.last()).0
    }
}

/// The actions named from the start up to and including the one that answers
/// the last of the given outcomes. The first action answers no outcome.
pub open spec fn actions(outcomes: Seq<bool>) -> Seq<LoginAction>
    decreases outcomes.len(),
{
    if outcomes.len() == 0 {
        seq![initial().1]
    } else {
        actions(outcomes.drop_last()).push(
            next(state_after(outcomes.drop_last()), outcomes.last()).1,
        )
    }
}

/// Number of logons among the given actions.
pub open spec fn logons(actions: Seq<LoginAction>) -> nat
    decreases actions.len(),
{
    if actions.len() == 0 {
        0
    } else if actions.last() == LoginAction::Logon {
        logons(actions.drop_last()) + 1
    } else {
        logons(actions.drop_last())
    }
}

/// The pause before a retry.
pub open spec fn retry_pause() -> LoginAction {
    LoginAction::Pause { seconds: RETRY_DELAY_SECS }
}

/// The pause before a verification query.
pub open spec fn settle_pause() -> LoginAction {
    LoginAction::Pause { seconds: SETTLE_DELAY_SECS }
}

/// Every logon but the first comes right after a retry pause, and a retry
/// pause is followed by nothing but a logon.
pub open spec fn retries_spaced(actions: Seq<LoginAction>) -> bool {
    &&& forall|i: int|
        0 < i < actions.len() && #[trigger] actions[i] == LoginAction::Logon ==> actions[i - 1]
            == retry_pause()
    &&& forall|i: int|
        0 <= i < actions.len() - 1 && #[trigger] actions[i] == retry_pause() ==> actions[i + 1]
            == LoginAction::Logon
}

/// The five actions before position `i` are one whole attempt: the logon, a
/// settle pause, the query for the holdings, a settle pause, and the query for
/// today's pending orders.
pub open spec fn attempt_precedes(actions: Seq<LoginAction>, i: int) -> bool {
    &&& 5 <= i <= actions.len()
    &&& actions[i - 5] == LoginAction::Logon
    &&& actions[i - 4] == settle_pause()
    &&& actions[i - 3] == (LoginAction::Query { category: QueryCategory::Holdings })
    &&& actions[i - 2] == settle_pause()
    &&& actions[i - 1] == (LoginAction::Query { category: QueryCategory::PendingOrders })
}

/// The attempt before position `i` went well: its logon and both of its
/// verification queries succeeded.
pub open spec fn attempt_succeeded(outcomes: Seq<bool>, i: int) -> bool {
    &&& 5 <= i <= outcomes.len()
    &&& outcomes[i - 5]
    &&& outcomes[i - 3]
    &&& outcomes[i - 1]
}

/// Serving is named only right after a whole attempt that went well, or after
/// serving was named before. Position `i` of the actions is answered by
/// position `i` of the outcomes.
pub open spec fn serving_verified(outcomes: Seq<bool>, actions: Seq<LoginAction>) -> bool {
    forall|i: int|
        0 <= i < actions.len() && #[trigger] actions[i] == LoginAction::Serve ==> {
            ||| attempt_precedes(actions, i) && attempt_succeeded(outcomes, i)
            ||| (i >= 1 && actions[i - 1] == LoginAction::Serve)
        }
}

/// What the outcomes and the actions so far have to do with the state reached.
spec fn tracks(state: LoginState, outcomes: Seq<bool>, actions: Seq<LoginAction>) -> bool {
    let len = actions.len() as int;
    &&& len == outcomes.len() + 1
    &&& state != LoginState::LoggedIn ==> forall|i: int|
        0 <= i < len ==> #[trigger] actions[i] != LoginAction::Serve
    &&& state != LoginState::Failed ==> forall|i: int|
        0 <= i < len ==> #[trigger] actions[i] != LoginAction::Abort
    &&& match state {
        LoginState::Attempting { attempt, phase } => {
            &&& 1 <= attempt <= MAX_LOGIN_ATTEMPTS
            &&& logons(actions) == attempt
            &&& match phase {
                Phase::Logon => actions[len - 1] == LoginAction::Logon,
                Phase::Settle => {
                    &&& len >= 2
                    &&& actions[len - 2] == LoginAction::Logon
                    &&& outcomes[len - 2]
                    &&& actions[len - 1] == settle_pause()
                },
                Phase::Holdings => {
                    &&& len >= 3
                    &&& actions[len - 3] == LoginAction::Logon
                    &&& outcomes[len - 3]
                    &&& actions[len - 2] == settle_pause()
                    &&& actions[len - 1] == (LoginAction::Query {
                        category: QueryCategory::Holdings,
                    })
                },
                Phase::SettleAgain => {
                    &&& len >= 4
                    &&& actions[len - 4] == LoginAction::Logon
                    &&& outcomes[len - 4]
                    &&& actions[len - 3] == settle_pause()
                    &&& actions[len - 2] == (LoginAction::Query {
                        category: QueryCategory::Holdings,
                    })
                    &&& outcomes[len - 2]
                    &&& actions[len - 1] == settle_pause()
                },
                Phase::PendingOrders => {
                    &&& attempt_precedes(actions, len)
                    &&& outcomes[len - 5]
                    &&& outcomes[len - 3]
                },
            }
        },
        LoginState::RetryWait { attempt } => {
            &&& 1 <= attempt < MAX_LOGIN_ATTEMPTS
            &&& logons(actions) == attempt
            &&& actions[len - 1] == retry_pause()
        },
        LoginState::LoggedIn => {
            &&& logons(actions) <= MAX_LOGIN_ATTEMPTS
            &&& actions[len - 1] == LoginAction::Serve
        },
        LoginState::Failed => {
            &&& logons(actions) == MAX_LOGIN_ATTEMPTS
            &&& actions[len - 1] == LoginAction::Abort
        },
    }
}

/// Along every run the outcomes, the actions and the state agree, retries are
/// spaced and serving is verified.
proof fn lemma_run(outcomes: Seq<bool>)
    ensures
        actions(outcomes).len() == outcomes.len() + 1,
        tracks(state_after(outcomes), outcomes, actions(outcomes)),
        retries_spaced(actions(outcomes)),
        serving_verified(outcomes, actions(outcomes)),
    decreases outcomes.len(),
{
    if outcomes.len() == 0 {
        let first = actions(outcomes);
        assert(first.drop_last() =~= Seq::<LoginAction>::empty());
        assert(logons(first.drop_last()) == 0);
        assert(logons(first) == 1);
    } else {
        let before = outcomes.drop_last();
        lemma_run(before);
        let state = state_after(before);
        let named = actions(before);
        let step = next(state, outcomes.last());
        let all = actions(outcomes);
        assert(all == named.push(step.1));
        assert(all.drop_last() =~= named);
        assert(forall|i: int| 0 <= i < named.len() ==> all[i] == named[i]);
        assert(forall|i: int| 0 <= i < before.len() ==> outcomes[i] == before[i]);
        assert(all[named.len() as int] == step.1);
        assert(outcomes[before.len() as int] == outcomes.last());
        assert(tracks(step.0, outcomes, all));
        assert(retries_spaced(all));
        assert(serving_verified(outcomes, all)) by {
            assert forall|i: int| 0 <= i < all.len() && #[trigger] all[i] == LoginAction::Serve implies {
                ||| attempt_precedes(all, i) && attempt_succeeded(outcomes, i)
                ||| (i >= 1 && all[i - 1] == LoginAction::Serve)
            } by {
                if i < named.len() {
                    assert(named[i] == LoginAction::Serve);
                    if attempt_precedes(named, i) && attempt_succeeded(before, i) {
                        assert(attempt_precedes(all, i));
                        assert(attempt_succeeded(outcomes, i));
                    }
                }
            }
        }
    }
}

/// No run makes more than five logons.
pub proof fn lemma_attempts_bounded(outcomes: Seq<bool>)
    ensures
        logons(actions(outcomes)) <= MAX_LOGIN_ATTEMPTS,
{
    lemma_run(outcomes);
}

/// Between an attempt and the next one the protocol waits the retry delay,
/// once: every logon after the first comes right after a pause of that length,
/// and such a pause is never followed by anything but a logon.
pub proof fn lemma_retries_spaced(outcomes: Seq<bool>)
    ensures
        retries_spaced(actions(outcomes)),
{
    lemma_run(outcomes);
}

/// Health is declared only after a whole attempt that went well: where
/// serving is first named, the five actions before it are a logon, a settle
/// pause, the query for the holdings, a settle pause and the query for today's
/// pending orders, and the logon and both queries succeeded.
pub proof fn lemma_serving_verified(outcomes: Seq<bool>)
    ensures
        serving_verified(outcomes, actions(outcomes)),
{
    lemma_run(outcomes);
}

/// A run never names both ends. It names serving only once it is logged in,
/// and it gives up only after the fifth logon.
pub proof fn lemma_ends_apart(outcomes: Seq<bool>, i: int)
    requires
        0 <= i <= outcomes.len(),
    ensures
        actions(outcomes)[i] == LoginAction::Serve ==> state_after(outcomes) == LoginState::LoggedIn,
        actions(outcomes)[i] == LoginAction::Abort ==> state_after(outcomes) == LoginState::Failed,
        state_after(outcomes) == LoginState::Failed ==> logons(actions(outcomes))
            == MAX_LOGIN_ATTEMPTS,
{
    lemma_run(outcomes);
}

} // verus!
