//! What holds of a manager over any sequence of requests.
//!
//! A request is a send or a retry together with how its dispatch ended. The
//! functions here say what a sequence of requests does to the manager's state,
//! which round ids it allots and when the notice of a failed first send is
//! due; the lemmas state what follows for every sequence.

use vstd::prelude::*;
use crate::config::{sanitized_headless, HeadlessConfigView, OpenAiConfigView};
use crate::manager::{
    first_failure_notice_due, idle_retry_ack, next_round_id, retry_ack, ManagerState, RetryAck,
    RoundView,
};

verus! {

/// One request, with how the dispatch of its round ended.
pub ghost enum Call {
    Send {
        input: Seq<char>,
        openai_config: Option<OpenAiConfigView>,
        headless_config: Option<HeadlessConfigView>,
        dispatched: bool,
    },
    Retry { dispatched: bool },
}

/// What one request does.
pub ghost struct Effect {
    /// The state after the request.
    pub state: ManagerState,
    /// The round that was dispatched, if one was.
    pub round: Option<RoundView>,
    /// Whether the notice of a failed first send is due.
    pub notice: bool,
}

/// What `call` does in `state`.
pub open spec fn call_effect(state: ManagerState, call: Call) -> Effect {
    match call {
        Call::Send { input, openai_config, headless_config, dispatched } => {
            let round = state.send_round(input, openai_config, headless_config);
            Effect {
                state: state.after_send_begun().after_dispatch(round, dispatched),
                round: Some(round),
                notice: first_failure_notice_due(round, dispatched),
            }
        },
        Call::Retry { dispatched } => match state.retry_round() {
            Some(round) => Effect {
                state: state.after_retry_begun().after_dispatch(round, dispatched),
                round: Some(round),
                notice: false,
            },
            None => Effect { state: state.after_retry_begun(), round: None, notice: false },
        },
    }
}

/// The answer to a retry in `state`, given whether a dispatch that it makes
/// goes through.
pub open spec fn retry_answer(state: ManagerState, dispatched: bool) -> RetryAck {
    match state.retry_round() {
        Some(round) => retry_ack(round, dispatched),
        None => idle_retry_ack(),
    }
}

/// The state after `calls`, made in order from `state`.
pub open spec fn state_after(state: ManagerState, calls: Seq<Call>) -> ManagerState
    decreases calls.len(),
{
    if calls.len() == 0 {
        state
    } else {
        call_effect(state_after(state, calls.drop_last()), calls.last()).state
    }
}

/// What the request `calls[i]` does when `calls` are made in order from
/// `state`.
pub open spec fn effect_at(state: ManagerState, calls: Seq<Call>, i: int) -> Effect {
    call_effect(state_after(state, calls.take(i)), calls[i])
}

/// The round ids that `calls` allot, in order.
pub open spec fn round_ids(state: ManagerState, calls: Seq<Call>) -> Seq<u64>
    decreases calls.len(),
{
    if calls.len() == 0 {
        Seq::empty()
    } else {
        let before = round_ids(state, calls.drop_last());
        match call_effect(state_after(state, calls.drop_last()), calls.last()).round {
            Some(round) => before.push(round.round_id),
            None => before,
        }
    }
}

/// Whether some request among the first `i` of `calls` is a send.
pub open spec fn send_before(calls: Seq<Call>, i: int) -> bool {
    exists|j: int| 0 <= j < i && j < calls.len() && #[trigger] calls[j] is Send
}

/// The working directory that a round asks for, after clean-up.
pub open spec fn clean_working_directory(headless_config: Option<HeadlessConfigView>) -> Option<
    Seq<char>,
> {
    match sanitized_headless(headless_config) {
        Some(clean) => clean.working_directory,
        None => None,
    }
}

/// A request never lowers the round counter, and a round that it dispatches
/// carries the counter's new value.
pub proof fn lemma_call_advances_counter(state: ManagerState, call: Call)
    ensures
        call_effect(state, call).state.generation_round >= state.generation_round,
        match call_effect(state, call).round {
            Some(round) => round.round_id == next_round_id(state.generation_round)
                && call_effect(state, call).state.generation_round == round.round_id,
            None => call_effect(state, call).state == state,
        },
{
}

proof fn lemma_ids_count_up(state: ManagerState, calls: Seq<Call>)
    requires
        state.generation_round + round_ids(state, calls).len() <= u64::MAX,
    ensures
        state_after(state, calls).generation_round == state.generation_round + round_ids(
            state,
            calls,
        ).len(),
        forall|k: int|
            0 <= k < round_ids(state, calls).len() ==> #[trigger] round_ids(state, calls)[k]
                == state.generation_round + k + 1,
    decreases calls.len(),
{
    if calls.len() > 0 {
        let before = calls.drop_last();
        assert(round_ids(state, before).len() <= round_ids(state, calls).len());
        lemma_ids_count_up(state, before);
        lemma_call_advances_counter(state_after(state, before), calls.last());
    }
}

/// Round ids rise strictly and never repeat over any sequence of sends and
/// retries, as long as the counter has room for them: each is above the
/// counter's value at the start and above every id allotted before it.
pub proof fn lemma_round_ids_strictly_increase(state: ManagerState, calls: Seq<Call>)
    requires
        state.generation_round + round_ids(state, calls).len() <= u64::MAX,
    ensures
        forall|k: int|
            0 <= k < round_ids(state, calls).len() ==> #[trigger] round_ids(state, calls)[k]
                > state.generation_round,
        forall|i: int, j: int|
            0 <= i < j < round_ids(state, calls).len() ==> round_ids(state, calls)[i] < round_ids(
                state,
                calls,
            )[j],
{
    lemma_ids_count_up(state, calls);
}

/// The first round of a new manager has the id 1.
pub proof fn lemma_first_round_is_one(call: Call)
    ensures
        match call_effect(ManagerState::fresh(), call).round {
            Some(round) => round.round_id == 1,
            None => call is Retry,
        },
{
}

/// A retry in a state that keeps no failed round answers that nothing was
/// sent, dispatches nothing, gives no notice and leaves the state as it is.
pub proof fn lemma_idle_retry_changes_nothing(state: ManagerState, dispatched: bool)
    requires
        state.last_failed is None,
    ensures
        retry_answer(state, dispatched) == (RetryAck { ok: true, resent: false, round_id: None }),
        call_effect(state, Call::Retry { dispatched }).state == state,
        call_effect(state, Call::Retry { dispatched }).round is None,
        !call_effect(state, Call::Retry { dispatched }).notice,
{
}

/// After a send whose dispatch went through, the next send continues the
/// conversation exactly if it asks for the same session overrides, after
/// clean-up, as that send did. So it does not where the working directory
/// differs.
pub proof fn lemma_continuity_follows_session_config(
    state: ManagerState,
    first_input: Seq<char>,
    first_openai: Option<OpenAiConfigView>,
    first_headless: Option<HeadlessConfigView>,
    second_input: Seq<char>,
    second_openai: Option<OpenAiConfigView>,
    second_headless: Option<HeadlessConfigView>,
)
    ensures
        ({
            let first = state.send_round(first_input, first_openai, first_headless);
            let between = state.after_send_begun().after_dispatch(first, true);
            let second = between.send_round(second_input, second_openai, second_headless);
            &&& second.continuity == (sanitized_headless(first_headless) == sanitized_headless(
                second_headless,
            ))
            &&& clean_working_directory(first_headless) != clean_working_directory(
                second_headless,
            ) ==> !second.continuity
        }),
{
}

proof fn lemma_attempted_after(state: ManagerState, calls: Seq<Call>)
    ensures
        state_after(state, calls).first_send_attempted == (state.first_send_attempted
            || send_before(calls, calls.len() as int)),
    decreases calls.len(),
{
    if calls.len() > 0 {
        let before = calls.drop_last();
        lemma_attempted_after(state, before);
        let last = calls.len() - 1;
        if send_before(before, before.len() as int) {
            let j = choose|j: int| 0 <= j < before.len() && #[trigger] before[j] is Send;
            assert(calls[j] is Send);
        }
        if calls.last() is Send {
            assert(calls[last] is Send);
        }
        if send_before(calls, calls.len() as int) {
            let j = choose|j: int| 0 <= j < calls.len() && #[trigger] calls[j] is Send;
            if j < last {
                assert(before[j] is Send);
            }
        }
    }
}

/// The notice of a failed first send is due with a request exactly if that
/// request is a send whose dispatch failed and no send was asked for before
/// it, neither among the requests nor before them.
pub proof fn lemma_notice_only_with_first_send(state: ManagerState, calls: Seq<Call>, i: int)
    requires
        0 <= i < calls.len(),
    ensures
        effect_at(state, calls, i).notice == (calls[i] matches Call::Send { dispatched, .. }
            && !dispatched && !state.first_send_attempted && !send_before(calls, i)),
{
    let before = calls.take(i);
    lemma_attempted_after(state, before);
    if send_before(before, before.len() as int) {
        let j = choose|j: int| 0 <= j < before.len() && #[trigger] before[j] is Send;
        assert(calls[j] is Send);
    }
    if send_before(calls, i) {
        let j = choose|j: int| 0 <= j < i && j < calls.len() && #[trigger] calls[j] is Send;
        assert(before[j] is Send);
    }
}

/// Over any sequence of requests the notice of a failed first send is due at
/// most once.
pub proof fn lemma_notice_at_most_once(state: ManagerState, calls: Seq<Call>, i: int, j: int)
    requires
        0 <= i < j < calls.len(),
        effect_at(state, calls, i).notice,
    ensures
        !effect_at(state, calls, j).notice,
{
    lemma_notice_only_with_first_send(state, calls, i);
    lemma_notice_only_with_first_send(state, calls, j);
    assert(calls[i] is Send);
}

} // verus!
