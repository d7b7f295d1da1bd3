//! The session manager: round ids, the continuity decision, and what is kept
//! of a round whose dispatch failed so that it can be sent again.
//!
//! Every request is handled in two steps. The first allots a round id and says
//! what to dispatch; the caller dispatches it; the second records whether the
//! dispatch went through and says what to answer.

use vstd::prelude::*;
use crate::terminal::TerminalSession;
use crate::config::{
    clone_opt_headless, clone_opt_openai, opt_headless_view, opt_openai_view, same_opt_headless,
    sanitize_headless_config, sanitize_openai_config, sanitized_headless, sanitized_openai,
    HeadlessConfig, HeadlessConfigView, OpenAiConfig, OpenAiConfigView,
};

verus! {

/// One exchange with the assistant, as it is to be dispatched.
#[derive(Debug)]
pub struct Round {
    /// The id that every event of this round carries.
    pub round_id: u64,
    /// The prompt.
    pub input: String,
    /// Whether the assistant is to continue the conversation of the rounds
    /// before.
    pub continuity: bool,
    /// The endpoint overrides, cleaned.
    pub openai_config: Option<OpenAiConfig>,
    /// The session overrides, cleaned.
    pub headless_config: Option<HeadlessConfig>,
    /// Whether this is the first send that the manager was ever asked for.
    pub is_first_attempt: bool,
}

/// The mathematical value of a [`Round`].
pub ghost struct RoundView {
    pub round_id: u64,
    pub input: Seq<char>,
    pub continuity: bool,
    pub openai_config: Option<OpenAiConfigView>,
    pub headless_config: Option<HeadlessConfigView>,
    pub is_first_attempt: bool,
}

impl View for Round {
    type V = RoundView;

    open spec fn view(&self) -> RoundView {
        RoundView {
            round_id: self.round_id,
            input: self.input@,
            continuity: self.continuity,
            openai_config: opt_openai_view(self.openai_config),
            headless_config: opt_headless_view(self.headless_config),
            is_first_attempt: self.is_first_attempt,
        }
    }
}

impl RoundView {
    /// Whether the round breaks off a conversation: it is not the first
    /// round, and it does not continue the rounds before.
    pub open spec fn restarts_session(self) -> bool {
        self.round_id > 1 && !self.continuity
    }
}

impl Round {
    /// Whether the round breaks off a conversation that was under way, so
    /// that the assistant starts without memory of the rounds before. A
    /// caller reports this; it is never passed over in silence.
    pub fn restarts_session(&self) -> (r: bool)
        ensures
            r == self@.restarts_session(),
    {
        self.round_id > 1 && !self.continuity
    }
}

/// The round that is kept for a retry.
pub ghost struct FailedRound {
    pub input: Seq<char>,
    pub openai_config: Option<OpenAiConfigView>,
    pub headless_config: Option<HeadlessConfigView>,
}

/// The mathematical value of a [`QwenSessionManager`].
pub ghost struct ManagerState {
    /// Whether a send was ever asked for.
    pub first_send_attempted: bool,
    /// The last round whose dispatch failed, until one goes through.
    pub last_failed: Option<FailedRound>,
    /// The session overrides of the conversation that is under way.
    pub session_headless_config: Option<HeadlessConfigView>,
    /// The id of the last round.
    pub generation_round: u64,
}

/// The id after `counter`. The counter stops at the largest value.
pub open spec fn next_round_id(counter: u64) -> u64 {
    if counter < u64::MAX {
        (counter + 1) as u64
    } else {
        counter
    }
}

/// Whether the round `round_id` continues the conversation: it is not the
/// first round, and it asks for the session overrides that are in use.
pub open spec fn continues(
    round_id: u64,
    requested: Option<HeadlessConfigView>,
    stored: Option<HeadlessConfigView>,
) -> bool {
    round_id > 1 && requested == stored
}

impl ManagerState {
    /// The state of a new manager.
    pub open spec fn fresh() -> ManagerState {
        ManagerState {
            first_send_attempted: false,
            last_failed: None,
            session_headless_config: None,
            generation_round: 0,
        }
    }

    /// The round that a send of `input` with the given overrides is.
    pub open spec fn send_round(
        self,
        input: Seq<char>,
        openai_config: Option<OpenAiConfigView>,
        headless_config: Option<HeadlessConfigView>,
    ) -> RoundView {
        let round_id = next_round_id(self.generation_round);
        let headless = sanitized_headless(headless_config);
        RoundView {
            round_id,
            input,
            continuity: continues(round_id, headless, self.session_headless_config),
            openai_config: sanitized_openai(openai_config),
            headless_config: headless,
            is_first_attempt: !self.first_send_attempted,
        }
    }

    /// The state once a send has been given its round.
    pub open spec fn after_send_begun(self) -> ManagerState {
        ManagerState {
            first_send_attempted: true,
            generation_round: next_round_id(self.generation_round),
            ..self
        }
    }

    /// The round that a retry is; `None` where no failed round is kept.
    pub open spec fn retry_round(self) -> Option<RoundView> {
        match self.last_failed {
            Some(failed) => {
                let round_id = next_round_id(self.generation_round);
                Some(
                    RoundView {
                        round_id,
                        input: failed.input,
                        continuity: continues(
                            round_id,
                            failed.headless_config,
                            self.session_headless_config,
                        ),
                        openai_config: failed.openai_config,
                        headless_config: failed.headless_config,
                        is_first_attempt: false,
                    },
                )
            },
            None => None,
        }
    }

    /// The state once a retry has been given its round; unchanged where no
    /// failed round is kept.
    pub open spec fn after_retry_begun(self) -> ManagerState {
        if self.last_failed is Some {
            ManagerState { generation_round: next_round_id(self.generation_round), ..self }
        } else {
            self
        }
    }

    /// The state once the dispatch of `round` has gone through, or has not.
    /// A dispatch that went through clears what was kept for a retry, and a
    /// round that began a new conversation makes its session overrides the
    /// ones in use. A dispatch that failed keeps the round for a retry.
    pub open spec fn after_dispatch(self, round: RoundView, dispatched: bool) -> ManagerState {
        if dispatched {
            ManagerState {
                last_failed: None,
                session_headless_config: if round.continuity {
                    self.session_headless_config
                } else {
                    round.headless_config
                },
                ..self
            }
        } else {
            ManagerState {
                last_failed: Some(
                    FailedRound {
                        input: round.input,
                        openai_config: round.openai_config,
                        headless_config: round.headless_config,
                    },
                ),
                ..self
            }
        }
    }
}

/// The answer to a send whose dispatch went through.
#[derive(Clone, Copy, Debug, PartialEq, Eq)]
pub struct SendAck {
    pub ok: bool,
    pub round_id: u64,
}

/// The answer to a retry.
#[derive(Clone, Copy, Debug, PartialEq, Eq)]
pub struct RetryAck {
    pub ok: bool,
    pub resent: bool,
    pub round_id: Option<u64>,
}

/// Whether a round is in flight.
#[derive(Clone, Copy, Debug, PartialEq, Eq)]
pub struct SessionStatus {
    pub running: bool,
}

/// The notice that the assistant could not be reached on the first send.
#[derive(Debug, PartialEq, Eq)]
pub struct FirstSendFailedPayload {
    pub title: String,
    pub message: String,
}

/// What a send ends with: the answer or the dispatch error, and whether the
/// notice of a failed first send is due.
#[derive(Debug)]
pub struct SendReport {
    pub result: Result<SendAck, String>,
    pub first_send_failed: bool,
}

/// The answer to a send, with the error by its text.
pub open spec fn send_result_view(result: Result<SendAck, String>) -> Result<SendAck, Seq<char>> {
    match result {
        Ok(ack) => Ok(ack),
        Err(reason) => Err(reason@),
    }
}

/// What a dispatch ended with, with the error by its text.
pub open spec fn dispatch_view(dispatch: Result<(), String>) -> Result<(), Seq<char>> {
    match dispatch {
        Ok(_) => Ok(()),
        Err(reason) => Err(reason@),
    }
}

/// The answer to a send of `round`, given how its dispatch ended.
pub open spec fn send_result(round: RoundView, dispatch: Result<(), Seq<char>>) -> Result<
    SendAck,
    Seq<char>,
> {
    match dispatch {
        Ok(_) => Ok(SendAck { ok: true, round_id: round.round_id }),
        Err(reason) => Err(reason),
    }
}

/// Whether the notice of a failed first send is due: the dispatch failed, and
/// the round is that of the first send ever asked for.
pub open spec fn first_failure_notice_due(round: RoundView, dispatched: bool) -> bool {
    !dispatched && round.is_first_attempt
}

/// The answer to a retry of `round`, given whether its dispatch went through.
pub open spec fn retry_ack(round: RoundView, dispatched: bool) -> RetryAck {
    if dispatched {
        RetryAck { ok: true, resent: true, round_id: Some(round.round_id) }
    } else {
        RetryAck { ok: false, resent: false, round_id: None }
    }
}

/// The answer to a retry where no failed round is kept.
pub open spec fn idle_retry_ack() -> RetryAck {
    RetryAck { ok: true, resent: false, round_id: None }
}

/// How a retry starts.
#[derive(Debug)]
pub enum RetryStart {
    /// No failed round is kept: this is the answer, and nothing is to be
    /// done.
    Idle(RetryAck),
    /// The kept round, under a new id, is to be dispatched.
    Dispatch(Round),
}

/// The title of the notice of a failed first send.
pub const FIRST_SEND_FAILED_TITLE: &'static str = "qwen-cli 不可用";

/// The message of the notice of a failed first send.
pub const FIRST_SEND_FAILED_MESSAGE: &'static str =
    "未检测到可用的 qwen-cli 或未登录。请在终端运行 qwen 并完成登录后重试。";

/// The round that is kept for a retry, as it is stored.
struct StoredRound {
    input: String,
    openai_config: Option<OpenAiConfig>,
    headless_config: Option<HeadlessConfig>,
}

impl StoredRound {
    spec fn model(self) -> FailedRound {
        FailedRound {
            input: self.input@,
            openai_config: opt_openai_view(self.openai_config),
            headless_config: opt_headless_view(self.headless_config),
        }
    }
}

/// The state behind the requests of one user interface.
pub struct QwenSessionManager {
    first_send_attempted: bool,
    last_failed: Option<StoredRound>,
    session_headless_config: Option<HeadlessConfig>,
    generation_round: u64,
}

impl View for QwenSessionManager {
    type V = ManagerState;

    closed spec fn view(&self) -> ManagerState {
        ManagerState {
            first_send_attempted: self.first_send_attempted,
            last_failed: match self.last_failed {
                Some(stored) => Some(stored.model()),
                None => None,
            },
            session_headless_config: opt_headless_view(self.session_headless_config),
            generation_round: self.generation_round,
        }
    }
}

/// Whether the round `round_id` continues the conversation whose session
/// overrides are `stored`, when it asks for `requested`.
pub fn should_continue(
    round_id: u64,
    requested: &Option<HeadlessConfig>,
    stored: &Option<HeadlessConfig>,
) -> (r: bool)
    ensures
        r == continues(round_id, opt_headless_view(*requested), opt_headless_view(*stored)),
{
    round_id > 1 && same_opt_headless(requested, stored)
}

/// What is known of the transport when its status is asked for.
#[derive(Clone, Copy, Debug, PartialEq, Eq)]
pub enum TransportProbe {
    /// One process for each round: the number of rounds that are running.
    Pipe { active_jobs: usize },
    /// One persistent process: its record, and whether a probe finds the
    /// process alive.
    Terminal { session: TerminalSession, probe_alive: bool },
}

/// Whether a round can be in flight. With one process for each round, some
/// round is running. With a persistent process, the process is alive by its
/// record and by the probe.
pub open spec fn transport_running(transport: TransportProbe) -> bool {
    match transport {
        TransportProbe::Pipe { active_jobs } => active_jobs > 0,
        TransportProbe::Terminal { session, probe_alive } => session.running(probe_alive),
    }
}

/// Whether a round is in flight.
pub fn qwen_status(transport: TransportProbe) -> (r: SessionStatus)
    ensures
        r.running == transport_running(transport),
{
    match transport {
        TransportProbe::Pipe { active_jobs } => SessionStatus { running: active_jobs > 0 },
        TransportProbe::Terminal { session, probe_alive } => session.status(probe_alive),
    }
}

/// The notice of a failed first send.
pub fn first_send_failed_payload() -> (r: FirstSendFailedPayload)
    ensures
        r.title@ == FIRST_SEND_FAILED_TITLE@,
        r.message@ == FIRST_SEND_FAILED_MESSAGE@,
{
    FirstSendFailedPayload {
        title: FIRST_SEND_FAILED_TITLE.to_owned(),
        message: FIRST_SEND_FAILED_MESSAGE.to_owned(),
    }
}

impl QwenSessionManager {
    /// A manager that has seen no request.
    pub fn new() -> (r: QwenSessionManager)
        ensures
            r@ == ManagerState::fresh(),
    {
        QwenSessionManager {
            first_send_attempted: false,
            last_failed: None,
            session_headless_config: None,
            generation_round: 0,
        }
    }

    /// The id of the last round; 0 before the first.
    pub fn round_counter(&self) -> (r: u64)
        ensures
            r == self@.generation_round,
    {
        self.generation_round
    }

    /// Whether a send was ever asked for.
    pub fn first_send_attempted(&self) -> (r: bool)
        ensures
            r == self@.first_send_attempted,
    {
        self.first_send_attempted
    }

    /// Whether a failed round is kept for a retry.
    pub fn has_failed_round(&self) -> (r: bool)
        ensures
            r == self@.last_failed is Some,
    {
        self.last_failed.is_some()
    }

    /// The session overrides of the conversation that is under way.
    pub fn session_config(&self) -> (r: Option<HeadlessConfig>)
        ensures
            opt_headless_view(r) == self@.session_headless_config,
    {
        clone_opt_headless(&self.session_headless_config)
    }

    /// Allots the next round id: one more than the last, and the largest
    /// value once that is reached.
    pub fn next_round(&mut self) -> (r: u64)
        ensures
            r == next_round_id(old(self)@.generation_round),
            final(self)@ == (ManagerState { generation_round: r, ..old(self)@ }),
    {
        if self.generation_round < u64::MAX {
            self.generation_round = self.generation_round + 1;
        }
        self.generation_round
    }

    /// Starts a send: allots its round id, cleans the overrides and decides
    /// whether the round continues the conversation.
    pub fn begin_send(
        &mut self,
        input: String,
        openai_config: Option<OpenAiConfig>,
        headless_config: Option<HeadlessConfig>,
    ) -> (round: Round)
        ensures
            round@ == old(self)@.send_round(
                input@,
                opt_openai_view(openai_config),
                opt_headless_view(headless_config),
            ),
            final(self)@ == old(self)@.after_send_begun(),
    {
        let is_first_attempt = !self.first_send_attempted;
        self.first_send_attempted = true;
        let round_id = self.next_round();
        let openai = sanitize_openai_config(openai_config);
        let headless = sanitize_headless_config(headless_config);
        let continuity = should_continue(round_id, &headless, &self.session_headless_config);
        Round {
            round_id,
            input,
            continuity,
            openai_config: openai,
            headless_config: headless,
            is_first_attempt,
        }
    }

    /// Ends a send, given how the dispatch of its round ended. Returns the
    /// answer, or the dispatch error; the notice of a failed first send is due
    /// only for a failed dispatch of the first send ever asked for.
    pub fn finish_send(&mut self, round: Round, dispatch: Result<(), String>) -> (r: SendReport)
        ensures
            final(self)@ == old(self)@.after_dispatch(round@, dispatch is Ok),
            send_result_view(r.result) == send_result(round@, dispatch_view(dispatch)),
            r.first_send_failed == first_failure_notice_due(round@, dispatch is Ok),
    {
        let round_id = round.round_id;
        let is_first_attempt = round.is_first_attempt;
        match dispatch {
            Ok(_) => {
                self.record_dispatched(round);
                SendReport { result: Ok(SendAck { ok: true, round_id }), first_send_failed: false }
            },
            Err(reason) => {
                self.record_failed(round);
                SendReport { result: Err(reason), first_send_failed: is_first_attempt }
            },
        }
    }

    /// Starts a retry. Where no failed round is kept, nothing changes and the
    /// answer says that nothing was sent. Otherwise the kept round gets a new
    /// id and is to be dispatched.
    pub fn begin_retry(&mut self) -> (r: RetryStart)
        ensures
            final(self)@ == old(self)@.after_retry_begun(),
            match r {
                RetryStart::Idle(ack) => old(self)@.retry_round() is None && ack
                    == idle_retry_ack(),
                RetryStart::Dispatch(round) => old(self)@.retry_round() == Some(round@),
            },
    {
        let (input, openai, headless) = match &self.last_failed {
            Some(stored) => (
                stored.input.clone(),
                clone_opt_openai(&stored.openai_config),
                clone_opt_headless(&stored.headless_config),
            ),
            None => {
                return RetryStart::Idle(RetryAck { ok: true, resent: false, round_id: None });
            },
        };
        let round_id = self.next_round();
        let continuity = should_continue(round_id, &headless, &self.session_headless_config);
        RetryStart::Dispatch(
            Round {
                round_id,
                input,
                continuity,
                openai_config: openai,
                headless_config: headless,
                is_first_attempt: false,
            },
        )
    }

    /// Ends a retry, given how the dispatch of its round ended. A retry never
    /// gives an error: a failed dispatch is told by `ok`.
    pub fn finish_retry(&mut self, round: Round, dispatch: Result<(), String>) -> (r: RetryAck)
        ensures
            final(self)@ == old(self)@.after_dispatch(round@, dispatch is Ok),
            r == retry_ack(round@, dispatch is Ok),
    {
        let round_id = round.round_id;
        match dispatch {
            Ok(_) => {
                self.record_dispatched(round);
                RetryAck { ok: true, resent: true, round_id: Some(round_id) }
            },
            Err(_) => {
                self.record_failed(round);
                RetryAck { ok: false, resent: false, round_id: None }
            },
        }
    }

    /// Handles a send from start to end. `dispatch` is handed the round and
    /// starts it; what it returns decides how the send ends, as in
    /// [`Self::finish_send`].
    pub fn send<F: FnOnce(&Round) -> Result<(), String>>(
        &mut self,
        input: String,
        openai_config: Option<OpenAiConfig>,
        headless_config: Option<HeadlessConfig>,
        dispatch: F,
    ) -> (r: SendReport)
        requires
            forall|round: &Round| call_requires(dispatch, (round,)),
        ensures
            exists|round: Round, outcome: Result<(), String>|
                {
                    &&& round@ == old(self)@.send_round(
                        input@,
                        opt_openai_view(openai_config),
                        opt_headless_view(headless_config),
                    )
                    &&& #[trigger] call_ensures(dispatch, (&round,), outcome)
                    &&& final(self)@ == old(self)@.after_send_begun().after_dispatch(
                        round@,
                        outcome is Ok,
                    )
                    &&& send_result_view(r.result) == send_result(round@, dispatch_view(outcome))
                    &&& r.first_send_failed == first_failure_notice_due(round@, outcome is Ok)
                },
    {
        let round = self.begin_send(input, openai_config, headless_config);
        let outcome = dispatch(&round);
        let ghost sent = round;
        let ghost returned = outcome;
        let report = self.finish_send(round, outcome);
        assert(call_ensures(dispatch, (&sent,), returned));
        report
    }

    /// Handles a retry from start to end. Where no failed round is kept,
    /// `dispatch` is not called, nothing changes and the answer says that
    /// nothing was sent. Otherwise `dispatch` is handed the kept round under
    /// a new id, and what it returns decides the answer, as in
    /// [`Self::finish_retry`].
    pub fn retry_last<F: FnOnce(&Round) -> Result<(), String>>(&mut self, dispatch: F) -> (r:
        RetryAck)
        requires
            forall|round: &Round| call_requires(dispatch, (round,)),
        ensures
            old(self)@.retry_round() is None ==> r == idle_retry_ack() && final(self)@ == old(
                self,
            )@,
            old(self)@.retry_round() is Some ==> exists|round: Round, outcome: Result<(), String>|
                {
                    &&& Some(round@) == old(self)@.retry_round()
                    &&& #[trigger] call_ensures(dispatch, (&round,), outcome)
                    &&& final(self)@ == old(self)@.after_retry_begun().after_dispatch(
                        round@,
                        outcome is Ok,
                    )
                    &&& r == retry_ack(round@, outcome is Ok)
                },
    {
        match self.begin_retry() {
            RetryStart::Idle(ack) => ack,
            RetryStart::Dispatch(round) => {
                let outcome = dispatch(&round);
                let ghost sent = round;
                let ghost returned = outcome;
                let ack = self.finish_retry(round, outcome);
                assert(call_ensures(dispatch, (&sent,), returned));
                ack
            },
        }
    }

    fn record_dispatched(&mut self, round: Round)
        ensures
            final(self)@ == old(self)@.after_dispatch(round@, true),
    {
        self.last_failed = None;
        if !round.continuity {
            self.session_headless_config = round.headless_config;
        }
    }

    fn record_failed(&mut self, round: Round)
        ensures
            final(self)@ == old(self)@.after_dispatch(round@, false),
    {
        self.last_failed = Some(
            StoredRound {
                input: round.input,
                openai_config: round.openai_config,
                headless_config: round.headless_config,
            },
        );
    }
}

impl Default for QwenSessionManager {
    fn default() -> (r: QwenSessionManager)
        ensures
            r@ == ManagerState::fresh(),
    {
        QwenSessionManager::new()
    }
}

} // verus!
