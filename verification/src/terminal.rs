//! The persistent transport: one long-lived process on a pseudo-terminal that
//! serves round after round until it dies.
//!
//! The session here is the record of that process: whether it was ever
//! started, whether it is alive, and which round its output belongs to. The
//! caller starts and probes the process and reads its output; the functions
//! here decide what follows.

use vstd::prelude::*;
use vstd::string::StringExecFns;
use crate::capture::{
    chunk_event, emit_stream_chunk, lossy_text, opt_chunk_view, text_from_utf8_lossy,
    StreamChunkPayload,
};
use crate::manager::{
    send_result, transport_running, ManagerState, Round, RoundView, SendAck, SessionStatus,
    TransportProbe,
};

verus! {

/// Where the process stands.
#[derive(Clone, Copy, Debug, PartialEq, Eq)]
pub enum TerminalPhase {
    /// No process was started yet.
    Unspawned,
    /// The process runs.
    Alive,
    /// The process has ended.
    Dead,
}

/// The record of the persistent process. The round marker is 0 until a round
/// is sent to the process.
#[derive(Clone, Copy, Debug, PartialEq, Eq)]
pub struct TerminalSession {
    pub phase: TerminalPhase,
    pub current_round: u64,
}

/// What is to be done so that a live process is there.
#[derive(Clone, Copy, Debug, PartialEq, Eq)]
pub enum EnsureAlive {
    /// The process runs: nothing is to be done.
    AlreadyAlive,
    /// A process is to be started, after tearing down the stale one where
    /// `tear_down` holds.
    Spawn { tear_down: bool },
}

/// What a send on the persistent transport starts with.
#[derive(Clone, Copy, Debug, PartialEq, Eq)]
pub struct TerminalDispatch {
    /// What is to be done before the prompt is written.
    pub action: EnsureAlive,
    /// Whether the round continues the conversation of the rounds before.
    pub continuity: bool,
    /// Whether the notice that the session was interrupted is due.
    pub interrupted: bool,
}

impl TerminalDispatch {
    /// `round` as the persistent transport sends it: whether it continues the
    /// conversation is decided by the process, not by the overrides.
    pub open spec fn adopted(self, round: RoundView) -> RoundView {
        RoundView { continuity: self.continuity, ..round }
    }

    /// `round` as the persistent transport sends it: whether it continues the
    /// conversation is decided by the process, not by the overrides.
    pub fn adopt(&self, round: Round) -> (r: Round)
        ensures
            r@ == self.adopted(round@),
    {
        Round {
            round_id: round.round_id,
            input: round.input,
            continuity: self.continuity,
            openai_config: round.openai_config,
            headless_config: round.headless_config,
            is_first_attempt: round.is_first_attempt,
        }
    }
}

/// Why a line could not be written.
#[derive(Clone, Copy, Debug, PartialEq, Eq)]
pub enum WriteError {
    /// No live process is there to write to.
    NotAlive,
}

/// The notice that the persistent process ended while a conversation was
/// under way.
#[derive(Debug, PartialEq, Eq)]
pub struct SessionInterruptedPayload {
    pub message: String,
}

/// The message of the notice that the session was interrupted.
pub const SESSION_INTERRUPTED_MESSAGE: &'static str =
    "qwen session ended; the next message starts a new conversation";

/// The notice that the session was interrupted.
pub fn session_interrupted_payload() -> (r: SessionInterruptedPayload)
    ensures
        r.message@ == SESSION_INTERRUPTED_MESSAGE@,
{
    SessionInterruptedPayload { message: SESSION_INTERRUPTED_MESSAGE.to_owned() }
}

/// What was to be written, with the line by its text.
pub open spec fn line_view(line: Result<String, WriteError>) -> Result<Seq<char>, WriteError> {
    match line {
        Ok(text) => Ok(text@),
        Err(e) => Err(e),
    }
}

impl TerminalSession {
    /// The record before any process was started.
    pub open spec fn unspawned() -> TerminalSession {
        TerminalSession { phase: TerminalPhase::Unspawned, current_round: 0 }
    }

    /// Whether the process counts as running, given what a probe says.
    pub open spec fn running(self, probe_alive: bool) -> bool {
        self.phase is Alive && probe_alive
    }

    /// The record once the process is known to have ended.
    pub open spec fn died(self) -> TerminalSession {
        if self.phase is Alive {
            TerminalSession { phase: TerminalPhase::Dead, ..self }
        } else {
            self
        }
    }

    /// Whether the end of the process interrupts a session: the process was
    /// alive and had been sent a round.
    pub open spec fn interrupts(self) -> bool {
        self.phase is Alive && self.current_round > 0
    }

    /// What is to be done so that a live process is there.
    pub open spec fn ensure_action(self, probe_alive: bool) -> EnsureAlive {
        if self.running(probe_alive) {
            EnsureAlive::AlreadyAlive
        } else {
            EnsureAlive::Spawn { tear_down: !(self.phase is Unspawned) }
        }
    }

    /// The record once a process was started, or could not be.
    pub open spec fn spawned(self, started: bool) -> TerminalSession {
        if started {
            TerminalSession { phase: TerminalPhase::Alive, current_round: 0 }
        } else {
            self
        }
    }

    /// What a send starts with. The round continues the conversation only if
    /// the process that served the round before is still running.
    pub open spec fn dispatch(self, probe_alive: bool) -> TerminalDispatch {
        TerminalDispatch {
            action: self.ensure_action(probe_alive),
            continuity: self.running(probe_alive) && self.current_round > 0,
            interrupted: !probe_alive && self.interrupts(),
        }
    }

    /// The record after the first step of a send.
    pub open spec fn after_dispatch(self, probe_alive: bool) -> TerminalSession {
        if probe_alive {
            self
        } else {
            self.died()
        }
    }

    /// What is to be written for the prompt `text`.
    pub open spec fn line_to_write(self, text: Seq<char>) -> Result<Seq<char>, WriteError> {
        if self.phase is Alive {
            Ok(text + "\n"@)
        } else {
            Err(WriteError::NotAlive)
        }
    }

    /// The chunk event for `bytes` read from the terminal: none before a
    /// round was sent, and none for no text.
    pub open spec fn output_event(self, bytes: Seq<u8>) -> Option<
        crate::capture::StreamChunkView,
    > {
        if self.current_round == 0 {
            None
        } else {
            chunk_event(self.current_round, lossy_text(bytes))
        }
    }

    /// The record before any process was started.
    pub fn new() -> (r: TerminalSession)
        ensures
            r == TerminalSession::unspawned(),
    {
        TerminalSession { phase: TerminalPhase::Unspawned, current_round: 0 }
    }

    /// Whether a round can be in flight: the process is alive by the record
    /// and by the probe.
    pub fn status(&self, probe_alive: bool) -> (r: SessionStatus)
        ensures
            r.running == self.running(probe_alive),
    {
        let alive = match self.phase {
            TerminalPhase::Alive => true,
            _ => false,
        };
        SessionStatus { running: alive && probe_alive }
    }

    /// Records that the process has ended: its output came to an end, reading
    /// it failed, or a probe found it gone. Returns whether the notice that
    /// the session was interrupted is due, which it is once for a process that
    /// had been sent a round.
    pub fn process_died(&mut self) -> (interrupted: bool)
        ensures
            *final(self) == old(self).died(),
            interrupted == old(self).interrupts(),
    {
        match self.phase {
            TerminalPhase::Alive => {
                self.phase = TerminalPhase::Dead;
                self.current_round > 0
            },
            _ => false,
        }
    }

    /// Starts a send: says whether a process must be started first and
    /// whether the round continues the conversation. Where the process runs,
    /// nothing is to be done and the record stays as it is. A probe that
    /// finds the process gone makes it dead in the record.
    pub fn ensure_alive(&mut self, probe_alive: bool) -> (r: TerminalDispatch)
        ensures
            r == old(self).dispatch(probe_alive),
            *final(self) == old(self).after_dispatch(probe_alive),
    {
        let was_unspawned = match self.phase {
            TerminalPhase::Unspawned => true,
            _ => false,
        };
        let running = self.status(probe_alive).running;
        if running {
            return TerminalDispatch {
                action: EnsureAlive::AlreadyAlive,
                continuity: self.current_round > 0,
                interrupted: false,
            };
        }
        let interrupted = if probe_alive {
            false
        } else {
            self.process_died()
        };
        TerminalDispatch {
            action: EnsureAlive::Spawn { tear_down: !was_unspawned },
            continuity: false,
            interrupted,
        }
    }

    /// Records how starting a process went. A new process has been sent no
    /// round.
    pub fn process_spawned(&mut self, started: bool)
        ensures
            *final(self) == old(self).spawned(started),
    {
        if started {
            self.phase = TerminalPhase::Alive;
            self.current_round = 0;
        }
    }

    /// Marks the output that follows as that of the round `round_id`.
    pub fn set_current_round(&mut self, round_id: u64)
        ensures
            *final(self) == (TerminalSession { current_round: round_id, ..*old(self) }),
    {
        self.current_round = round_id;
    }

    /// What is to be written to the terminal for the prompt `text`: the
    /// prompt and a line feed. Nothing can be written unless the process is
    /// alive.
    pub fn write_line(&self, text: &str) -> (r: Result<String, WriteError>)
        ensures
            line_view(r) == self.line_to_write(text@),
    {
        match self.phase {
            TerminalPhase::Alive => Ok(text.to_owned().concat("\n")),
            _ => Err(WriteError::NotAlive),
        }
    }

    /// The chunk event for `bytes` read from the terminal. The bytes become
    /// text as they are, with the replacement character for what is not
    /// UTF-8, under the id of the round that is marked. Before any round was
    /// sent they are dropped.
    pub fn route_output(&self, bytes: &[u8]) -> (r: Option<StreamChunkPayload>)
        ensures
            opt_chunk_view(r) == self.output_event(bytes@),
    {
        if self.current_round == 0 {
            return None;
        }
        emit_stream_chunk(self.current_round, text_from_utf8_lossy(bytes))
    }
}

/// Once the process has ended, by the end of its output, a failed read or a
/// failed probe, the status says that nothing is running, whatever a later
/// probe says, until a new process is started. A probe that finds the process
/// gone gives the same answer before the record knows of it.
pub proof fn lemma_status_after_death_is_not_running(session: TerminalSession, probe_alive: bool)
    ensures
        !transport_running(TransportProbe::Terminal { session: session.died(), probe_alive }),
        !transport_running(
            TransportProbe::Terminal {
                session: session.after_dispatch(false),
                probe_alive,
            },
        ),
        !transport_running(TransportProbe::Terminal { session, probe_alive: false }),
{
}

/// After the process has died, no round is reported as running whatever a
/// probe says; the next send starts a new process and does not continue the
/// conversation; and once that process runs and the round is marked, its
/// output goes to that round and the session is running again.
pub proof fn lemma_dead_session_restarts_without_continuity(
    session: TerminalSession,
    probe_alive: bool,
    round_id: u64,
)
    requires
        session.phase is Alive,
    ensures
        !session.died().running(probe_alive),
        session.died().dispatch(probe_alive).action == (EnsureAlive::Spawn { tear_down: true }),
        !session.died().dispatch(probe_alive).continuity,
        !session.died().dispatch(probe_alive).interrupted,
        ({
            let restarted = TerminalSession {
                current_round: round_id,
                ..session.died().after_dispatch(probe_alive).spawned(true)
            };
            restarted.running(true) && restarted.current_round == round_id
        }),
{
}

/// A send after the process has died goes through once a new process runs:
/// it gets a round id above every id before it, it does not continue the
/// conversation, its answer is a success under that id, and its session
/// overrides become the ones in use.
pub proof fn lemma_send_after_death_starts_anew(
    manager: ManagerState,
    session: TerminalSession,
    input: Seq<char>,
    openai_config: Option<crate::config::OpenAiConfigView>,
    headless_config: Option<crate::config::HeadlessConfigView>,
    probe_alive: bool,
)
    requires
        session.phase is Alive,
        manager.generation_round < u64::MAX,
    ensures
        ({
            let dispatch = session.died().dispatch(probe_alive);
            let round = dispatch.adopted(manager.send_round(input, openai_config, headless_config));
            let after = manager.after_send_begun().after_dispatch(round, true);
            &&& dispatch.action == (EnsureAlive::Spawn { tear_down: true })
            &&& !round.continuity
            &&& round.round_id == manager.generation_round + 1
            &&& send_result(round, Ok(())) == Ok::<SendAck, Seq<char>>(
                SendAck { ok: true, round_id: round.round_id },
            )
            &&& after.generation_round == round.round_id
            &&& after.session_headless_config == round.headless_config
            &&& after.last_failed is None
        }),
{
}

/// The end of the process interrupts a session at most once, and never
/// before a round was sent to the process.
pub proof fn lemma_interrupted_once(session: TerminalSession)
    ensures
        session.current_round == 0 ==> !session.interrupts(),
        !session.died().interrupts(),
        session.died().died() == session.died(),
{
}

} // verus!
