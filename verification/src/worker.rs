//! The key-generation worker: one threshold key-generation ceremony, as a
//! state machine.
//!
//! The worker decides; its caller acts. Each step takes what arrived (a
//! command from the coordinator, or a result of the cryptographic engine) and
//! answers with the next state, what to emit on the result channel, and what
//! to do next. Cryptographic values pass through as opaque bytes.

use crossbeam::channel::{Receiver, Sender};
use std::collections::HashMap;
use vstd::prelude::*;

verus! {

broadcast use vstd::std_specs::hash::group_hash_axioms;

/// Why a ceremony ended without a key.
#[derive(Clone, Copy, Debug, PartialEq, Eq, Structural)]
pub enum Error {
    /// The `Start` command carried parameters outside `1 <= t <= n`, `1 <= i <= n`.
    InvalidParams,
    /// A command arrived that the current phase does not take.
    UnexpectedCommand,
    /// The engine answered with a result that the current phase did not ask for.
    UnexpectedEngineResult,
    /// The engine reported a failure.
    EngineFailure,
    /// The other end of a channel is gone.
    Disconnected,
}

/// Threshold parameters of a ceremony: `t` shares sign, `n` peers take part,
/// and this peer is number `i`.
#[derive(Clone, Copy, Debug, PartialEq, Eq, Structural)]
pub struct ThresholdParams {
    pub t: u16,
    pub n: u16,
    pub i: u16,
}

/// Whether `(t, n, i)` are parameters that a ceremony can run with.
pub open spec fn valid_triple(t: u16, n: u16, i: u16) -> bool {
    1 <= t && t <= n && 1 <= i && i <= n
}

impl ThresholdParams {
    /// The parameters are in range.
    pub open spec fn wf(self) -> bool {
        valid_triple(self.t, self.n, self.i)
    }

    /// How many other peers a collection phase waits for.
    pub open spec fn peers(self) -> nat {
        (self.n - 1) as nat
    }

    /// Checks the parameters as the engine does, and keeps them or rejects
    /// them.
    pub fn new(t: u16, n: u16, i: u16) -> (r: Result<ThresholdParams, Error>)
        ensures
            valid_triple(t, n, i) ==> r == Ok::<ThresholdParams, Error>(
                (ThresholdParams { t, n, i }),
            ),
            !valid_triple(t, n, i) ==> r == Err::<ThresholdParams, Error>(Error::InvalidParams),
    {
        if i >= 1 && engine_accepts(t, n, i) {
            Ok(ThresholdParams { t, n, i })
        } else {
            Err(Error::InvalidParams)
        }
    }
}

/// The receiving end of a channel of the crate `crossbeam`.
#[verifier::external_type_specification]
#[verifier::external_body]
#[verifier::reject_recursive_types(T)]
pub struct ExReceiver<T>(Receiver<T>);

/// The sending end of a channel of the crate `crossbeam`.
#[verifier::external_type_specification]
#[verifier::external_body]
#[verifier::reject_recursive_types(T)]
pub struct ExSender<T>(Sender<T>);

/// A command on the worker's inbound channel.
#[derive(Debug, PartialEq, Eq)]
pub enum KeyGenThreadMessage {
    /// Begin a ceremony with threshold, total and own index.
    Start(u16, u16, u16),
    /// The commitment of the peer with the given index.
    Commitment((u16, Vec<u8>)),
    /// The secret share sent by the peer with the given index.
    SecretShare((u16, Vec<u8>)),
}

/// A result on the worker's outbound channel.
#[derive(Debug, PartialEq, Eq)]
pub enum KeyGenThreadOutput {
    /// This peer's own commitment, for all others.
    Commitments(Vec<u8>),
    /// One share per peer, each to be routed to the peer it is keyed by.
    SecretShares(HashMap<u16, Vec<u8>>),
    /// The completed threshold key.
    Key(Vec<u8>),
}

/// What the cryptographic engine handed back for the step it was asked for.
#[derive(Debug, PartialEq, Eq)]
pub enum EngineResult {
    Coefficients(Vec<u8>),
    SecretShares(HashMap<u16, Vec<u8>>),
    Key(Vec<u8>),
    Failure,
}

/// What the caller does after a step.
#[derive(Debug, PartialEq, Eq)]
pub enum NextStep {
    /// Wait for the next command.
    AwaitCommand,
    /// Run the engine's coefficient generation.
    GenerateCoefficients(ThresholdParams),
    /// Run the engine's share generation over the frozen commitments.
    GenerateSecretShares(HashMap<u16, Vec<u8>>),
    /// Run the engine's key completion over the collected shares.
    CompleteKey(HashMap<u16, Vec<u8>>),
    /// The ceremony is over; take no more commands.
    Stop,
}

/// The answer of one step.
#[derive(Debug, PartialEq, Eq)]
pub struct WorkerStep {
    /// What to send on the result channel, if anything.
    pub output: Option<KeyGenThreadOutput>,
    pub next: NextStep,
}

/// The phases of a ceremony, in the order in which they are passed.
#[derive(Clone, Copy, Debug, PartialEq, Eq, Structural)]
pub enum WorkerPhase {
    AwaitStart,
    GenerateCoefficients,
    CollectCommitments,
    GenerateShares,
    CollectShares,
    Complete,
    Finished,
    Failed,
}

/// A `KeyGenThreadOutput` as a mathematical value.
pub enum OutputView {
    Commitments(Vec<u8>),
    SecretShares(Map<u16, Vec<u8>>),
    Key(Vec<u8>),
}

/// A `NextStep` as a mathematical value.
pub enum NextStepView {
    AwaitCommand,
    GenerateCoefficients(ThresholdParams),
    GenerateSecretShares(Map<u16, Vec<u8>>),
    CompleteKey(Map<u16, Vec<u8>>),
    Stop,
}

/// A `WorkerStep` as a mathematical value.
pub struct StepView {
    pub output: Option<OutputView>,
    pub next: NextStepView,
}

impl StepView {
    /// Nothing to emit, and the ceremony is over.
    pub open spec fn stop() -> StepView {
        StepView { output: None, next: NextStepView::Stop }
    }
}

impl View for KeyGenThreadOutput {
    type V = OutputView;

    open spec fn view(&self) -> OutputView {
        match *self {
            KeyGenThreadOutput::Commitments(c) => OutputView::Commitments(c),
            KeyGenThreadOutput::SecretShares(m) => OutputView::SecretShares(m@),
            KeyGenThreadOutput::Key(k) => OutputView::Key(k),
        }
    }
}

impl View for NextStep {
    type V = NextStepView;

    open spec fn view(&self) -> NextStepView {
        match *self {
            NextStep::AwaitCommand => NextStepView::AwaitCommand,
            NextStep::GenerateCoefficients(p) => NextStepView::GenerateCoefficients(p),
            NextStep::GenerateSecretShares(m) => NextStepView::GenerateSecretShares(m@),
            NextStep::CompleteKey(m) => NextStepView::CompleteKey(m@),
            NextStep::Stop => NextStepView::Stop,
        }
    }
}

impl View for WorkerStep {
    type V = StepView;

    open spec fn view(&self) -> StepView {
        StepView {
            output: match self.output {
                Some(o) => Some(o@),
                None => None,
            },
            next: self.next@,
        }
    }
}

/// The worker as a mathematical value.
pub struct WorkerView {
    pub phase: WorkerPhase,
    pub params: Option<ThresholdParams>,
    pub failure: Option<Error>,
    /// What the current collection phase has recorded, by peer index.
    pub collected: Map<u16, Vec<u8>>,
}

impl WorkerView {
    /// The worker before `Start`.
    pub open spec fn initial() -> WorkerView {
        WorkerView {
            phase: WorkerPhase::AwaitStart,
            params: None,
            failure: None,
            collected: Map::empty(),
        }
    }

    /// Whether the worker is in one of its two collection phases.
    pub open spec fn collecting(self) -> bool {
        self.phase == WorkerPhase::CollectCommitments || self.phase == WorkerPhase::CollectShares
    }

    /// A collection phase holds fewer entries than it waits for; outside one
    /// nothing is held. Parameters exist from `Start` on and are in range.
    pub open spec fn wf(self) -> bool {
        &&& self.collected.dom().finite()
        &&& (self.failure is Some <==> self.phase == WorkerPhase::Failed)
        &&& (self.phase == WorkerPhase::AwaitStart ==> self.params is None)
        &&& (self.phase != WorkerPhase::AwaitStart && self.phase != WorkerPhase::Failed
            ==> self.params is Some && self.params->0.wf())
        &&& (self.collecting() ==> self.collected.len() < self.params->0.peers())
        &&& (!self.collecting() ==> self.collected == Map::<u16, Vec<u8>>::empty())
    }

    /// The ceremony, abandoned for the reason `e`.
    pub open spec fn failed(self, e: Error) -> WorkerView {
        WorkerView {
            phase: WorkerPhase::Failed,
            params: self.params,
            failure: Some(e),
            collected: Map::empty(),
        }
    }

    /// Whether the ceremony is over, with a key or without.
    pub open spec fn terminal(self) -> bool {
        self.phase == WorkerPhase::Finished || self.phase == WorkerPhase::Failed
    }

    /// Records `(idx, value)` in a collection phase, the later value
    /// replacing an earlier one of the same index, and moves on to `then`
    /// once as many distinct indices are held as there are other peers.
    pub open spec fn record(self, idx: u16, value: Vec<u8>, then: WorkerPhase) -> WorkerView {
        let held = self.collected.insert(idx, value);
        if held.len() == self.params->0.peers() {
            WorkerView { phase: then, collected: Map::empty(), ..self }
        } else {
            WorkerView { collected: held, ..self }
        }
    }

    /// What the caller does after `(idx, value)` was recorded: run the
    /// engine step `full` over all that is held, or wait for more.
    pub open spec fn record_next(self, idx: u16, value: Vec<u8>, full: NextStepView) -> NextStepView {
        if self.collected.insert(idx, value).len() == self.params->0.peers() {
            full
        } else {
            NextStepView::AwaitCommand
        }
    }

    /// The state after a command.
    pub open spec fn after_command(self, cmd: KeyGenThreadMessage) -> WorkerView {
        if self.terminal() {
            self
        } else {
            match cmd {
                KeyGenThreadMessage::Start(t, n, i) => if self.phase != WorkerPhase::AwaitStart {
                    self.failed(Error::UnexpectedCommand)
                } else if valid_triple(t, n, i) {
                    WorkerView {
                        phase: WorkerPhase::GenerateCoefficients,
                        params: Some(ThresholdParams { t, n, i }),
                        failure: None,
                        collected: Map::empty(),
                    }
                } else {
                    self.failed(Error::InvalidParams)
                },
                KeyGenThreadMessage::Commitment((idx, value)) => if self.phase
                    == WorkerPhase::CollectCommitments {
                    self.record(idx, value, WorkerPhase::GenerateShares)
                } else {
                    self.failed(Error::UnexpectedCommand)
                },
                KeyGenThreadMessage::SecretShare((idx, value)) => if self.phase
                    == WorkerPhase::CollectShares {
                    self.record(idx, value, WorkerPhase::Complete)
                } else {
                    self.failed(Error::UnexpectedCommand)
                },
            }
        }
    }

    /// What the caller does after a command. A command never emits a result.
    pub open spec fn next_after_command(self, cmd: KeyGenThreadMessage) -> NextStepView {
        let after = self.after_command(cmd);
        if after.terminal() {
            NextStepView::Stop
        } else {
            match cmd {
                KeyGenThreadMessage::Start(t, n, i) => NextStepView::GenerateCoefficients(
                    ThresholdParams { t, n, i },
                ),
                KeyGenThreadMessage::Commitment((idx, value)) => self.record_next(
                    idx,
                    value,
                    NextStepView::GenerateSecretShares(self.collected.insert(idx, value)),
                ),
                KeyGenThreadMessage::SecretShare((idx, value)) => self.record_next(
                    idx,
                    value,
                    NextStepView::CompleteKey(self.collected.insert(idx, value)),
                ),
            }
        }
    }

    /// What waiting for a command can lead to: the state `after` and the
    /// answer `step` are those of some command, or those of a ceremony
    /// that failed because the channel was disconnected.
    pub open spec fn received(self, after: WorkerView, step: StepView) -> bool {
        ||| exists|cmd: KeyGenThreadMessage|
            after == #[trigger] self.after_command(cmd) && step == (StepView {
                output: None,
                next: self.next_after_command(cmd),
            })
        ||| after == self.failed(Error::Disconnected) && step == StepView::stop()
    }

    /// Whether a ceremony has no other peers to wait for.
    pub open spec fn alone(self) -> bool {
        self.params->0.peers() == 0
    }

    /// The state after a result of the engine.
    pub open spec fn after_engine(self, res: EngineResult) -> WorkerView {
        if self.terminal() {
            self
        } else {
            match res {
                EngineResult::Failure => self.failed(Error::EngineFailure),
                EngineResult::Coefficients(_) => if self.phase
                    != WorkerPhase::GenerateCoefficients {
                    self.failed(Error::UnexpectedEngineResult)
                } else if self.alone() {
                    WorkerView { phase: WorkerPhase::GenerateShares, ..self }
                } else {
                    WorkerView { phase: WorkerPhase::CollectCommitments, ..self }
                },
                EngineResult::SecretShares(_) => if self.phase != WorkerPhase::GenerateShares {
                    self.failed(Error::UnexpectedEngineResult)
                } else if self.alone() {
                    WorkerView { phase: WorkerPhase::Complete, ..self }
                } else {
                    WorkerView { phase: WorkerPhase::CollectShares, ..self }
                },
                EngineResult::Key(_) => if self.phase != WorkerPhase::Complete {
                    self.failed(Error::UnexpectedEngineResult)
                } else {
                    WorkerView { phase: WorkerPhase::Finished, ..self }
                },
            }
        }
    }

    /// What is emitted, and what the caller does, after a result of the engine.
    pub open spec fn step_after_engine(self, res: EngineResult) -> StepView {
        let after = self.after_engine(res);
        if self.terminal() || after.phase == WorkerPhase::Failed {
            StepView { output: None, next: NextStepView::Stop }
        } else {
            match res {
                EngineResult::Coefficients(c) => StepView {
                    output: Some(OutputView::Commitments(c)),
                    next: if self.alone() {
                        NextStepView::GenerateSecretShares(Map::empty())
                    } else {
                        NextStepView::AwaitCommand
                    },
                },
                EngineResult::SecretShares(m) => StepView {
                    output: Some(OutputView::SecretShares(m@)),
                    next: if self.alone() {
                        NextStepView::CompleteKey(Map::empty())
                    } else {
                        NextStepView::AwaitCommand
                    },
                },
                EngineResult::Key(k) => StepView {
                    output: Some(OutputView::Key(k)),
                    next: NextStepView::Stop,
                },
                EngineResult::Failure => StepView { output: None, next: NextStepView::Stop },
            }
        }
    }
}

/// One ceremony. A worker serves one and is not used again.
pub struct KeyGenWorker {
    phase: WorkerPhase,
    params: Option<ThresholdParams>,
    failure: Option<Error>,
    collected: HashMap<u16, Vec<u8>>,
}

impl View for KeyGenWorker {
    type V = WorkerView;

    closed spec fn view(&self) -> WorkerView {
        WorkerView {
            phase: self.phase,
            params: self.params,
            failure: self.failure,
            collected: self.collected@,
        }
    }
}

impl KeyGenWorker {
    /// A worker that waits for `Start`.
    pub fn new() -> (w: KeyGenWorker)
        ensures
            w@ == WorkerView::initial(),
            w@.wf(),
    {
        KeyGenWorker {
            phase: WorkerPhase::AwaitStart,
            params: None,
            failure: None,
            collected: HashMap::new(),
        }
    }

    /// The phase that the ceremony is in.
    pub fn phase(&self) -> (p: WorkerPhase)
        ensures
            p == self@.phase,
    {
        self.phase
    }

    /// The parameters, from `Start` on.
    pub fn params(&self) -> (p: Option<ThresholdParams>)
        ensures
            p == self@.params,
    {
        self.params
    }

    /// Why the ceremony failed, if it did.
    pub fn failure(&self) -> (e: Option<Error>)
        ensures
            e == self@.failure,
    {
        self.failure
    }

    /// How many distinct peer indices the current collection phase holds.
    pub fn recorded(&self) -> (k: usize)
        ensures
            k == self@.collected.len(),
    {
        self.collected.len()
    }

    fn fail(self, e: Error) -> (r: (KeyGenWorker, WorkerStep))
        ensures
            r.0@ == self@.failed(e),
            r.0@.wf(),
            r.1@ == (StepView { output: None, next: NextStepView::Stop }),
    {
        (
            KeyGenWorker {
                phase: WorkerPhase::Failed,
                params: self.params,
                failure: Some(e),
                collected: HashMap::new(),
            },
            WorkerStep { output: None, next: NextStep::Stop },
        )
    }

    fn halt(self) -> (r: (KeyGenWorker, WorkerStep))
        ensures
            r.0@ == self@,
            r.1@ == (StepView { output: None, next: NextStepView::Stop }),
    {
        (self, WorkerStep { output: None, next: NextStep::Stop })
    }

    /// Takes one command from the inbound channel.
    ///
    /// `Start` is taken only before the ceremony began, and its parameters
    /// are checked. A commitment or a share is taken only in its collection
    /// phase; the phase ends exactly when as many distinct peer indices are
    /// held as there are other peers, and what was collected is handed to the
    /// engine step that follows. Any other command ends the ceremony. A
    /// finished or failed worker takes nothing and stays as it is.
    pub fn on_command(self, cmd: KeyGenThreadMessage) -> (r: (KeyGenWorker, WorkerStep))
        requires
            self@.wf(),
        ensures
            r.0@ == self@.after_command(cmd),
            r.0@.wf(),
            r.1@ == (StepView { output: None, next: self@.next_after_command(cmd) }),
    {
        if self.phase == WorkerPhase::Finished || self.phase == WorkerPhase::Failed {
            return self.halt();
        }
        match cmd {
            KeyGenThreadMessage::Start(t, n, i) => {
                if self.phase != WorkerPhase::AwaitStart {
                    return self.fail(Error::UnexpectedCommand);
                }
                match ThresholdParams::new(t, n, i) {
                    Ok(p) => (
                        KeyGenWorker {
                            phase: WorkerPhase::GenerateCoefficients,
                            params: Some(p),
                            failure: None,
                            collected: HashMap::new(),
                        },
                        WorkerStep { output: None, next: NextStep::GenerateCoefficients(p) },
                    ),
                    Err(e) => self.fail(e),
                }
            },
            KeyGenThreadMessage::Commitment((idx, value)) => {
                if self.phase != WorkerPhase::CollectCommitments {
                    return self.fail(Error::UnexpectedCommand);
                }
                let (w, held) = self.record(idx, value, WorkerPhase::GenerateShares);
                match held {
                    Some(m) => (w, WorkerStep { output: None, next: NextStep::GenerateSecretShares(m) }),
                    None => (w, WorkerStep { output: None, next: NextStep::AwaitCommand }),
                }
            },
            KeyGenThreadMessage::SecretShare((idx, value)) => {
                if self.phase != WorkerPhase::CollectShares {
                    return self.fail(Error::UnexpectedCommand);
                }
                let (w, held) = self.record(idx, value, WorkerPhase::Complete);
                match held {
                    Some(m) => (w, WorkerStep { output: None, next: NextStep::CompleteKey(m) }),
                    None => (w, WorkerStep { output: None, next: NextStep::AwaitCommand }),
                }
            },
        }
    }

    fn record(self, idx: u16, value: Vec<u8>, then: WorkerPhase) -> (r: (
        KeyGenWorker,
        Option<HashMap<u16, Vec<u8>>>,
    ))
        requires
            self@.wf(),
            self@.collecting(),
            then == WorkerPhase::GenerateShares || then == WorkerPhase::Complete,
        ensures
            r.0@ == self@.record(idx, value, then),
            r.0@.wf(),
            r.1 is Some <==> self@.collected.insert(idx, value).len() == self@.params->0.peers(),
            r.1 is Some ==> r.1->0@ == self@.collected.insert(idx, value),
    {
        let KeyGenWorker { phase, params, failure, collected } = self;
        let mut collected = collected;
        let n: u16 = match params {
            Some(p) => p.n,
            None => 1,
        };
        proof {
            lemma_insert_len(collected@, idx, value);
        }
        collected.insert(idx, value);
        if collected.len() == (n - 1) as usize {
            (KeyGenWorker { phase: then, params, failure, collected: HashMap::new() }, Some(collected))
        } else {
            (KeyGenWorker { phase, params, failure, collected }, None)
        }
    }

    /// Takes one result of the cryptographic engine.
    ///
    /// The result that the current phase asked for is emitted on the result
    /// channel and the ceremony moves on: to the collection phase that
    /// follows, or past it where there are no other peers to wait for, or to
    /// its end with the key. A failure of the engine, or a result that was
    /// not asked for, ends the ceremony with nothing emitted.
    pub fn on_engine_result(self, res: EngineResult) -> (r: (KeyGenWorker, WorkerStep))
        requires
            self@.wf(),
        ensures
            r.0@ == self@.after_engine(res),
            r.0@.wf(),
            r.1@ == self@.step_after_engine(res),
    {
        if self.phase == WorkerPhase::Finished || self.phase == WorkerPhase::Failed {
            return self.halt();
        }
        let alone: bool = match self.params {
            Some(p) => p.n == 1,
            None => false,
        };
        match res {
            EngineResult::Failure => self.fail(Error::EngineFailure),
            EngineResult::Coefficients(c) => {
                if self.phase != WorkerPhase::GenerateCoefficients {
                    return self.fail(Error::UnexpectedEngineResult);
                }
                let output = Some(KeyGenThreadOutput::Commitments(c));
                if alone {
                    (
                        self.moved_to(WorkerPhase::GenerateShares),
                        WorkerStep { output, next: NextStep::GenerateSecretShares(HashMap::new()) },
                    )
                } else {
                    (
                        self.moved_to(WorkerPhase::CollectCommitments),
                        WorkerStep { output, next: NextStep::AwaitCommand },
                    )
                }
            },
            EngineResult::SecretShares(m) => {
                if self.phase != WorkerPhase::GenerateShares {
                    return self.fail(Error::UnexpectedEngineResult);
                }
                let output = Some(KeyGenThreadOutput::SecretShares(m));
                if alone {
                    (
                        self.moved_to(WorkerPhase::Complete),
                        WorkerStep { output, next: NextStep::CompleteKey(HashMap::new()) },
                    )
                } else {
                    (
                        self.moved_to(WorkerPhase::CollectShares),
                        WorkerStep { output, next: NextStep::AwaitCommand },
                    )
                }
            },
            EngineResult::Key(k) => {
                if self.phase != WorkerPhase::Complete {
                    return self.fail(Error::UnexpectedEngineResult);
                }
                (
                    self.moved_to(WorkerPhase::Finished),
                    WorkerStep { output: Some(KeyGenThreadOutput::Key(k)), next: NextStep::Stop },
                )
            },
        }
    }

    /// Waits for the next command on the inbound channel and takes it.
    ///
    /// A finished or failed worker does not touch the channel. Otherwise
    /// the worker is, for the command that arrived, what `on_command` makes
    /// of it; where every sender is gone, the ceremony fails as
    /// disconnected.
    pub fn receive(self, commands: &Receiver<KeyGenThreadMessage>) -> (r: (
        KeyGenWorker,
        WorkerStep,
    ))
        requires
            self@.wf(),
        ensures
            r.0@.wf(),
            self@.terminal() ==> r.0@ == self@ && r.1@ == StepView::stop(),
            !self@.terminal() ==> self@.received(r.0@, r.1@),
    {
        if self.phase == WorkerPhase::Finished || self.phase == WorkerPhase::Failed {
            return self.halt();
        }
        match recv_command(commands) {
            Some(cmd) => {
                let r = self.on_command(cmd);
                assert(r.0@ == self@.after_command(cmd));
                r
            },
            None => self.fail(Error::Disconnected),
        }
    }

    /// Takes one result of the engine and sends what it yields on the
    /// outbound channel.
    ///
    /// The worker and the next step are what `on_engine_result` gives,
    /// unless there was something to send and the receiver is gone: then the
    /// ceremony fails as disconnected.
    pub fn report(self, res: EngineResult, results: &Sender<KeyGenThreadOutput>) -> (r: (
        KeyGenWorker,
        NextStep,
    ))
        requires
            self@.wf(),
        ensures
            r.0@.wf(),
            (r.0@ == self@.after_engine(res) && r.1@ == self@.step_after_engine(res).next) || (
            self@.step_after_engine(res).output is Some && r.0@ == self@.after_engine(res).failed(
                Error::Disconnected,
            ) && r.1@ == NextStepView::Stop),
    {
        let (w, step) = self.on_engine_result(res);
        let WorkerStep { output, next } = step;
        match output {
            None => (w, next),
            Some(out) => {
                if send_output(results, out) {
                    (w, next)
                } else {
                    let (failed, _) = w.fail(Error::Disconnected);
                    (failed, NextStep::Stop)
                }
            },
        }
    }

    fn moved_to(self, phase: WorkerPhase) -> (w: KeyGenWorker)
        ensures
            w@ == (WorkerView { phase, ..self@ }),
    {
        KeyGenWorker {
            phase,
            params: self.params,
            failure: self.failure,
            collected: self.collected,
        }
    }
}

/// Asks the engine whether it takes the parameters: makes the participant
/// of index `i` with `Participant::new` and calls `ThresholdParams::new` of
/// `modular_frost`, which accepts exactly a threshold of at least 1 and at
/// most `n`, and a participant of at most `n`.
#[verifier::external_body]
fn engine_accepts(t: u16, n: u16, i: u16) -> (ok: bool)
    requires
        i >= 1,
    ensures
        ok == (1 <= t && t <= n && i <= n),
{
    modular_frost::ThresholdParams::new(t, n, modular_frost::Participant::new(i).unwrap()).is_ok()
}

/// Calls `Receiver::recv` of `crossbeam`: blocks until a command arrives
/// and hands it out, or gives `None` once the channel is empty and every
/// sender is gone. Nothing is claimed of which command arrives.
#[verifier::external_body]
fn recv_command(commands: &Receiver<KeyGenThreadMessage>) -> (cmd: Option<KeyGenThreadMessage>) {
    commands.recv().ok()
}

/// Calls `Sender::send` of `crossbeam`: `true` where the result was handed
/// to the channel, `false` where the receiver is gone.
#[verifier::external_body]
fn send_output(results: &Sender<KeyGenThreadOutput>, out: KeyGenThreadOutput) -> (sent: bool) {
    results.send(out).is_ok()
}

proof fn lemma_insert_len(m: Map<u16, Vec<u8>>, k: u16, v: Vec<u8>)
    requires
        m.dom().finite(),
    ensures
        m.insert(k, v).dom().finite(),
        m.insert(k, v).len() == if m.contains_key(k) {
            m.len()
        } else {
            m.len() + 1
        },
{
    assert(m.insert(k, v).dom() =~= m.dom().insert(k));
}

/// A collection phase is left exactly when as many distinct peer indices are
/// held as there are other peers: a commitment moves the worker from
/// collecting commitments to generating shares if and only if, with it, that
/// many are held. A second commitment under an index already held replaces
/// the first, leaves the count as it was, and so never ends the phase.
pub proof fn lemma_commitment_gate(w: WorkerView, idx: u16, value: Vec<u8>)
    requires
        w.wf(),
        w.phase == WorkerPhase::CollectCommitments,
    ensures
        ({
            let after = w.after_command(KeyGenThreadMessage::Commitment((idx, value)));
            let held = w.collected.insert(idx, value);
            &&& after.wf()
            &&& (after.phase == WorkerPhase::GenerateShares <==> held.len()
                == w.params->0.peers())
            &&& (after.phase != WorkerPhase::GenerateShares ==> after.phase
                == WorkerPhase::CollectCommitments && after.collected == held)
            &&& (w.collected.contains_key(idx) ==> held.len() == w.collected.len()
                && after.phase == WorkerPhase::CollectCommitments)
            &&& (!w.collected.contains_key(idx) ==> held.len() == w.collected.len() + 1)
        }),
{
    lemma_insert_len(w.collected, idx, value);
}

/// The same gate for secret shares: collecting shares ends, and key
/// completion begins, exactly when a share of every other peer is held.
pub proof fn lemma_share_gate(w: WorkerView, idx: u16, value: Vec<u8>)
    requires
        w.wf(),
        w.phase == WorkerPhase::CollectShares,
    ensures
        ({
            let after = w.after_command(KeyGenThreadMessage::SecretShare((idx, value)));
            let held = w.collected.insert(idx, value);
            &&& after.wf()
            &&& (after.phase == WorkerPhase::Complete <==> held.len() == w.params->0.peers())
            &&& (after.phase != WorkerPhase::Complete ==> after.phase
                == WorkerPhase::CollectShares && after.collected == held)
            &&& (w.collected.contains_key(idx) ==> held.len() == w.collected.len()
                && after.phase == WorkerPhase::CollectShares)
        }),
{
    lemma_insert_len(w.collected, idx, value);
}

/// Nothing is emitted before `Start` was taken: a worker that still waits
/// for it answers every command and every engine result without an output,
/// and only a valid `Start` lets the ceremony begin.
pub proof fn lemma_silent_before_start(w: WorkerView, cmd: KeyGenThreadMessage, res: EngineResult)
    requires
        w.wf(),
        w.phase == WorkerPhase::AwaitStart,
    ensures
        w.step_after_engine(res).output is None,
        w.after_engine(res).phase == WorkerPhase::Failed,
        w.after_command(cmd).phase == WorkerPhase::GenerateCoefficients <==> (cmd matches KeyGenThreadMessage::Start(t, n, i) && valid_triple(t, n, i)),
        w.after_command(cmd).phase != WorkerPhase::GenerateCoefficients ==> w.after_command(
            cmd,
        ).phase == WorkerPhase::Failed,
{
}

} // verus!
