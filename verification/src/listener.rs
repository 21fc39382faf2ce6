//! The command-acquisition state machine.
//!
//! The machine never touches a microphone or an engine. A driver tells it what
//! it observed, one [`Event`] at a time, and does what the returned [`Action`]
//! says. Every decision of the listening loops is taken here: whether to read
//! another frame, when to change phase, when to hand a name to the dispatcher
//! and when to stop.

use vstd::prelude::*;
use crate::wait::Wait;
use crate::wait::WaitModel;

verus! {

/// Where the machine stands.
#[derive(Clone, Copy, Debug, PartialEq, Eq)]
pub enum Phase {
    /// Idle: frames go to the wake-word engine.
    WakeListening,
    /// A wake word was heard: frames go to the intent engine.
    CommandListening,
    /// The run has ended. Nothing leaves this phase.
    Stopped,
}

/// What the intent engine concluded about one utterance.
#[derive(Debug, PartialEq, Eq)]
pub struct Inference {
    /// Whether the engine understood the utterance.
    pub is_understood: bool,
    /// The name of the intent, if the engine assigned one.
    pub intent: Option<String>,
}

/// What the driver observed.
#[derive(Debug, PartialEq, Eq)]
pub enum Event {
    /// The running flag, read at the top of a loop iteration.
    Running(bool),
    /// The wake-word engine's answer for one frame: the index of the wake
    /// phrase that fired, if one did.
    Wake(Option<u32>),
    /// The intent engine's answer for one frame: whether it has finalized.
    Finalized(bool),
    /// The inference fetched from the intent engine after it finalized.
    Inferred(Inference),
}

/// What the driver is to do next.
#[derive(Debug, PartialEq, Eq)]
pub enum Action {
    /// Read one frame, hand it to the wake-word engine, report [`Event::Wake`].
    ReadWakeFrame,
    /// Read one frame, hand it to the intent engine, report [`Event::Finalized`].
    ReadCommandFrame,
    /// Fetch the inference from the intent engine, report [`Event::Inferred`].
    FetchInference,
    /// Show `symbol` as feedback for the loop of `phase`, then report the running flag.
    ShowProgress { phase: Phase, symbol: &'static str },
    /// The wake phrase with this index fired; command listening begins. Report the
    /// running flag.
    Detected(u32),
    /// Hand this intent name to the dispatcher, then report the running flag.
    Dispatch(String),
    /// The utterance was not understood or carries no intent. Report the running flag.
    NotUnderstood,
    /// The event does not belong to the current phase and changed nothing. Report
    /// the running flag.
    Ignored,
    /// Stop audio capture and end the run normally.
    Stop,
}

/// The detection that a raw keyword index stands for: a negative index means
/// that no wake phrase fired.
pub open spec fn detection_of(keyword_index: i32) -> Option<u32> {
    if keyword_index >= 0 {
        Some(keyword_index as u32)
    } else {
        None
    }
}

/// Converts the raw keyword index of a wake-word engine into a detection.
pub fn detection_from_index(keyword_index: i32) -> (detection: Option<u32>)
    ensures
        detection == detection_of(keyword_index),
{
    if keyword_index >= 0 {
        Some(keyword_index as u32)
    } else {
        None
    }
}

/// The machine as a mathematical value: its phase and its two progress indicators.
pub struct ListenerModel {
    pub phase: Phase,
    pub wake_wait: WaitModel,
    pub command_wait: WaitModel,
}

impl ListenerModel {
    /// Both indicators have a symbol under their cursor.
    pub open spec fn wf(self) -> bool {
        self.wake_wait.wf() && self.command_wait.wf()
    }

    /// The machine at the start of a run.
    pub open spec fn initial(wake_wait: WaitModel, command_wait: WaitModel) -> ListenerModel {
        ListenerModel { phase: Phase::WakeListening, wake_wait, command_wait }
    }

    /// This machine in another phase.
    pub open spec fn in_phase(self, phase: Phase) -> ListenerModel {
        ListenerModel { phase, ..self }
    }

    /// One step while listening for the wake word.
    pub open spec fn wake_step(self, event: Event) -> (ListenerModel, Action) {
        match event {
            Event::Running(false) => (self.in_phase(Phase::Stopped), Action::Stop),
            Event::Running(true) => (self, Action::ReadWakeFrame),
            Event::Wake(Some(index)) => (
                ListenerModel {
                    phase: Phase::CommandListening,
                    command_wait: self.command_wait.restarted(),
                    ..self
                },
                Action::Detected(index),
            ),
            Event::Wake(None) => (
                ListenerModel { wake_wait: self.wake_wait.tick(), ..self },
                Action::ShowProgress {
                    phase: Phase::WakeListening,
                    symbol: self.wake_wait.current(),
                },
            ),
            Event::Finalized(_) => (self, Action::Ignored),
            Event::Inferred(_) => (self, Action::Ignored),
        }
    }

    /// One step while listening for a command.
    pub open spec fn command_step(self, event: Event) -> (ListenerModel, Action) {
        match event {
            Event::Running(false) => (self.in_phase(Phase::Stopped), Action::Stop),
            Event::Running(true) => (self, Action::ReadCommandFrame),
            Event::Finalized(true) => (self, Action::FetchInference),
            Event::Finalized(false) => (
                ListenerModel { command_wait: self.command_wait.tick(), ..self },
                Action::ShowProgress {
                    phase: Phase::CommandListening,
                    symbol: self.command_wait.current(),
                },
            ),
            Event::Inferred(inference) => (
                self.in_phase(Phase::WakeListening),
                match inference.intent {
                    Some(name) if inference.is_understood => Action::Dispatch(name),
                    _ => Action::NotUnderstood,
                },
            ),
            Event::Wake(_) => (self, Action::Ignored),
        }
    }

    /// The machine after `event`, and what the driver is to do.
    pub open spec fn step(self, event: Event) -> (ListenerModel, Action) {
        match self.phase {
            Phase::WakeListening => self.wake_step(event),
            Phase::CommandListening => self.command_step(event),
            Phase::Stopped => (self, Action::Stop),
        }
    }

    /// The machine after a whole trace of events, and the actions it asked for,
    /// in order.
    pub open spec fn run(self, events: Seq<Event>) -> (ListenerModel, Seq<Action>)
        decreases events.len(),
    {
        if events.len() == 0 {
            (self, Seq::empty())
        } else {
            let (before, actions) = self.run(events.drop_last());
            let (after, action) = before.step(events.last());
            (after, actions.push(action))
        }
    }
}

/// The command-acquisition state machine.
pub struct Listener {
    phase: Phase,
    wake_wait: Wait,
    command_wait: Wait,
}

impl View for Listener {
    type V = ListenerModel;

    closed spec fn view(&self) -> ListenerModel {
        ListenerModel {
            phase: self.phase,
            wake_wait: self.wake_wait@,
            command_wait: self.command_wait@,
        }
    }
}

impl Listener {
    /// A machine that listens for the wake word, with one progress indicator
    /// for each of its two loops.
    pub fn new(wake_wait: Wait, command_wait: Wait) -> (listener: Listener)
        ensures
            listener@ == ListenerModel::initial(wake_wait@, command_wait@),
    {
        Listener { phase: Phase::WakeListening, wake_wait, command_wait }
    }

    /// The phase the machine is in.
    pub fn phase(&self) -> (phase: Phase)
        ensures
            phase == self@.phase,
    {
        self.phase
    }

    /// Takes in one event and answers with the next action.
    pub fn step(&mut self, event: &Event) -> (action: Action)
        ensures
            old(self)@.wf(),
            (final(self)@, action) == old(self)@.step(*event),
            final(self)@.wf(),
    {
        proof {
            use_type_invariant(&self.wake_wait);
            use_type_invariant(&self.command_wait);
        }
        match self.phase {
            Phase::WakeListening => match event {
                Event::Running(false) => {
                    self.phase = Phase::Stopped;
                    Action::Stop
                },
                Event::Running(true) => Action::ReadWakeFrame,
                Event::Wake(Some(index)) => {
                    self.phase = Phase::CommandListening;
                    self.command_wait.restart();
                    Action::Detected(*index)
                },
                Event::Wake(None) => {
                    let symbol = self.wake_wait.next();
                    Action::ShowProgress { phase: Phase::WakeListening, symbol }
                },
                Event::Finalized(_) => Action::Ignored,
                Event::Inferred(_) => Action::Ignored,
            },
            Phase::CommandListening => match event {
                Event::Running(false) => {
                    self.phase = Phase::Stopped;
                    Action::Stop
                },
                Event::Running(true) => Action::ReadCommandFrame,
                Event::Finalized(true) => Action::FetchInference,
                Event::Finalized(false) => {
                    let symbol = self.command_wait.next();
                    Action::ShowProgress { phase: Phase::CommandListening, symbol }
                },
                Event::Inferred(inference) => {
                    self.phase = Phase::WakeListening;
                    match &inference.intent {
                        Some(name) if inference.is_understood => Action::Dispatch(name.clone()),
                        _ => Action::NotUnderstood,
                    }
                },
                Event::Wake(_) => Action::Ignored,
            },
            Phase::Stopped => Action::Stop,
        }
    }

    /// Feeds a recorded trace of events through the machine, one step each,
    /// and collects the actions it asked for.
    pub fn replay(&mut self, events: &Vec<Event>) -> (actions: Vec<Action>)
        ensures
            old(self)@.wf(),
            (final(self)@, actions@) == old(self)@.run(events@),
            final(self)@.wf(),
    {
        proof {
            use_type_invariant(&self.wake_wait);
            use_type_invariant(&self.command_wait);
        }
        let mut actions: Vec<Action> = Vec::new();
        let mut done: usize = 0;
        while done < events.len()
            invariant
                done <= events.len(),
                self@.wf(),
                (self@, actions@) == old(self)@.run(events@.take(done as int)),
            decreases events.len() - done,
        {
            proof {
                assert(events@.take(done + 1).drop_last() =~= events@.take(done as int));
            }
            let action = self.step(&events[done]);
            actions.push(action);
            done += 1;
        }
        proof {
            assert(events@.take(done as int) =~= events@);
        }
        actions
    }
}

/// Whether `action` tells the driver to read an audio frame.
pub open spec fn reads_frame(action: Action) -> bool {
    action is ReadWakeFrame || action is ReadCommandFrame
}

/// A step keeps a well-formed machine well-formed and never changes the
/// symbols of its indicators.
pub proof fn lemma_step_preserves(machine: ListenerModel, event: Event)
    requires
        machine.wf(),
    ensures
        machine.step(event).0.wf(),
        machine.step(event).0.wake_wait.symbols == machine.wake_wait.symbols,
        machine.step(event).0.command_wait.symbols == machine.command_wait.symbols,
{
}

/// A run asks for exactly one action per event.
pub proof fn lemma_run_length(machine: ListenerModel, events: Seq<Event>)
    ensures
        machine.run(events).1.len() == events.len(),
    decreases events.len(),
{
    if events.len() > 0 {
        lemma_run_length(machine, events.drop_last());
    }
}

/// Cancellation is honoured at the top of the next iteration, in either
/// listening phase: when the running flag is read as false the machine stops
/// at once, asks for no frame, hands nothing to the dispatcher and leaves both
/// progress indicators as they were.
pub proof fn lemma_cancel_stops(machine: ListenerModel)
    requires
        machine.phase != Phase::Stopped,
    ensures
        machine.step(Event::Running(false)) == (machine.in_phase(Phase::Stopped), Action::Stop),
{
}

/// The stopped phase is final and shutdown is idempotent: whatever arrives
/// afterwards, the machine stays as it is and answers `Stop`.
pub proof fn lemma_stopped_is_final(machine: ListenerModel, events: Seq<Event>)
    requires
        machine.phase == Phase::Stopped,
    ensures
        machine.run(events).0 == machine,
        forall|i: int| 0 <= i < events.len() ==> machine.run(events).1[i] == Action::Stop,
    decreases events.len(),
{
    lemma_run_length(machine, events);
    if events.len() > 0 {
        lemma_stopped_is_final(machine, events.drop_last());
        lemma_run_length(machine, events.drop_last());
    }
}

/// A run whose first observation is a false running flag performs no frame
/// read at all, whatever follows and whichever phase it began in: every
/// action of the run is `Stop`, and the machine ends stopped with its
/// indicators untouched.
pub proof fn lemma_cancelled_run_reads_nothing(machine: ListenerModel, events: Seq<Event>)
    requires
        events.len() > 0,
        events[0] == Event::Running(false),
    ensures
        machine.run(events).0 == machine.in_phase(Phase::Stopped),
        forall|i: int| 0 <= i < events.len() ==> machine.run(events).1[i] == Action::Stop,
        forall|i: int| 0 <= i < events.len() ==> !reads_frame(#[trigger] machine.run(events).1[i]),
    decreases events.len(),
{
    lemma_run_length(machine, events);
    let earlier = events.drop_last();
    lemma_run_length(machine, earlier);
    if earlier.len() == 0 {
        assert(machine.run(earlier) == (machine, Seq::<Action>::empty()));
        assert(events.last() == Event::Running(false));
    } else {
        lemma_cancelled_run_reads_nothing(machine, earlier);
    }
}

/// A frame is read only when the running flag was just seen true, and it goes
/// to the engine of the current phase: the wake-word engine never sees a frame
/// while a command is awaited, nor the intent engine one while idle.
pub proof fn lemma_frames_follow_phase(machine: ListenerModel, event: Event)
    ensures
        machine.step(event).1 is ReadWakeFrame <==> machine.phase == Phase::WakeListening && event
            == Event::Running(true),
        machine.step(event).1 is ReadCommandFrame <==> machine.phase == Phase::CommandListening
            && event == Event::Running(true),
        reads_frame(machine.step(event).1) ==> machine.step(event).0 == machine,
{
}

/// The dispatcher is handed a name in exactly one situation: while a command
/// is awaited, an inference arrives that is understood and carries that name.
/// The machine is then back to listening for the wake word.
pub proof fn lemma_dispatch_only_when_understood(
    machine: ListenerModel,
    event: Event,
    name: String,
)
    ensures
        machine.step(event).1 == Action::Dispatch(name) <==> machine.phase
            == Phase::CommandListening && event == Event::Inferred(
            Inference { is_understood: true, intent: Some(name) },
        ),
        machine.step(event).1 is Dispatch ==> machine.step(event).0 == machine.in_phase(
            Phase::WakeListening,
        ),
{
}

/// An inference that is not understood, or that carries no intent, never
/// reaches the dispatcher: the machine reports it and goes back to listening
/// for the wake word, with both indicators as they were.
pub proof fn lemma_not_understood_returns_to_wake(machine: ListenerModel, inference: Inference)
    requires
        machine.phase == Phase::CommandListening,
        !inference.is_understood || inference.intent is None,
    ensures
        machine.step(Event::Inferred(inference)) == (
            machine.in_phase(Phase::WakeListening),
            Action::NotUnderstood,
        ),
{
}

/// The only way into command listening is a detection while idle, and the
/// only ways out of it are an inference and cancellation.
pub proof fn lemma_phase_changes(machine: ListenerModel, event: Event)
    ensures
        machine.step(event).0.phase == Phase::CommandListening && machine.phase
            != Phase::CommandListening ==> machine.phase == Phase::WakeListening && event matches Event::Wake(
            Some(_),
        ),
        machine.phase == Phase::CommandListening && machine.step(event).0.phase
            != Phase::CommandListening ==> event is Inferred || event == Event::Running(false),
        machine.step(event).0.phase == Phase::Stopped && machine.phase != Phase::Stopped ==> event
            == Event::Running(false),
{
}

} // verus!
