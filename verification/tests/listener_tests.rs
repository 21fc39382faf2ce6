use bambam::listener::detection_from_index;
use bambam::listener::Action;
use bambam::listener::Event;
use bambam::listener::Inference;
use bambam::listener::Listener;
use bambam::listener::Phase;
use bambam::wait::Wait;

fn machine() -> Listener {
    Listener::new(Wait::new(vec!["w0", "w1", "w2"]), Wait::new(vec!["c0", "c1"]))
}

fn understood(name: &str) -> Event {
    Event::Inferred(Inference { is_understood: true, intent: Some(name.to_string()) })
}

fn wake_progress(symbol: &'static str) -> Action {
    Action::ShowProgress { phase: Phase::WakeListening, symbol }
}

fn command_progress(symbol: &'static str) -> Action {
    Action::ShowProgress { phase: Phase::CommandListening, symbol }
}

fn in_command_phase() -> Listener {
    let mut listener = machine();
    assert_eq!(listener.step(&Event::Wake(Some(0))), Action::Detected(0));
    assert_eq!(listener.phase(), Phase::CommandListening);
    listener
}

#[test]
fn starts_in_wake_listening() {
    assert_eq!(machine().phase(), Phase::WakeListening);
}

#[test]
fn cancelled_before_first_read_in_wake_phase() {
    let mut listener = machine();
    assert_eq!(listener.step(&Event::Running(false)), Action::Stop);
    assert_eq!(listener.phase(), Phase::Stopped);
}

#[test]
fn cancelled_before_first_read_in_command_phase() {
    let mut listener = in_command_phase();
    assert_eq!(listener.step(&Event::Running(false)), Action::Stop);
    assert_eq!(listener.phase(), Phase::Stopped);
}

#[test]
fn cancelled_run_asks_for_no_frame() {
    let mut listener = machine();
    let events = vec![
        Event::Running(false),
        Event::Running(true),
        Event::Wake(Some(1)),
        Event::Finalized(true),
        understood("lock_door"),
        Event::Running(true),
    ];
    let actions = listener.replay(&events);
    assert_eq!(actions.len(), events.len());
    for action in &actions {
        assert_eq!(*action, Action::Stop);
    }
    assert_eq!(listener.phase(), Phase::Stopped);
}

#[test]
fn stop_is_idempotent() {
    let mut listener = machine();
    assert_eq!(listener.step(&Event::Running(false)), Action::Stop);
    assert_eq!(listener.step(&Event::Running(false)), Action::Stop);
    assert_eq!(listener.step(&Event::Running(true)), Action::Stop);
    assert_eq!(listener.step(&Event::Wake(None)), Action::Stop);
    assert_eq!(listener.step(&Event::Finalized(false)), Action::Stop);
    assert_eq!(listener.phase(), Phase::Stopped);
}

#[test]
fn running_flag_asks_for_the_frame_of_the_phase() {
    let mut listener = machine();
    assert_eq!(listener.step(&Event::Running(true)), Action::ReadWakeFrame);
    assert_eq!(listener.phase(), Phase::WakeListening);
    let mut listener = in_command_phase();
    assert_eq!(listener.step(&Event::Running(true)), Action::ReadCommandFrame);
    assert_eq!(listener.phase(), Phase::CommandListening);
}

#[test]
fn no_detection_advances_the_wake_indicator() {
    let mut listener = machine();
    assert_eq!(listener.step(&Event::Wake(None)), wake_progress("w0"));
    assert_eq!(listener.step(&Event::Wake(None)), wake_progress("w1"));
    assert_eq!(listener.step(&Event::Wake(None)), wake_progress("w2"));
    assert_eq!(listener.step(&Event::Wake(None)), wake_progress("w0"));
    assert_eq!(listener.phase(), Phase::WakeListening);
}

#[test]
fn detection_enters_command_listening_with_its_index() {
    let mut listener = machine();
    assert_eq!(listener.step(&Event::Wake(Some(7))), Action::Detected(7));
    assert_eq!(listener.phase(), Phase::CommandListening);
}

#[test]
fn not_finalized_advances_the_command_indicator() {
    let mut listener = in_command_phase();
    assert_eq!(listener.step(&Event::Finalized(false)), command_progress("c0"));
    assert_eq!(listener.step(&Event::Finalized(false)), command_progress("c1"));
    assert_eq!(listener.step(&Event::Finalized(false)), command_progress("c0"));
    assert_eq!(listener.phase(), Phase::CommandListening);
}

#[test]
fn finalized_asks_for_the_inference() {
    let mut listener = in_command_phase();
    assert_eq!(listener.step(&Event::Finalized(true)), Action::FetchInference);
    assert_eq!(listener.phase(), Phase::CommandListening);
}

#[test]
fn understood_intent_is_dispatched() {
    let mut listener = in_command_phase();
    assert_eq!(
        listener.step(&understood("kitchen_light_yellow")),
        Action::Dispatch("kitchen_light_yellow".to_string())
    );
    assert_eq!(listener.phase(), Phase::WakeListening);
}

#[test]
fn unknown_intent_name_is_still_handed_to_the_dispatcher() {
    let mut listener = in_command_phase();
    assert_eq!(listener.step(&understood("open_garage")), Action::Dispatch("open_garage".to_string()));
    assert_eq!(listener.phase(), Phase::WakeListening);
}

#[test]
fn not_understood_is_never_dispatched() {
    let mut listener = in_command_phase();
    let event = Event::Inferred(Inference { is_understood: false, intent: None });
    assert_eq!(listener.step(&event), Action::NotUnderstood);
    assert_eq!(listener.phase(), Phase::WakeListening);
}

#[test]
fn not_understood_with_a_name_is_never_dispatched() {
    let mut listener = in_command_phase();
    let event =
        Event::Inferred(Inference { is_understood: false, intent: Some("lock_door".to_string()) });
    assert_eq!(listener.step(&event), Action::NotUnderstood);
    assert_eq!(listener.phase(), Phase::WakeListening);
}

#[test]
fn understood_without_intent_returns_to_wake_listening() {
    let mut listener = in_command_phase();
    let event = Event::Inferred(Inference { is_understood: true, intent: None });
    assert_eq!(listener.step(&event), Action::NotUnderstood);
    assert_eq!(listener.phase(), Phase::WakeListening);
}

#[test]
fn events_of_the_other_phase_are_ignored() {
    let mut listener = machine();
    assert_eq!(listener.step(&Event::Finalized(true)), Action::Ignored);
    assert_eq!(listener.step(&Event::Finalized(false)), Action::Ignored);
    assert_eq!(listener.step(&understood("lock_door")), Action::Ignored);
    assert_eq!(listener.phase(), Phase::WakeListening);
    // The ignored events did not move the wake indicator.
    assert_eq!(listener.step(&Event::Wake(None)), wake_progress("w0"));

    let mut listener = in_command_phase();
    assert_eq!(listener.step(&Event::Wake(None)), Action::Ignored);
    assert_eq!(listener.step(&Event::Wake(Some(3))), Action::Ignored);
    assert_eq!(listener.phase(), Phase::CommandListening);
    assert_eq!(listener.step(&Event::Finalized(false)), command_progress("c0"));
}

#[test]
fn command_indicator_restarts_with_every_detection() {
    let mut listener = in_command_phase();
    assert_eq!(listener.step(&Event::Finalized(false)), command_progress("c0"));
    assert_eq!(listener.step(&understood("lock_door")), Action::Dispatch("lock_door".to_string()));
    assert_eq!(listener.step(&Event::Wake(Some(0))), Action::Detected(0));
    assert_eq!(listener.step(&Event::Finalized(false)), command_progress("c0"));
}

#[test]
fn wake_indicator_keeps_its_place_across_a_command() {
    let mut listener = machine();
    assert_eq!(listener.step(&Event::Wake(None)), wake_progress("w0"));
    assert_eq!(listener.step(&Event::Wake(Some(0))), Action::Detected(0));
    assert_eq!(listener.step(&understood("lock_door")), Action::Dispatch("lock_door".to_string()));
    assert_eq!(listener.step(&Event::Wake(None)), wake_progress("w1"));
}

#[test]
fn happy_path_detects_on_third_frame_and_dispatches_lock_door() {
    let mut listener = machine();
    let events = vec![
        Event::Running(true),
        Event::Wake(None),
        Event::Running(true),
        Event::Wake(None),
        Event::Running(true),
        Event::Wake(Some(0)),
        Event::Running(true),
        Event::Finalized(false),
        Event::Running(true),
        Event::Finalized(true),
        understood("lock_door"),
    ];
    let mut wake_to_command = 0;
    let mut actions = Vec::new();
    for event in &events {
        let before = listener.phase();
        actions.push(listener.step(event));
        if before == Phase::WakeListening && listener.phase() == Phase::CommandListening {
            wake_to_command += 1;
        }
    }
    assert_eq!(
        actions,
        vec![
            Action::ReadWakeFrame,
            wake_progress("w0"),
            Action::ReadWakeFrame,
            wake_progress("w1"),
            Action::ReadWakeFrame,
            Action::Detected(0),
            Action::ReadCommandFrame,
            command_progress("c0"),
            Action::ReadCommandFrame,
            Action::FetchInference,
            Action::Dispatch("lock_door".to_string()),
        ]
    );
    assert_eq!(wake_to_command, 1);
    let dispatched: Vec<&Action> =
        actions.iter().filter(|action| matches!(action, Action::Dispatch(_))).collect();
    assert_eq!(dispatched, vec![&Action::Dispatch("lock_door".to_string())]);
    let wake_frames = actions.iter().filter(|action| **action == Action::ReadWakeFrame).count();
    let command_frames =
        actions.iter().filter(|action| **action == Action::ReadCommandFrame).count();
    assert_eq!(wake_frames, 3);
    assert_eq!(command_frames, 2);
    assert_eq!(listener.phase(), Phase::WakeListening);
    // Listening goes on as before.
    assert_eq!(listener.step(&Event::Running(true)), Action::ReadWakeFrame);
}

#[test]
fn replay_equals_stepping() {
    let events = vec![
        Event::Running(true),
        Event::Wake(None),
        Event::Finalized(true),
        Event::Running(true),
        Event::Wake(Some(2)),
        Event::Wake(Some(2)),
        Event::Running(true),
        Event::Finalized(true),
        Event::Inferred(Inference { is_understood: false, intent: None }),
        Event::Running(true),
        Event::Wake(Some(1)),
        understood("kitchen_light_purple"),
        Event::Running(false),
        Event::Running(true),
    ];
    let mut stepped = machine();
    let expected: Vec<Action> = events.iter().map(|event| stepped.step(event)).collect();
    let mut replayed = machine();
    let actions = replayed.replay(&events);
    assert_eq!(actions, expected);
    assert_eq!(replayed.phase(), stepped.phase());
    assert_eq!(
        actions,
        vec![
            Action::ReadWakeFrame,
            wake_progress("w0"),
            Action::Ignored,
            Action::ReadWakeFrame,
            Action::Detected(2),
            Action::Ignored,
            Action::ReadCommandFrame,
            Action::FetchInference,
            Action::NotUnderstood,
            Action::ReadWakeFrame,
            Action::Detected(1),
            Action::Dispatch("kitchen_light_purple".to_string()),
            Action::Stop,
            Action::Stop,
        ]
    );
    assert_eq!(replayed.phase(), Phase::Stopped);
}

#[test]
fn replay_of_nothing_does_nothing() {
    let mut listener = machine();
    assert_eq!(listener.replay(&Vec::new()), Vec::new());
    assert_eq!(listener.phase(), Phase::WakeListening);
}

#[test]
fn detection_from_index_treats_negative_as_none() {
    assert_eq!(detection_from_index(-1), None);
    assert_eq!(detection_from_index(i32::MIN), None);
    assert_eq!(detection_from_index(0), Some(0));
    assert_eq!(detection_from_index(4), Some(4));
    assert_eq!(detection_from_index(i32::MAX), Some(2147483647));
}
