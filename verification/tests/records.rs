use smscan::render::{render_state_line, render_states, render_transition_line, render_transitions};
use smscan::states::{State, States};
use smscan::transitions::{EventTransitions, Transitions};

fn record(state: &str, event: &str, targets: &[&str]) -> EventTransitions {
    let source = State::new(state);
    let mut t = EventTransitions::new();
    t.initialise(&source, event);
    for name in targets {
        t.add_target(&State::new(name));
    }
    t
}

#[test]
fn fresh_record_is_empty_and_not_output() {
    let t = EventTransitions::new();
    assert!(t.is_empty());
    assert!(!t.has_targets());
    assert!(!t.is_valid());
    assert!(!t.should_be_output());
}

#[test]
fn initialise_sets_state_and_clears_targets() {
    let mut t = record("off", "TIMEOUT_SIG", &["on"]);
    assert!(!t.is_empty());
    assert!(t.has_targets());
    t.initialise(&State::new("on"), "TICK_SIG");
    assert!(!t.is_empty());
    assert!(!t.has_targets());
}

#[test]
fn classification_by_target_count() {
    let simple = record("off", "GO_SIG", &["on"]);
    assert!(simple.is_valid() && simple.is_simple() && simple.should_be_output());

    let one_choice = record("off", "GO_SIG", &["a", "b"]);
    assert!(one_choice.is_1_choice() && !one_choice.is_simple());
    assert!(one_choice.should_be_output());

    let two_choices = record("off", "GO_SIG", &["a", "b", "c"]);
    assert!(two_choices.are_2_choices() && two_choices.should_be_output());

    let three_choices = record("off", "GO_SIG", &["a", "b", "c", "d"]);
    assert!(three_choices.are_3_choices() && three_choices.should_be_output());

    let too_many = record("off", "GO_SIG", &["a", "b", "c", "d", "e"]);
    assert!(too_many.are_too_many_choices());
    assert!(!too_many.should_be_output());
}

#[test]
fn lifecycle_signals_are_never_valid() {
    let entry = record("off", "Q_ENTRY_SIG", &["on"]);
    assert!(!entry.is_valid() && !entry.should_be_output());
    let exit = record("off", "Q_EXIT_SIG", &["a", "b", "c", "d", "e"]);
    assert!(!exit.is_valid() && !exit.are_too_many_choices());
}

#[test]
fn single_self_target_is_not_output() {
    let self_loop = record("off", "GO_SIG", &["off"]);
    assert!(self_loop.is_valid());
    assert!(!self_loop.is_simple());
    assert!(!self_loop.should_be_output());
}

#[test]
fn zero_target_record_is_not_output() {
    let idle = record("off", "GO_SIG", &[]);
    assert!(!idle.is_valid());
    assert!(!idle.should_be_output());
}

#[test]
fn state_line_renders_parent_and_name() {
    let mut s = State::new("off");
    s.set_parent(&State::new("top"));
    assert_eq!(render_state_line(&s), "top  $state(\"off\")");
}

#[test]
fn state_line_with_no_parent_starts_with_two_spaces() {
    let s = State::new("off");
    assert_eq!(render_state_line(&s), "  $state(\"off\")");
}

#[test]
fn states_render_in_insertion_order() {
    let mut states = States::new();
    let mut a = State::new("off");
    a.set_parent(&State::new("top"));
    let mut b = State::new("on");
    b.set_parent(&State::new("top"));
    states.add_state(&a);
    states.add_state(&b);
    assert_eq!(render_states(&states), "top  $state(\"off\")\ntop  $state(\"on\")\n");
}

#[test]
fn transition_line_templates() {
    assert_eq!(
        render_transition_line(&record("off", "TIMEOUT_SIG", &["on"])),
        "$transition(\"off\", $event(\"TIMEOUT_SIG\"), \"on\")"
    );
    assert_eq!(
        render_transition_line(&record("on", "TICK_SIG", &["bright", "dim"])),
        "$transitions_1_choice(\"on\", $event(\"TICK_SIG\"), \"bright\", \"dim\")"
    );
    assert_eq!(
        render_transition_line(&record("on", "TICK_SIG", &["a", "b", "c"])),
        "$transitions_2_choices(\"on\", $event(\"TICK_SIG\"), \"a\", \"b\", \"c\")"
    );
    assert_eq!(
        render_transition_line(&record("on", "TICK_SIG", &["a", "b", "c", "d"])),
        "$transitions_3_choices(\"on\", $event(\"TICK_SIG\"), \"a\", \"b\", \"c\", \"d\")"
    );
}

#[test]
fn transition_block_skips_invalid_records() {
    let mut transitions = Transitions::new();
    transitions.add_transition(&record("off", "Q_ENTRY_SIG", &["off"]));
    transitions.add_transition(&record("off", "GO_SIG", &["off"]));
    transitions.add_transition(&record("off", "GO_SIG", &[]));
    transitions.add_transition(&record("off", "GO_SIG", &["on"]));
    let block = render_transitions(&transitions).unwrap();
    assert_eq!(block, "$transition(\"off\", $event(\"GO_SIG\"), \"on\")\n");
}

#[test]
fn transition_block_aborts_on_too_many_targets() {
    let mut transitions = Transitions::new();
    transitions.add_transition(&record("off", "GO_SIG", &["on"]));
    transitions.add_transition(&record("work", "BURST_SIG", &["a", "b", "c", "d", "e"]));
    let err = render_transitions(&transitions).unwrap_err();
    assert_eq!(err.state_name, "work");
    assert_eq!(err.event_name, "BURST_SIG");
}
