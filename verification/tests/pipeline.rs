use smscan::driver::{run, scan_lines, Driver};
use smscan::render::{render_states, render_transitions};

fn lines(v: &[&str]) -> Vec<String> {
    v.iter().map(|s| s.to_string()).collect()
}

#[test]
fn end_to_end_single_transition() {
    let input = lines(&[
        "QP::QState Light::off",
        "Q_SUPER(&top)",
        "case Q_ENTRY_SIG",
        "Q_HANDLED()",
        "case TIMEOUT_SIG",
        "Q_TRAN(&on)",
    ]);
    let out = run(&input).unwrap();
    assert_eq!(
        out,
        "top  $state(\"off\")\n\n$transition(\"off\", $event(\"TIMEOUT_SIG\"), \"on\")\n"
    );
}

#[test]
fn end_to_end_single_choice() {
    let input = lines(&[
        "QP::QState Light::on",
        "Q_SUPER(&top)",
        "case TICK_SIG",
        "Q_TRAN(&bright)",
        "Q_TRAN(&dim)",
    ]);
    let out = run(&input).unwrap();
    assert_eq!(
        out,
        "top  $state(\"on\")\n\n$transitions_1_choice(\"on\", $event(\"TICK_SIG\"), \"bright\", \"dim\")\n"
    );
}

#[test]
fn end_to_end_too_many_targets_aborts() {
    let input = lines(&[
        "QP::QState M::work",
        "Q_SUPER(&top)",
        "case BURST_SIG",
        "Q_TRAN(&a)",
        "Q_TRAN(&b)",
        "Q_TRAN(&c)",
        "Q_TRAN(&d)",
        "Q_TRAN(&e)",
    ]);
    let err = run(&input).unwrap_err();
    assert_eq!(err.state_name, "work");
    assert_eq!(err.event_name, "BURST_SIG");
}

#[test]
fn unrecognized_lines_change_nothing() {
    let bare = lines(&[
        "QP::QState Light::off",
        "Q_SUPER(&top)",
        "case TIMEOUT_SIG",
        "Q_TRAN(&on)",
    ]);
    let noisy = lines(&[
        "// generated code",
        "QP::QState Light::off",
        "{",
        "Q_SUPER(&top)",
        "    switch (e->sig) {",
        "case TIMEOUT_SIG",
        "Q_TRAN(&on)",
        "}",
        "",
    ]);
    assert_eq!(run(&bare).unwrap(), run(&noisy).unwrap());
}

#[test]
fn state_without_parent_is_never_registered() {
    let input = lines(&["QP::QState Light::off", "case TIMEOUT_SIG", "Q_TRAN(&on)"]);
    let out = run(&input).unwrap();
    assert_eq!(out, "\n$transition(\"off\", $event(\"TIMEOUT_SIG\"), \"on\")\n");
}

#[test]
fn states_keep_input_order() {
    let input = lines(&[
        "QP::QState M::b",
        "Q_SUPER(&top)",
        "QP::QState M::a",
        "Q_SUPER(&b)",
    ]);
    let (states, _) = scan_lines(&input);
    assert_eq!(render_states(&states), "top  $state(\"b\")\nb  $state(\"a\")\n");
}

#[test]
fn boundary_without_targets_archives_nothing() {
    let input = lines(&[
        "QP::QState M::s",
        "Q_SUPER(&top)",
        "case A_SIG",
        "case B_SIG",
        "Q_TRAN(&t)",
    ]);
    let (_, transitions) = scan_lines(&input);
    assert_eq!(transitions.len(), 1);
    let out = run(&input).unwrap();
    assert_eq!(out, "top  $state(\"s\")\n\n$transition(\"s\", $event(\"B_SIG\"), \"t\")\n");
}

#[test]
fn final_accumulator_is_archived_even_without_targets() {
    let input = lines(&["QP::QState M::s", "Q_SUPER(&top)", "case A_SIG"]);
    let (_, transitions) = scan_lines(&input);
    assert_eq!(transitions.len(), 1);
    assert_eq!(render_transitions(&transitions).unwrap(), "");
}

#[test]
fn handled_marker_records_self_target() {
    let input = lines(&[
        "QP::QState M::s",
        "Q_SUPER(&top)",
        "case POLL_SIG",
        "Q_HANDLED()",
    ]);
    let out = run(&input).unwrap();
    assert_eq!(out, "top  $state(\"s\")\n\n");
}

#[test]
fn lifecycle_events_never_appear_in_output() {
    let input = lines(&[
        "QP::QState M::s",
        "Q_SUPER(&top)",
        "case Q_ENTRY_SIG",
        "Q_TRAN(&a)",
        "Q_TRAN(&b)",
        "case Q_EXIT_SIG",
        "Q_TRAN(&c)",
    ]);
    let out = run(&input).unwrap();
    assert_eq!(out, "top  $state(\"s\")\n\n");
}

#[test]
fn three_and_four_target_choices_render() {
    let input = lines(&[
        "QP::QState M::s",
        "Q_SUPER(&top)",
        "case PICK_SIG",
        "Q_TRAN(&a)",
        "Q_TRAN(&b)",
        "Q_TRAN(&c)",
        "case SPREAD_SIG",
        "Q_TRAN(&w)",
        "Q_TRAN(&x)",
        "Q_TRAN(&y)",
        "Q_TRAN(&z)",
    ]);
    let out = run(&input).unwrap();
    assert_eq!(
        out,
        "top  $state(\"s\")\n\n$transitions_2_choices(\"s\", $event(\"PICK_SIG\"), \"a\", \"b\", \"c\")\n$transitions_3_choices(\"s\", $event(\"SPREAD_SIG\"), \"w\", \"x\", \"y\", \"z\")\n"
    );
}

#[test]
fn driver_steps_match_whole_scan() {
    let input = lines(&[
        "QP::QState Light::off",
        "Q_SUPER(&top)",
        "case TIMEOUT_SIG",
        "Q_TRAN(&on)",
    ]);
    let mut driver = Driver::new();
    for line in &input {
        driver.process_line(line);
    }
    let (states, transitions) = driver.finish();
    let (states2, transitions2) = scan_lines(&input);
    assert_eq!(render_states(&states), render_states(&states2));
    assert_eq!(
        render_transitions(&transitions).unwrap(),
        render_transitions(&transitions2).unwrap()
    );
}

#[test]
fn empty_input_yields_blank_separator_only() {
    let input: Vec<String> = Vec::new();
    assert_eq!(run(&input).unwrap(), "\n");
}
