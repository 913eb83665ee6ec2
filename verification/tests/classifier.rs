use smscan::classify::{classify, get_event, get_parent, get_state, get_target, is_handled, LineKind};

#[test]
fn state_declaration_captures_name() {
    assert_eq!(get_state("QP::QState Light::off"), Some("off".to_string()));
}

#[test]
fn state_declaration_uses_first_separator_after_prefix() {
    assert_eq!(get_state("QP::QState a::bc::d"), Some("bc".to_string()));
}

#[test]
fn state_declaration_requires_prefix_and_separator() {
    assert_eq!(get_state("QP::QState noseparator"), None);
    assert_eq!(get_state("QPX::QState M::s"), None);
    assert_eq!(get_state("  QP::QState M::s"), None);
}

#[test]
fn parent_declaration_captures_name() {
    assert_eq!(get_parent("    status_ = Q_SUPER(&top);"), Some("top".to_string()));
    assert_eq!(get_parent("top"), None);
}

#[test]
fn parent_declaration_uses_last_token() {
    assert_eq!(get_parent("Q_SUPER(&a) Q_SUPER(&b)"), Some("b".to_string()));
}

#[test]
fn event_declaration_captures_signal() {
    assert_eq!(get_event("        case TICK_SIG: {"), Some("TICK_SIG".to_string()));
    assert_eq!(get_event("case X"), Some("X".to_string()));
}

#[test]
fn event_declaration_requires_leading_blanks_only() {
    assert_eq!(get_event("xcase FOO"), None);
    assert_eq!(get_event("  escape FOO"), None);
}

#[test]
fn event_declaration_with_double_space_captures_empty_name() {
    assert_eq!(get_event("case  FOO"), Some("".to_string()));
}

#[test]
fn target_captures_name_after_last_token() {
    assert_eq!(get_target("            status_ = Q_TRAN(&on);"), Some("on".to_string()));
    assert_eq!(get_target("Q_TRAN(&a) Q_TRAN(&b)"), Some("b".to_string()));
    assert_eq!(get_target("Q_TRAN(x)"), None);
}

#[test]
fn handled_marker_is_detected() {
    assert!(is_handled("            status_ = Q_HANDLED();"));
    assert!(!is_handled("Q_HANDLED"));
    assert!(!is_handled("handled"));
}

#[test]
fn classify_prefers_state_over_target() {
    let r = classify("QP::QState Light::off // Q_TRAN(&x)");
    assert!(matches!(r, LineKind::StateDecl(n) if n == "off"));
}

#[test]
fn classify_prefers_parent_over_event() {
    let r = classify("  case Q_SUPER(&a)");
    assert!(matches!(r, LineKind::ParentDecl(n) if n == "a"));
}

#[test]
fn classify_prefers_event_over_target() {
    let r = classify("case FOO_SIG: Q_TRAN(&bar)");
    assert!(matches!(r, LineKind::EventDecl(n) if n == "FOO_SIG"));
}

#[test]
fn classify_prefers_target_over_handled() {
    let r = classify("Q_TRAN(&x); Q_HANDLED()");
    assert!(matches!(r, LineKind::TargetDecl(n) if n == "x"));
}

#[test]
fn classify_handled_marker() {
    let r = classify("return Q_HANDLED();");
    assert!(matches!(r, LineKind::HandledMarker));
}

#[test]
fn classify_unrecognized_lines() {
    assert!(matches!(classify(""), LineKind::NoMatch));
    assert!(matches!(classify("}"), LineKind::NoMatch));
    assert!(matches!(classify("    int x = 0;"), LineKind::NoMatch));
}
