use buzz::decision_gate::{decision_comment_body, decision_state_tag, DecisionState};

#[test]
fn test_decision_state_roundtrip() {
    let states = [
        DecisionState::Mentioned,
        DecisionState::Drafted,
        DecisionState::Confirmed,
        DecisionState::Executing,
    ];

    for state in states {
        let s = state.as_str();
        let parsed = DecisionState::from_str(s).expect("failed to parse");
        assert_eq!(parsed, state);
    }
}

#[test]
fn test_decision_state_unknown() {
    assert_eq!(DecisionState::from_str("unknown"), None);
}

#[test]
fn decision_state_texts() {
    assert_eq!(DecisionState::Mentioned.as_str(), "mentioned");
    assert_eq!(DecisionState::Drafted.as_str(), "drafted");
    assert_eq!(DecisionState::Confirmed.as_str(), "confirmed");
    assert_eq!(DecisionState::Executing.as_str(), "executing");
    assert_eq!(DecisionState::from_str("Drafted"), None);
    assert_eq!(DecisionState::from_str(""), None);
    assert_eq!(DecisionState::from_str("executing "), None);
}

#[test]
fn decision_state_tag_holds_name_and_state() {
    let tag = decision_state_tag(DecisionState::Drafted).expect("tag");
    assert_eq!(tag.as_slice(), &["decision_state".to_string(), "drafted".to_string()]);
    let tag = decision_state_tag(DecisionState::Executing).expect("tag");
    assert_eq!(tag.as_slice(), &["decision_state".to_string(), "executing".to_string()]);
}

#[test]
fn decision_comment_body_with_and_without_detail() {
    assert_eq!(
        decision_comment_body(DecisionState::Confirmed, None),
        "**Decision State**: `confirmed`"
    );
    assert_eq!(
        decision_comment_body(DecisionState::Executing, Some("dev started")),
        "**Decision State**: `executing`\n\ndev started"
    );
}
