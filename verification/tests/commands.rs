use buzz::cli_error::CliError;
use buzz::commands::{
    confirm_follow_up, linked_ticket, ConfirmFollowUp,
    connect_ism, create_issue_failure, discuss_channel, fetch_issue_failure, ism_credentials,
    ism_ticket_tag, log_decision_transition, parse_uuid, plan_supervise, post_comment_failure,
    IsmCredentials, SuperviseCmd,
};
use buzz::decision_gate::DecisionState;
use buzz::ism::IsmError;

const CH: &str = "550e8400-e29b-41d4-a716-446655440000";
const TH: &str = "67e55044-10b1-426f-9247-bb680e5fe0c8";

fn other(e: CliError) -> String {
    match e {
        CliError::Other(m) => m,
        CliError::Usage(m) => panic!("usage error: {m}"),
    }
}

fn usage(e: CliError) -> String {
    match e {
        CliError::Usage(m) => m,
        CliError::Other(m) => panic!("other error: {m}"),
    }
}

#[test]
fn uuid_parsing() {
    assert_eq!(parse_uuid(CH).ok(), Some(0x550e8400e29b41d4a716446655440000u128));
    assert_eq!(usage(parse_uuid("nope").unwrap_err()), "invalid UUID: nope");
}

#[test]
fn discuss_channel_choice() {
    // The argument is normalized to the hyphenated lower-case form.
    let (id, bits) = discuss_channel(Some("550E8400E29B41D4A716446655440000"), None).unwrap();
    assert_eq!(id, CH);
    assert_eq!(bits, 0x550e8400e29b41d4a716446655440000u128);
    // The setting is used as given when there is no argument.
    let (id, _) = discuss_channel(None, Some("{550e8400-e29b-41d4-a716-446655440000}".to_string())).unwrap();
    assert_eq!(id, "{550e8400-e29b-41d4-a716-446655440000}");
    assert_eq!(
        usage(discuss_channel(None, None).unwrap_err()),
        "channel ID not provided; use --channel or set BUZZ_CHANNEL_ID"
    );
    assert_eq!(other(discuss_channel(None, Some("bad".to_string())).unwrap_err()), "invalid channel ID: bad");
    assert_eq!(usage(discuss_channel(Some("bad"), Some(CH.to_string())).unwrap_err()), "invalid UUID: bad");
}

#[test]
fn credentials_in_order() {
    let s = |v: &str| Some(v.to_string());
    assert_eq!(
        usage(ism_credentials(None, None, None).err().unwrap()),
        "BUZZ_ISM_BASE_URL environment variable not set"
    );
    assert_eq!(
        usage(ism_credentials(s("u"), None, None).err().unwrap()),
        "BUZZ_ISM_SERVICE_EMAIL environment variable not set"
    );
    assert_eq!(
        usage(ism_credentials(s("u"), s("e"), None).err().unwrap()),
        "BUZZ_ISM_SERVICE_PASSWORD environment variable not set"
    );
    let c = ism_credentials(s("u"), s("e"), s("p")).ok().unwrap();
    assert_eq!((c.base_url.as_str(), c.email.as_str(), c.password.as_str()), ("u", "e", "p"));
}

#[test]
fn connecting_and_failures() {
    let creds = IsmCredentials {
        base_url: "http://h:1".to_string(),
        email: "e".to_string(),
        password: "p".to_string(),
    };
    assert!(connect_ism(creds).is_ok());
    let creds = IsmCredentials {
        base_url: "nope".to_string(),
        email: "e".to_string(),
        password: "p".to_string(),
    };
    assert_eq!(
        other(connect_ism(creds).err().unwrap()),
        "failed to create ISM client: Configuration error: invalid base_url: relative URL without a base"
    );
    let e = IsmError::ApiError("status 500 x: y".to_string());
    assert_eq!(
        other(fetch_issue_failure("ISM-1", &e)),
        "failed to fetch issue ISM-1: ISM API error: status 500 x: y"
    );
    assert_eq!(
        other(post_comment_failure("ISM-2", &e)),
        "failed to post comment to ISM ticket ISM-2: ISM API error: status 500 x: y"
    );
    assert_eq!(other(create_issue_failure(&e)), "failed to create ISM issue: ISM API error: status 500 x: y");
}

#[test]
fn ticket_tag() {
    let tag = ism_ticket_tag("ISM-123").unwrap();
    assert_eq!(tag.as_slice(), &["ism_ticket".to_string(), "ISM-123".to_string()]);
}

#[test]
fn supervise_plans() {
    let p = plan_supervise(SuperviseCmd::Draft {
        channel: CH.to_string(),
        thread: TH.to_string(),
        summary: "Plan A".to_string(),
    })
    .ok()
    .unwrap();
    assert_eq!(p.channel, 0x550e8400e29b41d4a716446655440000u128);
    assert_eq!(p.thread, TH);
    assert_eq!(p.content, "Plan A");
    assert_eq!(p.state, DecisionState::Drafted);

    let p = plan_supervise(SuperviseCmd::Confirm { channel: CH.to_string(), thread: TH.to_string(), summary: None })
        .ok()
        .unwrap();
    assert_eq!(p.content, "Decision confirmed. Ready to execute.");
    assert_eq!(p.state, DecisionState::Confirmed);

    let p = plan_supervise(SuperviseCmd::Confirm {
        channel: CH.to_string(),
        thread: TH.to_string(),
        summary: Some("Final".to_string()),
    })
    .ok()
    .unwrap();
    assert_eq!(p.content, "Final");

    let p = plan_supervise(SuperviseCmd::Execute { channel: CH.to_string(), thread: TH.to_string() }).ok().unwrap();
    assert_eq!(p.content, "Executing — implementation coming in increment 3.");
    assert_eq!(p.state, DecisionState::Executing);

    let e = plan_supervise(SuperviseCmd::Execute { channel: "x".to_string(), thread: "y".to_string() });
    assert_eq!(other(e.err().unwrap()), "invalid channel ID: x");
    let e = plan_supervise(SuperviseCmd::Execute { channel: CH.to_string(), thread: "y".to_string() });
    assert_eq!(other(e.err().unwrap()), "invalid thread ID: y");
}

#[test]
fn audit_log_accepts() {
    assert!(log_decision_transition(TH, DecisionState::Drafted).is_ok());
}

fn tags(raw: &[&[&str]]) -> Vec<Vec<String>> {
    raw.iter().map(|t| t.iter().map(|s| s.to_string()).collect()).collect()
}

#[test]
fn linked_ticket_from_tags() {
    assert_eq!(linked_ticket(&tags(&[])), None);
    assert_eq!(linked_ticket(&tags(&[&["ism_ticket"]])), None);
    assert_eq!(
        linked_ticket(&tags(&[&["e", "abc"], &["ism_ticket", "ISM-5"], &["ism_ticket", "ISM-6"]])).as_deref(),
        Some("ISM-5")
    );
    assert_eq!(linked_ticket(&tags(&[&["ISM_TICKET", "ISM-5"]])), None);
}

#[test]
fn confirm_follow_ups() {
    match confirm_follow_up(&tags(&[&["ism_ticket", "ISM-9"]]), TH, "Go") {
        ConfirmFollowUp::CommentOnTicket { ticket_id, body } => {
            assert_eq!(ticket_id, "ISM-9");
            assert_eq!(body, "**Decision State**: `confirmed`");
        }
        ConfirmFollowUp::CreateIssue { .. } => panic!("linked thread must comment"),
    }
    match confirm_follow_up(&tags(&[]), TH, "Go") {
        ConfirmFollowUp::CreateIssue { title, description } => {
            assert_eq!(title, format!("Decision confirmed in thread {TH}"));
            assert_eq!(description, "Go");
        }
        ConfirmFollowUp::CommentOnTicket { .. } => panic!("free discussion must create an issue"),
    }
}

#[test]
fn transfer_failures_keep_their_cause() {
    let e = IsmError::Http("error sending request for url (http://h:1/api/v1/issues/I)".to_string());
    assert_eq!(
        other(fetch_issue_failure("I", &e)),
        "failed to fetch issue I: HTTP request failed: error sending request for url (http://h:1/api/v1/issues/I)"
    );
    let e = IsmError::Json("expected value at line 1 column 1".to_string());
    assert_eq!(
        other(post_comment_failure("T-9", &e)),
        "failed to post comment to ISM ticket T-9: JSON error: expected value at line 1 column 1"
    );
    assert_eq!(
        other(create_issue_failure(&e)),
        "failed to create ISM issue: JSON error: expected value at line 1 column 1"
    );
}
