//! Decision-gating state machine for Supervisor-led work.
//!
//! Tracks the four states of a decision gate:
//! - mentioned: Supervisor was @mentioned in a thread
//! - drafted: Supervisor posted a summary proposal
//! - confirmed: Lead confirmed/approved the proposal
//! - executing: Supervisor is executing the work
//!
//! State is tracked via Nostr event tags (`["decision_state", "<state>"]`).
use vstd::prelude::*;
use crate::cli_error::CliError;
use crate::external::{parse_tag, tag_values};
use crate::text::{chars_equal, chars_of};

verus! {

/// The four states of a decision gate.
#[derive(Debug, Clone, Copy, PartialEq, Eq, Structural)]
pub enum DecisionState {
    /// Supervisor was @mentioned in the thread.
    Mentioned,
    /// Supervisor posted a drafted summary.
    Drafted,
    /// Lead confirmed/approved the summary.
    Confirmed,
    /// Supervisor is executing the work.
    Executing,
}

/// The tag text of a decision state.
pub open spec fn state_text(s: DecisionState) -> Seq<char> {
    match s {
        DecisionState::Mentioned => "mentioned"@,
        DecisionState::Drafted => "drafted"@,
        DecisionState::Confirmed => "confirmed"@,
        DecisionState::Executing => "executing"@,
    }
}

/// The decision state that a tag text names, if any.
pub open spec fn parse_state(t: Seq<char>) -> Option<DecisionState> {
    if t == "mentioned"@ {
        Some(DecisionState::Mentioned)
    } else if t == "drafted"@ {
        Some(DecisionState::Drafted)
    } else if t == "confirmed"@ {
        Some(DecisionState::Confirmed)
    } else if t == "executing"@ {
        Some(DecisionState::Executing)
    } else {
        None
    }
}

/// The tag name under which decision states are recorded.
pub open spec fn decision_state_tag_name() -> Seq<char> {
    "decision_state"@
}

/// The status comment posted to a linked ISM ticket on a state change.
pub open spec fn comment_body(state: DecisionState, detail: Option<Seq<char>>) -> Seq<char> {
    let head = "**Decision State**: `"@ + state_text(state) + "`"@;
    match detail {
        Some(d) => head + "\n\n"@ + d,
        None => head,
    }
}

impl DecisionState {
    /// String representation for event tags.
    pub fn as_str(&self) -> (r: &'static str)
        ensures
            r@ == state_text(*self),
    {
        match self {
            DecisionState::Mentioned => "mentioned",
            DecisionState::Drafted => "drafted",
            DecisionState::Confirmed => "confirmed",
            DecisionState::Executing => "executing",
        }
    }

    /// Parse from a string.
    pub fn from_str(s: &str) -> (r: Option<DecisionState>)
        ensures
            r == parse_state(s@),
    {
        let c = chars_of(s);
        if chars_equal(&c, "mentioned") {
            Some(DecisionState::Mentioned)
        } else if chars_equal(&c, "drafted") {
            Some(DecisionState::Drafted)
        } else if chars_equal(&c, "confirmed") {
            Some(DecisionState::Confirmed)
        } else if chars_equal(&c, "executing") {
            Some(DecisionState::Executing)
        } else {
            None
        }
    }
}

/// Parsing the tag text of a state gives that state back.
pub proof fn lemma_state_text_roundtrip(s: DecisionState)
    ensures
        parse_state(state_text(s)) == Some(s),
{
    reveal_strlit("mentioned");
    reveal_strlit("drafted");
    reveal_strlit("confirmed");
    reveal_strlit("executing");
    assert("mentioned"@[0] == 'm' && "drafted"@[0] == 'd');
    assert("confirmed"@[0] == 'c' && "executing"@[0] == 'e');
}

/// A text parses to a state only if it is exactly that state's tag text, so
/// distinct states have distinct texts and nothing else is accepted.
pub proof fn lemma_parse_only_state_texts(t: Seq<char>, s: DecisionState)
    requires
        parse_state(t) == Some(s),
    ensures
        t == state_text(s),
{
}

/// Distinct states have distinct tag texts.
pub proof fn lemma_state_text_injective(a: DecisionState, b: DecisionState)
    requires
        state_text(a) == state_text(b),
    ensures
        a == b,
{
    lemma_state_text_roundtrip(a);
    lemma_state_text_roundtrip(b);
}

/// Builds the `["decision_state", "<state>"]` tag that marks a message with
/// its decision state.
pub fn decision_state_tag(state: DecisionState) -> (r: Result<nostr::event::Tag, CliError>)
    ensures
        r matches Ok(t) && tag_values(t) == seq![decision_state_tag_name(), state_text(state)],
{
    let mut fields: Vec<String> = Vec::new();
    fields.push(String::from_str("decision_state"));
    fields.push(String::from_str(state.as_str()));
    let ghost expected = seq![decision_state_tag_name(), state_text(state)];
    proof {
        assert(crate::text::string_views(fields@) =~= expected);
    }
    match parse_tag(fields) {
        Some(t) => Ok(t),
        None => Err(CliError::Other(String::from_str("failed to create decision_state tag"))),
    }
}

/// Builds the status comment for a linked ISM ticket: the state in the
/// decision-state line, then the optional detail after a blank line.
pub fn decision_comment_body(state: DecisionState, detail: Option<&str>) -> (r: String)
    ensures
        r@ == comment_body(
            state,
            match detail {
                Some(d) => Some(d@),
                None => None,
            },
        ),
{
    let mut body = String::from_str("**Decision State**: `");
    body.append(state.as_str());
    body.append("`");
    match detail {
        Some(d) => {
            body.append("\n\n");
            body.append(d);
        },
        None => {},
    }
    body
}

} // verus!
