//! The decisions of the `discuss` and `supervise` commands and of the ISM
//! status sync: which inputs are accepted, which channel is used, which
//! credentials are required, what is posted with which decision state, and
//! how each failure is reported.
use vstd::prelude::*;
use crate::cli_error::{CliError, CliErrorView};
use crate::decision_gate::DecisionState;
use crate::external::{parse_tag, parse_uuid_bits, tag_values, uuid_parse_bits, uuid_text};
use crate::ism::{ism_error_message, IsmClient, IsmError, IsmErrorView};
use crate::text::string_views;

verus! {

/// The lower-case hex digit of `d < 16`.
pub open spec fn hex_digit(d: u128) -> char {
    if d < 10 {
        ((d + 48) as u32) as char
    } else {
        ((d + 87) as u32) as char
    }
}

/// The 32 lower-case hex digits of `bits`, most significant first.
pub open spec fn hex32(bits: u128) -> Seq<char> {
    Seq::new(32, |i: int| hex_digit((bits >> ((124 - 4 * i) as u128)) & 15u128))
}

/// The hyphenated text of a UUID: its hex digits grouped 8-4-4-4-12.
pub open spec fn uuid_hyphenated(bits: u128) -> Seq<char> {
    let h = hex32(bits);
    h.subrange(0, 8) + seq!['-'] + h.subrange(8, 12) + seq!['-'] + h.subrange(12, 16) + seq!['-']
        + h.subrange(16, 20) + seq!['-'] + h.subrange(20, 32)
}

/// The error of a text that is not a UUID.
pub open spec fn invalid_uuid_error(s: Seq<char>) -> CliErrorView {
    CliErrorView::Usage("invalid UUID: "@ + s)
}

/// Parses a UUID argument, reporting text that is not a UUID as a usage
/// error.
pub fn parse_uuid(s: &str) -> (r: Result<u128, CliError>)
    ensures
        match uuid_parse_bits(s@) {
            Some(b) => r matches Ok(x) && x == b,
            None => r matches Err(e) && e@ == invalid_uuid_error(s@),
        },
{
    match parse_uuid_bits(s) {
        Some(b) => Ok(b),
        None => {
            let mut m = String::from_str("invalid UUID: ");
            m.append(s);
            Err(CliError::Usage(m))
        },
    }
}

/// The channel a `discuss thread` command posts to, as text and as value.
pub open spec fn discuss_channel_result(
    channel: Option<Seq<char>>,
    channel_setting: Option<Seq<char>>,
) -> Result<(Seq<char>, u128), CliErrorView> {
    let chosen: Result<Seq<char>, CliErrorView> = match channel {
        Some(ch) => match uuid_parse_bits(ch) {
            Some(b) => Ok(uuid_hyphenated(b)),
            None => Err(invalid_uuid_error(ch)),
        },
        None => match channel_setting {
            Some(v) => Ok(v),
            None => Err(
                CliErrorView::Usage(
                    "channel ID not provided; use --channel or set BUZZ_CHANNEL_ID"@,
                ),
            ),
        },
    };
    match chosen {
        Ok(id) => match uuid_parse_bits(id) {
            Some(b) => Ok((id, b)),
            None => Err(CliErrorView::Other("invalid channel ID: "@ + id)),
        },
        Err(e) => Err(e),
    }
}

/// The `--channel` argument wins over the channel setting: with an argument
/// the setting is not consulted at all; an argument that is not a UUID is a
/// usage error; a channel resolved from an argument is that argument's UUID
/// in hyphenated form. Without an argument the setting is used as given, and
/// the resolved value is always the UUID the chosen text parses to.
pub proof fn lemma_channel_argument_wins(
    ch: Seq<char>,
    setting: Option<Seq<char>>,
    other_setting: Option<Seq<char>>,
)
    ensures
        discuss_channel_result(Some(ch), setting) == discuss_channel_result(
            Some(ch),
            other_setting,
        ),
        uuid_parse_bits(ch) is None ==> discuss_channel_result(Some(ch), setting) == Err::<
            (Seq<char>, u128),
            CliErrorView,
        >(CliErrorView::Usage("invalid UUID: "@ + ch)),
        discuss_channel_result(Some(ch), setting) matches Ok((id, b)) ==> (uuid_parse_bits(ch)
            matches Some(arg) && id == uuid_hyphenated(arg) && uuid_parse_bits(id) == Some(b)),
        discuss_channel_result(None, setting) matches Ok((id, b)) ==> (setting == Some(id)
            && uuid_parse_bits(id) == Some(b)),
        setting matches Some(v) ==> (discuss_channel_result(None, setting) is Ok <==> uuid_parse_bits(
            v,
        ) is Some),
{
}

/// Resolves the channel of a `discuss thread` command: the `--channel`
/// argument, normalized to its hyphenated form, or else the channel setting
/// (`BUZZ_CHANNEL_ID`); the chosen text must then parse as a UUID.
pub fn discuss_channel(channel: Option<&str>, channel_setting: Option<String>) -> (r: Result<
    (String, u128),
    CliError,
>)
    ensures
        match r {
            Ok((id, b)) => discuss_channel_result(
                match channel {
                    Some(c) => Some(c@),
                    None => None,
                },
                crate::text::opt_view(channel_setting),
            ) == Ok::<(Seq<char>, u128), CliErrorView>((id@, b)),
            Err(e) => discuss_channel_result(
                match channel {
                    Some(c) => Some(c@),
                    None => None,
                },
                crate::text::opt_view(channel_setting),
            ) == Err::<(Seq<char>, u128), CliErrorView>(e@),
        },
{
    let channel_id = match channel {
        Some(ch) => {
            match parse_uuid(ch) {
                Ok(b) => uuid_text(b),
                Err(e) => {
                    return Err(e);
                },
            }
        },
        None => match channel_setting {
            Some(v) => v,
            None => {
                return Err(
                    CliError::Usage(
                        String::from_str(
                            "channel ID not provided; use --channel or set BUZZ_CHANNEL_ID",
                        ),
                    ),
                );
            },
        },
    };
    match parse_uuid_bits(channel_id.as_str()) {
        Some(b) => Ok((channel_id, b)),
        None => {
            let mut m = String::from_str("invalid channel ID: ");
            m.append(channel_id.as_str());
            Err(CliError::Other(m))
        },
    }
}

/// The service-account settings of the ISM connection.
pub struct IsmCredentials {
    pub base_url: String,
    pub email: String,
    pub password: String,
}

/// The error of a missing setting.
pub open spec fn missing_setting_error(name: Seq<char>) -> CliErrorView {
    CliErrorView::Usage(name + " environment variable not set"@)
}

fn missing_setting(name: &str) -> (e: CliError)
    ensures
        e@ == missing_setting_error(name@),
{
    let mut m = String::from_str(name);
    m.append(" environment variable not set");
    CliError::Usage(m)
}

/// Collects the ISM settings (`BUZZ_ISM_BASE_URL`, `BUZZ_ISM_SERVICE_EMAIL`,
/// `BUZZ_ISM_SERVICE_PASSWORD`); the first one missing, in that order, is
/// reported as a usage error.
pub fn ism_credentials(
    base_url: Option<String>,
    email: Option<String>,
    password: Option<String>,
) -> (r: Result<IsmCredentials, CliError>)
    ensures
        base_url is None ==> (r matches Err(e) && e@ == missing_setting_error(
            "BUZZ_ISM_BASE_URL"@,
        )),
        base_url is Some && email is None ==> (r matches Err(e) && e@ == missing_setting_error(
            "BUZZ_ISM_SERVICE_EMAIL"@,
        )),
        base_url is Some && email is Some && password is None ==> (r matches Err(e) && e@
            == missing_setting_error("BUZZ_ISM_SERVICE_PASSWORD"@)),
        r matches Ok(c) ==> base_url == Some(c.base_url) && email == Some(c.email) && password
            == Some(c.password),
        (base_url is Some && email is Some && password is Some) ==> r is Ok,
{
    let base_url = match base_url {
        Some(v) => v,
        None => {
            return Err(missing_setting("BUZZ_ISM_BASE_URL"));
        },
    };
    let email = match email {
        Some(v) => v,
        None => {
            return Err(missing_setting("BUZZ_ISM_SERVICE_EMAIL"));
        },
    };
    let password = match password {
        Some(v) => v,
        None => {
            return Err(missing_setting("BUZZ_ISM_SERVICE_PASSWORD"));
        },
    };
    Ok(IsmCredentials { base_url, email, password })
}

/// Reports an ISM failure as an "other" error: `prefix`, then the ISM
/// error's message.
pub fn ism_failure(prefix: &str, e: &IsmError) -> (r: CliError)
    ensures
        r@ == CliErrorView::Other(prefix@ + ism_error_message(e@)),
{
    let em = e.message();
    let mut m = String::from_str(prefix);
    m.append(em.as_str());
    CliError::Other(m)
}

/// Makes the ISM client from the collected settings; an invalid base URL is
/// reported as "failed to create ISM client: ..." with the client's message.
pub fn connect_ism(creds: IsmCredentials) -> (r: Result<IsmClient, CliError>)
    ensures
        r matches Ok(c) ==> c.base_url_view() == creds.base_url@ && c.email_view() == creds.email@
            && c.password_view() == creds.password@,
        r is Ok <==> crate::external::url_parse_error_text(creds.base_url@) is None,
        r matches Err(e) ==> e@ == CliErrorView::Other(
            "failed to create ISM client: "@ + "Configuration error: "@ + "invalid base_url: "@
                + crate::external::url_parse_error_text(creds.base_url@)->0,
        ),
{
    let ghost base = creds.base_url@;
    match IsmClient::new(creds.base_url, creds.email, creds.password) {
        Ok(c) => Ok(c),
        Err(e) => {
            let r = ism_failure("failed to create ISM client: ", &e);
            proof {
                let detail = "invalid base_url: "@ + crate::external::url_parse_error_text(base)->0;
                assert(e@ == IsmErrorView::Config(detail));
                assert("failed to create ISM client: "@ + ism_error_message(e@) =~= "failed to create ISM client: "@
                    + "Configuration error: "@ + "invalid base_url: "@
                    + crate::external::url_parse_error_text(base)->0);
            }
            Err(r)
        },
    }
}

/// The error of an issue that could not be fetched.
pub fn fetch_issue_failure(issue_id: &str, e: &IsmError) -> (r: CliError)
    ensures
        r@ == CliErrorView::Other("failed to fetch issue "@ + issue_id@ + ": "@ + ism_error_message(e@)),
{
    let mut prefix = String::from_str("failed to fetch issue ");
    prefix.append(issue_id);
    prefix.append(": ");
    ism_failure(prefix.as_str(), e)
}

/// The error of a status comment that could not be posted to a ticket.
pub fn post_comment_failure(ticket_id: &str, e: &IsmError) -> (r: CliError)
    ensures
        r@ == CliErrorView::Other(
            "failed to post comment to ISM ticket "@ + ticket_id@ + ": "@ + ism_error_message(e@),
        ),
{
    let mut prefix = String::from_str("failed to post comment to ISM ticket ");
    prefix.append(ticket_id);
    prefix.append(": ");
    ism_failure(prefix.as_str(), e)
}

/// The error of an issue that could not be created.
pub fn create_issue_failure(e: &IsmError) -> (r: CliError)
    ensures
        r@ == CliErrorView::Other("failed to create ISM issue: "@ + ism_error_message(e@)),
{
    ism_failure("failed to create ISM issue: ", e)
}

/// Builds the `["ism_ticket", "<id>"]` tag that links a message to its ISM
/// ticket.
pub fn ism_ticket_tag(issue_id: &str) -> (r: Result<nostr::event::Tag, CliError>)
    ensures
        r matches Ok(t) && tag_values(t) == seq!["ism_ticket"@, issue_id@],
{
    let mut fields: Vec<String> = Vec::new();
    fields.push(String::from_str("ism_ticket"));
    fields.push(String::from_str(issue_id));
    proof {
        assert(string_views(fields@) =~= seq!["ism_ticket"@, issue_id@]);
    }
    match parse_tag(fields) {
        Some(t) => Ok(t),
        None => Err(CliError::Other(String::from_str("failed to create tag"))),
    }
}

/// The `discuss` subcommands.
pub enum DiscussCmd {
    /// Pull an ISM issue into a channel as a Markdown summary.
    Thread { issue_id: String, channel: Option<String> },
}

/// The `supervise` subcommands.
#[allow(inconsistent_fields)]
pub enum SuperviseCmd {
    /// Post a drafted decision proposal in the thread.
    Draft { channel: String, thread: String, summary: String },
    /// Confirm a drafted decision, optionally with a replacement summary.
    Confirm { channel: String, thread: String, summary: Option<String> },
    /// Move the decision into execution.
    Execute { channel: String, thread: String },
}

/// What a `supervise` command posts: the channel, the thread it replies to,
/// the message text, and the decision state it records.
pub struct SupervisePlan {
    pub channel: u128,
    pub thread: String,
    pub content: String,
    pub state: DecisionState,
}

/// The text posted on confirmation when no summary is given.
pub open spec fn default_confirmation() -> Seq<char> {
    "Decision confirmed. Ready to execute."@
}

/// The text posted when execution starts.
pub open spec fn execution_notice() -> Seq<char> {
    "Executing — implementation coming in increment 3."@
}

/// The channel, thread, message text and decision state of a `supervise`
/// command.
pub open spec fn supervise_fields(cmd: SuperviseCmd) -> (Seq<char>, Seq<char>, Seq<char>, DecisionState) {
    match cmd {
        SuperviseCmd::Draft { channel, thread, summary } => (
            channel@,
            thread@,
            summary@,
            DecisionState::Drafted,
        ),
        SuperviseCmd::Confirm { channel, thread, summary } => (
            channel@,
            thread@,
            match summary {
                Some(s) => s@,
                None => default_confirmation(),
            },
            DecisionState::Confirmed,
        ),
        SuperviseCmd::Execute { channel, thread } => (
            channel@,
            thread@,
            execution_notice(),
            DecisionState::Executing,
        ),
    }
}

/// Decides what a `supervise` command posts. The channel and the thread
/// must both be UUIDs; the channel is checked first. A draft posts its
/// summary as `drafted`; a confirmation posts its summary, or the default
/// confirmation, as `confirmed`; an execution posts the execution notice as
/// `executing`.
pub fn plan_supervise(cmd: SuperviseCmd) -> (r: Result<SupervisePlan, CliError>)
    ensures
        ({
            let (channel, thread, content, state) = supervise_fields(cmd);
            match uuid_parse_bits(channel) {
                None => r matches Err(e) && e@ == CliErrorView::Other(
                    "invalid channel ID: "@ + channel,
                ),
                Some(b) => match uuid_parse_bits(thread) {
                    None => r matches Err(e) && e@ == CliErrorView::Other(
                        "invalid thread ID: "@ + thread,
                    ),
                    Some(_) => r matches Ok(p) && p.channel == b && p.thread@ == thread
                        && p.content@ == content && p.state == state,
                },
            }
        }),
{
    let ghost fields = supervise_fields(cmd);
    let (channel, thread, content, state) = match cmd {
        SuperviseCmd::Draft { channel, thread, summary } => (
            channel,
            thread,
            summary,
            DecisionState::Drafted,
        ),
        SuperviseCmd::Confirm { channel, thread, summary } => {
            let content = match summary {
                Some(s) => s,
                None => String::from_str("Decision confirmed. Ready to execute."),
            };
            (channel, thread, content, DecisionState::Confirmed)
        },
        SuperviseCmd::Execute { channel, thread } => (
            channel,
            thread,
            String::from_str("Executing — implementation coming in increment 3."),
            DecisionState::Executing,
        ),
    };
    assert(fields == (channel@, thread@, content@, state));
    let channel_bits = match parse_uuid(channel.as_str()) {
        Ok(b) => b,
        Err(_) => {
            let mut m = String::from_str("invalid channel ID: ");
            m.append(channel.as_str());
            return Err(CliError::Other(m));
        },
    };
    match parse_uuid(thread.as_str()) {
        Ok(_) => {},
        Err(_) => {
            let mut m = String::from_str("invalid thread ID: ");
            m.append(thread.as_str());
            return Err(CliError::Other(m));
        },
    }
    Ok(SupervisePlan { channel: channel_bits, thread, content, state })
}

/// The views of a thread's tags, each a list of strings.
pub open spec fn tags_view(tags: Seq<Vec<String>>) -> Seq<Seq<Seq<char>>> {
    Seq::new(tags.len(), |i: int| string_views(tags[i]@))
}

/// The ISM ticket a thread is linked to: the value of its first
/// `["ism_ticket", "<id>", ...]` tag.
pub open spec fn linked_ticket_of(tags: Seq<Seq<Seq<char>>>) -> Option<Seq<char>>
    decreases tags.len(),
{
    if tags.len() == 0 {
        None
    } else if tags[0].len() >= 2 && tags[0][0] == "ism_ticket"@ {
        Some(tags[0][1])
    } else {
        linked_ticket_of(tags.drop_first())
    }
}

/// The ISM ticket a thread is linked to, read from its tags: the value of
/// the first `ism_ticket` tag that has one.
pub fn linked_ticket(tags: &Vec<Vec<String>>) -> (r: Option<String>)
    ensures
        crate::text::opt_view(r) == linked_ticket_of(tags_view(tags@)),
{
    let ghost all = tags_view(tags@);
    let n = tags.len();
    let mut i: usize = 0;
    assert(all.subrange(0, n as int) =~= all);
    while i < n
        invariant
            n == tags@.len(),
            all == tags_view(tags@),
            i <= n,
            linked_ticket_of(all) == linked_ticket_of(all.subrange(i as int, n as int)),
        decreases n - i,
    {
        let ghost rest = all.subrange(i as int, n as int);
        assert(rest.drop_first() =~= all.subrange(i + 1, n as int));
        assert(rest[0] == string_views(tags@[i as int]@));
        let tag = &tags[i];
        if tag.len() >= 2 && crate::text::chars_equal(
            &crate::text::chars_of(tag[0].as_str()),
            "ism_ticket",
        ) {
            return Some(tag[1].clone());
        }
        i = i + 1;
    }
    assert(all.subrange(n as int, n as int).len() == 0);
    None
}

/// What follows a confirmation on the ISM side.
pub enum ConfirmFollowUp {
    /// The thread is linked to a ticket: post the confirmed state to it.
    CommentOnTicket { ticket_id: String, body: String },
    /// The thread is a free discussion: create an issue for it.
    CreateIssue { title: String, description: String },
}

/// The title of the issue created for a confirmed free discussion.
pub open spec fn confirmed_issue_title(thread_id: Seq<char>) -> Seq<char> {
    "Decision confirmed in thread "@ + thread_id
}

/// Decides the ISM follow-up of a confirmation from the thread's tags: a
/// thread linked to a ticket gets the confirmed state posted to that ticket;
/// a free discussion gets an issue created, titled after the thread and
/// described by the confirmed text.
pub fn confirm_follow_up(tags: &Vec<Vec<String>>, thread_id: &str, content: &str) -> (r:
    ConfirmFollowUp)
    ensures
        match linked_ticket_of(tags_view(tags@)) {
            Some(t) => r matches ConfirmFollowUp::CommentOnTicket { ticket_id, body } && ticket_id@
                == t && body@ == crate::decision_gate::comment_body(DecisionState::Confirmed, None),
            None => r matches ConfirmFollowUp::CreateIssue { title, description } && title@
                == confirmed_issue_title(thread_id@) && description@ == content@,
        },
{
    match linked_ticket(tags) {
        Some(ticket_id) => {
            let body = crate::decision_gate::decision_comment_body(DecisionState::Confirmed, None);
            ConfirmFollowUp::CommentOnTicket { ticket_id, body }
        },
        None => {
            let mut title = String::from_str("Decision confirmed in thread ");
            title.append(thread_id);
            ConfirmFollowUp::CreateIssue { title, description: String::from_str(content) }
        },
    }
}

/// Records a decision state transition in the audit trail. Decision states
/// are carried by the event tags and their history, so there is nothing
/// further to write and the transition is always accepted.
pub fn log_decision_transition(thread_id: &str, state: DecisionState) -> (r: Result<(), CliError>)
    ensures
        r is Ok,
{
    Ok(())
}

} // verus!
