//! Markdown summary of an ISM issue, posted into a discussion thread.
use vstd::prelude::*;
use crate::ism::{Attachment, Comment, Issue};
use crate::text::{join, join_strings, lemma_starts_with_prefix, starts_with, string_views};

verus! {

/// `label`, the value and a line break, when the value is present.
pub open spec fn optional_line(label: Seq<char>, v: Option<String>) -> Seq<char> {
    match v {
        Some(x) => label + x@ + "\n"@,
        None => Seq::empty(),
    }
}

/// The labels line, when the issue has labels.
pub open spec fn labels_line(labels: Seq<String>) -> Seq<char> {
    if labels.len() > 0 {
        "**Labels:** "@ + join(string_views(labels), ", "@) + "\n"@
    } else {
        Seq::empty()
    }
}

/// The description paragraph, when the issue has a non-empty description.
pub open spec fn description_block(d: Option<String>) -> Seq<char> {
    match d {
        Some(x) => if x@.len() > 0 {
            x@ + "\n\n"@
        } else {
            Seq::empty()
        },
        None => Seq::empty(),
    }
}

/// Title line, metadata lines, a blank line and the description.
pub open spec fn issue_header(issue_id: Seq<char>, issue: Issue) -> Seq<char> {
    "## "@ + issue_id + " — "@ + issue.title@ + "\n\n"@ + "**Status:** "@ + issue.status@
        + "\n"@ + optional_line("**Priority:** "@, issue.priority) + optional_line(
        "**Assigned to:** "@,
        issue.assignee,
    ) + labels_line(issue.labels@) + "\n"@ + description_block(issue.description)
}

/// One comment: author, time and body, then a rule unless it is the last.
pub open spec fn comment_entry(c: Comment, last: bool) -> Seq<char> {
    "**"@ + c.author@ + "** ("@ + c.created_at@ + "):\n\n"@ + c.body@ + "\n\n"@ + (if last {
        Seq::empty()
    } else {
        "---\n\n"@
    })
}

/// The entries of the first `k` comments.
pub open spec fn comment_entries(cs: Seq<Comment>, k: nat) -> Seq<char>
    decreases k,
{
    if k == 0 {
        Seq::empty()
    } else {
        comment_entries(cs, (k - 1) as nat) + comment_entry(cs[k - 1], k == cs.len())
    }
}

/// The comments section, when there are comments.
pub open spec fn comments_section(cs: Seq<Comment>) -> Seq<char> {
    if cs.len() > 0 {
        "### Comments\n\n"@ + comment_entries(cs, cs.len())
    } else {
        Seq::empty()
    }
}

/// One attachment as a Markdown link with its content type.
pub open spec fn attachment_entry(a: Attachment) -> Seq<char> {
    "- ["@ + a.filename@ + "]("@ + a.url@ + ") ("@ + a.content_type@ + ")\n"@
}

/// The entries of the first `k` attachments.
pub open spec fn attachment_entries(atts: Seq<Attachment>, k: nat) -> Seq<char>
    decreases k,
{
    if k == 0 {
        Seq::empty()
    } else {
        attachment_entries(atts, (k - 1) as nat) + attachment_entry(atts[k - 1])
    }
}

/// The attachments section, when there are attachments.
pub open spec fn attachments_section(atts: Seq<Attachment>) -> Seq<char> {
    if atts.len() > 0 {
        "### Attachments\n\n"@ + attachment_entries(atts, atts.len()) + "\n"@
    } else {
        Seq::empty()
    }
}

/// The whole Markdown summary of an issue.
pub open spec fn ism_summary(
    issue_id: Seq<char>,
    issue: Issue,
    comments: Seq<Comment>,
    attachments: Seq<Attachment>,
) -> Seq<char> {
    issue_header(issue_id, issue) + comments_section(comments) + attachments_section(attachments)
}

/// The Markdown link line of each attachment, in list order.
proof fn lemma_attachment_lines(atts: Seq<Attachment>, k: nat)
    requires
        k <= atts.len(),
    ensures
        attachment_entries(atts, k) == Seq::new(
            k,
            |i: int|
                "- ["@ + atts[i].filename@ + "]("@ + atts[i].url@ + ") ("@ + atts[i].content_type@
                    + ")\n"@,
        ).flatten(),
    decreases k,
{
    let f = |i: int|
        "- ["@ + atts[i].filename@ + "]("@ + atts[i].url@ + ") ("@ + atts[i].content_type@ + ")\n"@;
    if k == 0 {
        assert(Seq::new(0, f) =~= Seq::<Seq<char>>::empty());
    } else {
        lemma_attachment_lines(atts, (k - 1) as nat);
        assert(Seq::new(k, f) =~= Seq::new((k - 1) as nat, f).push(f(k - 1)));
        Seq::new((k - 1) as nat, f).lemma_flatten_push(f(k - 1));
    }
}

/// The attachments close the summary: a summary with attachments is the
/// summary of the same issue and comments without them, followed by the
/// Attachments heading, one Markdown link line per attachment in list order
/// (`- [<filename>](<url>) (<content type>)`), and a blank line.
pub proof fn lemma_summary_lists_every_attachment(
    issue_id: Seq<char>,
    issue: Issue,
    comments: Seq<Comment>,
    attachments: Seq<Attachment>,
)
    requires
        attachments.len() > 0,
    ensures
        ism_summary(issue_id, issue, comments, attachments) == ism_summary(
            issue_id,
            issue,
            comments,
            Seq::empty(),
        ) + "### Attachments\n\n"@ + Seq::new(
            attachments.len(),
            |i: int|
                "- ["@ + attachments[i].filename@ + "]("@ + attachments[i].url@ + ") ("@
                    + attachments[i].content_type@ + ")\n"@,
        ).flatten() + "\n"@,
{
    lemma_attachment_lines(attachments, attachments.len());
    assert(attachments_section(Seq::<Attachment>::empty()) =~= Seq::<char>::empty());
    assert(ism_summary(issue_id, issue, comments, Seq::empty()) =~= issue_header(issue_id, issue)
        + comments_section(comments));
}

/// The entry of each comment: author, time and body, each but the last
/// followed by a rule.
proof fn lemma_comment_blocks(cs: Seq<Comment>, k: nat)
    requires
        k <= cs.len(),
    ensures
        comment_entries(cs, k) == Seq::new(
            k,
            |i: int|
                "**"@ + cs[i].author@ + "** ("@ + cs[i].created_at@ + "):\n\n"@ + cs[i].body@
                    + "\n\n"@ + (if i + 1 < cs.len() {
                    "---\n\n"@
                } else {
                    Seq::empty()
                }),
        ).flatten(),
    decreases k,
{
    let f = |i: int|
        "**"@ + cs[i].author@ + "** ("@ + cs[i].created_at@ + "):\n\n"@ + cs[i].body@ + "\n\n"@
            + (if i + 1 < cs.len() {
            "---\n\n"@
        } else {
            Seq::empty()
        });
    if k == 0 {
        assert(Seq::new(0, f) =~= Seq::<Seq<char>>::empty());
    } else {
        lemma_comment_blocks(cs, (k - 1) as nat);
        assert(Seq::new(k, f) =~= Seq::new((k - 1) as nat, f).push(f(k - 1)));
        Seq::new((k - 1) as nat, f).lemma_flatten_push(f(k - 1));
        assert(comment_entry(cs[k - 1], k == cs.len()) == f(k - 1));
    }
}

/// The summary opens with the issue's title line and status line, and its
/// comments follow the issue header in order: a summary with comments is
/// the summary of the same issue without them, followed by the Comments
/// heading and, for each comment in order, its author, time and body,
/// separated by rules.
pub proof fn lemma_summary_lists_every_comment(
    issue_id: Seq<char>,
    issue: Issue,
    comments: Seq<Comment>,
)
    ensures
        starts_with(
            ism_summary(issue_id, issue, comments, Seq::empty()),
            "## "@ + issue_id + " — "@ + issue.title@ + "\n\n"@ + "**Status:** "@ + issue.status@
                + "\n"@,
        ),
        comments.len() > 0 ==> ism_summary(issue_id, issue, comments, Seq::empty()) == ism_summary(
            issue_id,
            issue,
            Seq::empty(),
            Seq::empty(),
        ) + "### Comments\n\n"@ + Seq::new(
            comments.len(),
            |i: int|
                "**"@ + comments[i].author@ + "** ("@ + comments[i].created_at@ + "):\n\n"@
                    + comments[i].body@ + "\n\n"@ + (if i + 1 < comments.len() {
                    "---\n\n"@
                } else {
                    Seq::empty()
                }),
        ).flatten(),
{
    lemma_comment_blocks(comments, comments.len());
    assert(attachments_section(Seq::<Attachment>::empty()) =~= Seq::<char>::empty());
    assert(comments_section(Seq::<Comment>::empty()) =~= Seq::<char>::empty());
    let first = "## "@ + issue_id + " — "@ + issue.title@ + "\n\n"@ + "**Status:** "@
        + issue.status@ + "\n"@;
    let rest = optional_line("**Priority:** "@, issue.priority) + optional_line(
        "**Assigned to:** "@,
        issue.assignee,
    ) + labels_line(issue.labels@) + "\n"@ + description_block(issue.description)
        + comments_section(comments);
    assert(ism_summary(issue_id, issue, comments, Seq::empty()) =~= first + rest);
    lemma_starts_with_prefix(first, rest);
    assert(ism_summary(issue_id, issue, Seq::empty(), Seq::empty()) =~= issue_header(
        issue_id,
        issue,
    ));
}

fn push_optional_line(md: &mut String, label: &str, v: &Option<String>)
    ensures
        final(md)@ == old(md)@ + optional_line(label@, *v),
{
    match v {
        Some(x) => {
            md.append(label);
            md.append(x.as_str());
            md.append("\n");
        },
        None => {
            assert(old(md)@ + optional_line(label@, *v) =~= old(md)@);
        },
    }
}

/// Format ISM issue details as a Markdown summary: a title line with the
/// issue ID and title, the status, priority, assignee and labels, the
/// description, then the comments (separated by rules) and the attachments
/// as links.
pub fn format_ism_summary(
    issue_id: &str,
    issue: &Issue,
    comments: &[Comment],
    attachments: &[Attachment],
) -> (md: String)
    ensures
        md@ == ism_summary(issue_id@, *issue, comments@, attachments@),
{
    let mut md = String::from_str("## ");
    md.append(issue_id);
    md.append(" — ");
    md.append(issue.title.as_str());
    md.append("\n\n");
    md.append("**Status:** ");
    md.append(issue.status.as_str());
    md.append("\n");
    push_optional_line(&mut md, "**Priority:** ", &issue.priority);
    push_optional_line(&mut md, "**Assigned to:** ", &issue.assignee);
    let ghost before_labels = md@;
    if issue.labels.len() > 0 {
        md.append("**Labels:** ");
        let joined = join_strings(&issue.labels, ", ");
        md.append(joined.as_str());
        md.append("\n");
    }
    assert(md@ =~= before_labels + labels_line(issue.labels@));
    md.append("\n");
    let ghost before_description = md@;
    match &issue.description {
        Some(description) => {
            if !description.as_str().is_empty() {
                md.append(description.as_str());
                md.append("\n\n");
            }
        },
        None => {},
    }
    assert(md@ =~= before_description + description_block(issue.description));
    assert(md@ =~= issue_header(issue_id@, *issue));
    let ghost header = md@;
    let n = comments.len();
    if n > 0 {
        md.append("### Comments\n\n");
        let mut i: usize = 0;
        while i < n
            invariant
                n == comments@.len(),
                n > 0,
                i <= n,
                md@ == header + "### Comments\n\n"@ + comment_entries(comments@, i as nat),
            decreases n - i,
        {
            let c = &comments[i];
            md.append("**");
            md.append(c.author.as_str());
            md.append("** (");
            md.append(c.created_at.as_str());
            md.append("):\n\n");
            md.append(c.body.as_str());
            md.append("\n\n");
            if i < n - 1 {
                md.append("---\n\n");
            }
            assert(comment_entries(comments@, (i + 1) as nat) == comment_entries(
                comments@,
                i as nat,
            ) + comment_entry(comments@[i as int], i + 1 == n));
            assert(md@ =~= header + "### Comments\n\n"@ + comment_entries(
                comments@,
                (i + 1) as nat,
            ));
            i = i + 1;
        }
    }
    assert(md@ =~= header + comments_section(comments@));
    let ghost with_comments = md@;
    let m = attachments.len();
    if m > 0 {
        md.append("### Attachments\n\n");
        let mut j: usize = 0;
        while j < m
            invariant
                m == attachments@.len(),
                j <= m,
                md@ == with_comments + "### Attachments\n\n"@ + attachment_entries(
                    attachments@,
                    j as nat,
                ),
            decreases m - j,
        {
            let a = &attachments[j];
            md.append("- [");
            md.append(a.filename.as_str());
            md.append("](");
            md.append(a.url.as_str());
            md.append(") (");
            md.append(a.content_type.as_str());
            md.append(")\n");
            assert(attachment_entries(attachments@, (j + 1) as nat) == attachment_entries(
                attachments@,
                j as nat,
            ) + attachment_entry(attachments@[j as int]));
            assert(md@ =~= with_comments + "### Attachments\n\n"@ + attachment_entries(
                attachments@,
                (j + 1) as nat,
            ));
            j = j + 1;
        }
        md.append("\n");
    }
    assert(md@ =~= with_comments + attachments_section(attachments@));
    md
}

} // verus!
