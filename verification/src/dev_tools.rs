//! Tool gating for the development MCP server: the tool scope, its shell
//! command deny-list, and the multicall personality chosen from the program
//! name.
use vstd::prelude::*;
use crate::text::{ascii_lower, chars_equal, contains_text, has_substring, lower_chars, occurs_at, opt_view};
use crate::external::{file_stem_text, path_file_stem};

verus! {

/// Tool scope controls which tools can be executed by the dev MCP server.
/// ReadOnly restricts file modification and destructive shell commands.
#[derive(Debug, Clone, Copy, PartialEq, Eq, Structural)]
pub enum ToolScope {
    /// All tools available (default, backward compatible).
    Full,
    /// Read-only: denies str_replace and a hardcoded deny-list of shell
    /// commands. A guard against a well-behaved-but-misdirected agent, not a
    /// security boundary against an adversarial one.
    ReadOnly,
}

/// The scope named by the setting value (`read-only` or `readonly` in any
/// ASCII case selects ReadOnly; anything else, or no value, selects Full).
pub open spec fn scope_of_setting(value: Option<Seq<char>>) -> ToolScope {
    match value {
        Some(v) => if ascii_lower(v) == "read-only"@ || ascii_lower(v) == "readonly"@ {
            ToolScope::ReadOnly
        } else {
            ToolScope::Full
        },
        None => ToolScope::Full,
    }
}

/// The reason the deny-list gives for an already lower-cased command, if any.
pub open spec fn deny_list_reason(l: Seq<char>) -> Option<Seq<char>> {
    if (has_substring(l, "docker compose"@) || has_substring(l, "docker-compose"@)) && (
    has_substring(l, "up"@) || has_substring(l, "down"@) || has_substring(l, "restart"@)
        || has_substring(l, "stop"@) || has_substring(l, "rm "@) || (has_substring(
        l,
        "docker compose"@,
    ) && !has_substring(l, "ps"@))) {
        Some("docker compose subcommands are blocked in read-only mode"@)
    } else if has_substring(l, "docker volume rm"@) {
        Some("docker volume rm is blocked in read-only mode"@)
    } else if has_substring(l, "docker system prune"@) {
        Some("docker system prune is blocked in read-only mode"@)
    } else if has_substring(l, "docker kill"@) {
        Some("docker kill is blocked in read-only mode"@)
    } else if has_substring(l, "rm -rf"@) || has_substring(l, "rm -r"@) {
        Some("rm -rf / rm -r is blocked in read-only mode"@)
    } else if has_substring(l, "git push"@) && (has_substring(l, "--force-with-lease"@)
        || has_substring(l, "--force"@)) {
        Some("git push --force is blocked in read-only mode"@)
    } else if has_substring(l, "git reset"@) && has_substring(l, "--hard"@) {
        Some("git reset --hard is blocked in read-only mode"@)
    } else if has_substring(l, "git clean"@) && (has_substring(l, "-fdx"@) || has_substring(
        l,
        "-f"@,
    )) {
        Some("git clean -fdx is blocked in read-only mode"@)
    } else if has_substring(l, "git branch -d"@) || has_substring(l, "git branch -D"@) {
        Some("git branch deletion is blocked in read-only mode"@)
    } else {
        None
    }
}

/// The reason a command is refused under `scope`, if it is: only ReadOnly
/// refuses anything, and it matches the deny-list against the ASCII
/// lower-cased command.
pub open spec fn blocked_reason(scope: ToolScope, cmd: Seq<char>) -> Option<Seq<char>> {
    if scope != ToolScope::ReadOnly {
        None
    } else {
        deny_list_reason(ascii_lower(cmd))
    }
}

/// The refusal text of the str_replace tool under `scope`, if it is refused.
pub open spec fn str_replace_refusal(scope: ToolScope) -> Option<Seq<char>> {
    if scope == ToolScope::ReadOnly {
        Some("str_replace tool is not available in read-only mode"@)
    } else {
        None
    }
}

fn reason(text: &str) -> (r: Option<String>)
    ensures
        opt_view(r) == Some(text@),
{
    Some(String::from_str(text))
}

impl ToolScope {
    /// The scope selected by the value of the scope setting
    /// (`BUZZ_DEV_MCP_TOOL_SCOPE`): `read-only` or `readonly`, in any ASCII
    /// case, select ReadOnly; an unset or unrecognized value selects Full.
    pub fn from_setting(value: Option<&str>) -> (r: ToolScope)
        ensures
            r == scope_of_setting(
                match value {
                    Some(v) => Some(v@),
                    None => None,
                },
            ),
    {
        match value {
            Some(v) => {
                let lower = lower_chars(v);
                if chars_equal(&lower, "read-only") || chars_equal(&lower, "readonly") {
                    ToolScope::ReadOnly
                } else {
                    ToolScope::Full
                }
            },
            None => ToolScope::Full,
        }
    }

    /// Check if a command string is blocked in read-only mode.
    /// Returns Some(reason) if blocked, None if allowed.
    /// This is a pattern-match deny-list on literal substrings of the
    /// ASCII-lower-cased command, not a sandbox.
    pub fn check_blocked_command(&self, cmd: &str) -> (r: Option<String>)
        ensures
            opt_view(r) == blocked_reason(*self, cmd@),
    {
        if *self != ToolScope::ReadOnly {
            return None;
        }
        let l = lower_chars(cmd);
        let compose = contains_text(&l, "docker compose");
        if (compose || contains_text(&l, "docker-compose")) && (contains_text(&l, "up")
            || contains_text(&l, "down") || contains_text(&l, "restart") || contains_text(
            &l,
            "stop",
        ) || contains_text(&l, "rm ") || (compose && !contains_text(&l, "ps"))) {
            return reason("docker compose subcommands are blocked in read-only mode");
        }
        if contains_text(&l, "docker volume rm") {
            return reason("docker volume rm is blocked in read-only mode");
        }
        if contains_text(&l, "docker system prune") {
            return reason("docker system prune is blocked in read-only mode");
        }
        if contains_text(&l, "docker kill") {
            return reason("docker kill is blocked in read-only mode");
        }
        if contains_text(&l, "rm -rf") || contains_text(&l, "rm -r") {
            return reason("rm -rf / rm -r is blocked in read-only mode");
        }
        if contains_text(&l, "git push") && (contains_text(&l, "--force-with-lease")
            || contains_text(&l, "--force")) {
            return reason("git push --force is blocked in read-only mode");
        }
        if contains_text(&l, "git reset") && contains_text(&l, "--hard") {
            return reason("git reset --hard is blocked in read-only mode");
        }
        if contains_text(&l, "git clean") && (contains_text(&l, "-fdx") || contains_text(
            &l,
            "-f",
        )) {
            return reason("git clean -fdx is blocked in read-only mode");
        }
        if contains_text(&l, "git branch -d") || contains_text(&l, "git branch -D") {
            return reason("git branch deletion is blocked in read-only mode");
        }
        None
    }

    /// The refusal the str_replace tool gives under this scope: ReadOnly
    /// refuses it, Full allows it.
    pub fn str_replace_refusal(&self) -> (r: Option<String>)
        ensures
            opt_view(r) == str_replace_refusal(*self),
    {
        if *self == ToolScope::ReadOnly {
            reason("str_replace tool is not available in read-only mode")
        } else {
            None
        }
    }
}

/// Full scope refuses no command.
pub proof fn lemma_full_scope_blocks_nothing(cmd: Seq<char>)
    ensures
        blocked_reason(ToolScope::Full, cmd).is_none(),
{
}

/// Blocking is case-insensitive: two commands that agree up to ASCII case get
/// the same verdict under every scope.
pub proof fn lemma_blocking_ignores_ascii_case(scope: ToolScope, a: Seq<char>, b: Seq<char>)
    requires
        ascii_lower(a) == ascii_lower(b),
    ensures
        blocked_reason(scope, a) == blocked_reason(scope, b),
{
}

/// The scope setting is read case-insensitively: two values that agree up to
/// ASCII case select the same scope, and no setting selects Full.
pub proof fn lemma_scope_setting_ignores_ascii_case(a: Seq<char>, b: Seq<char>)
    requires
        ascii_lower(a) == ascii_lower(b),
    ensures
        scope_of_setting(Some(a)) == scope_of_setting(Some(b)),
        scope_of_setting(None) == ToolScope::Full,
{
}

/// Under ReadOnly, every destructive pattern of the deny-list is refused,
/// whatever else the (lower-cased) command holds.
pub proof fn lemma_deny_list_refuses(cmd: Seq<char>)
    requires
        ({
            let l = ascii_lower(cmd);
            let compose = has_substring(l, "docker compose"@) || has_substring(l, "docker-compose"@);
            ||| compose && has_substring(l, "up"@)
            ||| compose && has_substring(l, "down"@)
            ||| compose && has_substring(l, "restart"@)
            ||| compose && has_substring(l, "stop"@)
            ||| compose && has_substring(l, "rm "@)
            ||| has_substring(l, "docker compose"@) && !has_substring(l, "ps"@)
            ||| has_substring(l, "docker volume rm"@)
            ||| has_substring(l, "docker system prune"@)
            ||| has_substring(l, "docker kill"@)
            ||| has_substring(l, "rm -rf"@)
            ||| has_substring(l, "rm -r"@)
            ||| has_substring(l, "git push"@) && has_substring(l, "--force-with-lease"@)
            ||| has_substring(l, "git push"@) && has_substring(l, "--force"@)
            ||| has_substring(l, "git reset"@) && has_substring(l, "--hard"@)
            ||| has_substring(l, "git clean"@) && has_substring(l, "-fdx"@)
            ||| has_substring(l, "git clean"@) && has_substring(l, "-f"@)
            ||| has_substring(l, "git branch -d"@)
            ||| has_substring(l, "git branch -D"@)
        }),
    ensures
        blocked_reason(ToolScope::ReadOnly, cmd).is_some(),
{
}

/// Under ReadOnly, a docker compose command (`docker compose` or
/// `docker-compose`, in any ASCII case) that names one of the subcommands
/// up, down, restart, stop or `rm ` is refused as a compose subcommand.
pub proof fn lemma_compose_subcommands_refused(cmd: Seq<char>)
    requires
        ({
            let l = ascii_lower(cmd);
            &&& has_substring(l, "docker compose"@) || has_substring(l, "docker-compose"@)
            &&& has_substring(l, "up"@) || has_substring(l, "down"@) || has_substring(
                l,
                "restart"@,
            ) || has_substring(l, "stop"@) || has_substring(l, "rm "@)
        }),
    ensures
        blocked_reason(ToolScope::ReadOnly, cmd) == Some(
            "docker compose subcommands are blocked in read-only mode"@,
        ),
{
}

/// Under ReadOnly, a command that matches none of the deny-list's patterns
/// is allowed: the list refuses nothing else.
pub proof fn lemma_deny_list_allows(cmd: Seq<char>)
    requires
        ({
            let l = ascii_lower(cmd);
            let compose = has_substring(l, "docker compose"@) || has_substring(l, "docker-compose"@);
            &&& !(compose && (has_substring(l, "up"@) || has_substring(l, "down"@) || has_substring(
                l,
                "restart"@,
            ) || has_substring(l, "stop"@) || has_substring(l, "rm "@)))
            &&& !(has_substring(l, "docker compose"@) && !has_substring(l, "ps"@))
            &&& !has_substring(l, "docker volume rm"@)
            &&& !has_substring(l, "docker system prune"@)
            &&& !has_substring(l, "docker kill"@)
            &&& !has_substring(l, "rm -r"@)
            &&& !(has_substring(l, "git push"@) && has_substring(l, "--force"@))
            &&& !(has_substring(l, "git reset"@) && has_substring(l, "--hard"@))
            &&& !(has_substring(l, "git clean"@) && has_substring(l, "-f"@))
            &&& !has_substring(l, "git branch -d"@)
            &&& !has_substring(l, "git branch -D"@)
        }),
    ensures
        blocked_reason(ToolScope::ReadOnly, cmd).is_none(),
{
    let l = ascii_lower(cmd);
    reveal_strlit("rm -rf");
    reveal_strlit("rm -r");
    reveal_strlit("--force-with-lease");
    reveal_strlit("--force");
    reveal_strlit("-fdx");
    reveal_strlit("-f");
    assert("rm -rf"@.subrange(0, 5) =~= "rm -r"@);
    assert("--force-with-lease"@.subrange(0, 7) =~= "--force"@);
    assert("-fdx"@.subrange(0, 2) =~= "-f"@);
    lemma_longer_pattern_implies(l, "rm -rf"@, "rm -r"@);
    lemma_longer_pattern_implies(l, "--force-with-lease"@, "--force"@);
    lemma_longer_pattern_implies(l, "-fdx"@, "-f"@);
}

/// A text holding a pattern holds every prefix of that pattern.
proof fn lemma_longer_pattern_implies(l: Seq<char>, long: Seq<char>, short: Seq<char>)
    requires
        short.len() <= long.len(),
        long.subrange(0, short.len() as int) == short,
    ensures
        has_substring(l, long) ==> has_substring(l, short),
{
    if has_substring(l, long) {
        let i = choose|i: int| occurs_at(l, long, i);
        assert(l.subrange(i, i + short.len()) =~= long.subrange(0, short.len() as int));
        assert(occurs_at(l, short, i));
    }
}

/// Under ReadOnly, the reason given names the first pattern family that the
/// lower-cased command matches, in the order: docker compose, docker volume
/// rm, docker system prune, docker kill, rm -r, git push --force, git reset
/// --hard, git clean -f, git branch deletion.
pub proof fn lemma_deny_list_reasons(cmd: Seq<char>)
    ensures
        ({
            let l = ascii_lower(cmd);
            let r = blocked_reason(ToolScope::ReadOnly, cmd);
            let compose = (has_substring(l, "docker compose"@) || has_substring(
                l,
                "docker-compose"@,
            )) && (has_substring(l, "up"@) || has_substring(l, "down"@) || has_substring(
                l,
                "restart"@,
            ) || has_substring(l, "stop"@) || has_substring(l, "rm "@) || (has_substring(
                l,
                "docker compose"@,
            ) && !has_substring(l, "ps"@)));
            let volume = has_substring(l, "docker volume rm"@);
            let prune = has_substring(l, "docker system prune"@);
            let kill = has_substring(l, "docker kill"@);
            let rm = has_substring(l, "rm -rf"@) || has_substring(l, "rm -r"@);
            let push = has_substring(l, "git push"@) && (has_substring(l, "--force-with-lease"@)
                || has_substring(l, "--force"@));
            let reset = has_substring(l, "git reset"@) && has_substring(l, "--hard"@);
            let clean = has_substring(l, "git clean"@) && (has_substring(l, "-fdx"@)
                || has_substring(l, "-f"@));
            &&& compose ==> r == Some("docker compose subcommands are blocked in read-only mode"@)
            &&& !compose && volume ==> r == Some("docker volume rm is blocked in read-only mode"@)
            &&& !compose && !volume && prune ==> r == Some(
                "docker system prune is blocked in read-only mode"@,
            )
            &&& !compose && !volume && !prune && kill ==> r == Some(
                "docker kill is blocked in read-only mode"@,
            )
            &&& !compose && !volume && !prune && !kill && rm ==> r == Some(
                "rm -rf / rm -r is blocked in read-only mode"@,
            )
            &&& !compose && !volume && !prune && !kill && !rm && push ==> r == Some(
                "git push --force is blocked in read-only mode"@,
            )
            &&& !compose && !volume && !prune && !kill && !rm && !push && reset ==> r == Some(
                "git reset --hard is blocked in read-only mode"@,
            )
            &&& !compose && !volume && !prune && !kill && !rm && !push && !reset && clean ==> r
                == Some("git clean -fdx is blocked in read-only mode"@)
            &&& !compose && !volume && !prune && !kill && !rm && !push && !reset && !clean && (
            has_substring(l, "git branch -d"@) || has_substring(l, "git branch -D"@)) ==> r
                == Some("git branch deletion is blocked in read-only mode"@)
        }),
{
}

/// What a multicall invocation of the dev MCP binary runs, chosen by the
/// lower-cased file stem of the program name.
#[derive(Debug, Clone, Copy, PartialEq, Eq, Structural)]
pub enum Personality {
    /// `rg`: the bundled ripgrep-style search.
    Rg,
    /// `tree`: the bundled directory tree listing.
    Tree,
    /// `git-credential-nostr`: the git credential helper.
    GitCredentialNostr,
    /// `git-sign-nostr`: the git signing helper.
    GitSignNostr,
    /// `buzz`: the Buzz relay CLI.
    BuzzCli,
    /// Anything else: the MCP server itself.
    McpServer,
}

/// The personality named by an (already lower-cased) program stem.
pub open spec fn personality_of_stem(stem: Seq<char>) -> Personality {
    if stem == "rg"@ {
        Personality::Rg
    } else if stem == "tree"@ {
        Personality::Tree
    } else if stem == "git-credential-nostr"@ {
        Personality::GitCredentialNostr
    } else if stem == "git-sign-nostr"@ {
        Personality::GitSignNostr
    } else if stem == "buzz"@ {
        Personality::BuzzCli
    } else {
        Personality::McpServer
    }
}

/// The personality for a program whose file stem is `stem` (no stem counts as
/// the empty name); the stem is matched ASCII-case-insensitively.
pub fn personality_for_stem(stem: Option<String>) -> (r: Personality)
    ensures
        r == personality_of_stem(
            ascii_lower(
                match stem {
                    Some(s) => s@,
                    None => Seq::empty(),
                },
            ),
        ),
{
    let name = match stem {
        Some(s) => s,
        None => String::new(),
    };
    let l = lower_chars(name.as_str());
    if chars_equal(&l, "rg") {
        Personality::Rg
    } else if chars_equal(&l, "tree") {
        Personality::Tree
    } else if chars_equal(&l, "git-credential-nostr") {
        Personality::GitCredentialNostr
    } else if chars_equal(&l, "git-sign-nostr") {
        Personality::GitSignNostr
    } else if chars_equal(&l, "buzz") {
        Personality::BuzzCli
    } else {
        Personality::McpServer
    }
}

/// The personality for the program invoked as `argv0`, chosen by the file
/// stem of that path.
pub fn personality_for_program(argv0: &str) -> (r: Personality)
    ensures
        r == personality_of_stem(
            ascii_lower(
                match path_file_stem(argv0@) {
                    Some(s) => s,
                    None => Seq::empty(),
                },
            ),
        ),
{
    let stem = file_stem_text(argv0);
    personality_for_stem(stem)
}

} // verus!
