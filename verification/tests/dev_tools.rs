use buzz::dev_tools::{personality_for_program, personality_for_stem, Personality, ToolScope};

#[test]
fn test_tool_scope_default_is_full() {
    // No setting defaults to Full.
    assert_eq!(ToolScope::from_setting(None), ToolScope::Full);
}

#[test]
fn test_tool_scope_read_only_variants() {
    assert_eq!(ToolScope::from_setting(Some("read-only")), ToolScope::ReadOnly);
    assert_eq!(ToolScope::from_setting(Some("readonly")), ToolScope::ReadOnly);
    assert_eq!(ToolScope::from_setting(Some("READ-ONLY")), ToolScope::ReadOnly);
}

#[test]
fn test_tool_scope_invalid_defaults_to_full() {
    assert_eq!(ToolScope::from_setting(Some("invalid")), ToolScope::Full);
    assert_eq!(ToolScope::from_setting(Some("full")), ToolScope::Full);
}

#[test]
fn test_blocked_commands_docker_compose() {
    let scope = ToolScope::Full;
    assert_eq!(scope.check_blocked_command("docker compose down"), None);

    let scope = ToolScope::ReadOnly;
    assert!(scope.check_blocked_command("docker compose down").is_some());
    assert!(scope.check_blocked_command("docker-compose up").is_some());
    assert!(scope.check_blocked_command("docker compose restart").is_some());
    assert!(scope.check_blocked_command("docker compose rm").is_some());
    assert!(scope.check_blocked_command("docker compose stop").is_some());
}

#[test]
fn test_blocked_commands_rm_rf() {
    let scope = ToolScope::ReadOnly;
    assert!(scope.check_blocked_command("rm -rf /tmp/foo").is_some());
    assert!(scope.check_blocked_command("rm -r /tmp/foo").is_some());
}

#[test]
fn test_blocked_commands_git_push_force() {
    let scope = ToolScope::ReadOnly;
    assert!(scope.check_blocked_command("git push --force").is_some());
    assert!(scope
        .check_blocked_command("git push --force-with-lease origin main")
        .is_some());
}

#[test]
fn test_blocked_commands_git_reset_hard() {
    let scope = ToolScope::ReadOnly;
    assert!(scope.check_blocked_command("git reset --hard HEAD").is_some());
}

#[test]
fn test_blocked_commands_git_clean() {
    let scope = ToolScope::ReadOnly;
    assert!(scope.check_blocked_command("git clean -fdx").is_some());
    assert!(scope.check_blocked_command("git clean -f").is_some());
}

#[test]
fn test_blocked_commands_git_branch_delete() {
    let scope = ToolScope::ReadOnly;
    assert!(scope.check_blocked_command("git branch -D feature").is_some());
    assert!(scope.check_blocked_command("git branch -d feature").is_some());
}

#[test]
fn test_blocked_commands_docker_volume_rm() {
    let scope = ToolScope::ReadOnly;
    assert!(scope.check_blocked_command("docker volume rm my-volume").is_some());
}

#[test]
fn test_blocked_commands_docker_system_prune() {
    let scope = ToolScope::ReadOnly;
    assert!(scope.check_blocked_command("docker system prune").is_some());
}

#[test]
fn test_blocked_commands_docker_kill() {
    let scope = ToolScope::ReadOnly;
    assert!(scope.check_blocked_command("docker kill container-name").is_some());
}

#[test]
fn test_allowed_commands_in_read_only() {
    let scope = ToolScope::ReadOnly;
    assert_eq!(scope.check_blocked_command("echo hello"), None);
    assert_eq!(scope.check_blocked_command("cargo test"), None);
    assert_eq!(scope.check_blocked_command("just ci"), None);
    assert_eq!(scope.check_blocked_command("git status"), None);
    assert_eq!(scope.check_blocked_command("docker ps"), None);
    assert_eq!(scope.check_blocked_command("ls -la"), None);
}

#[test]
fn test_full_scope_allows_everything() {
    let scope = ToolScope::Full;
    assert_eq!(scope.check_blocked_command("docker compose down"), None);
    assert_eq!(scope.check_blocked_command("rm -rf /tmp/foo"), None);
    assert_eq!(scope.check_blocked_command("git push --force"), None);
    assert_eq!(scope.check_blocked_command("git reset --hard"), None);
}

#[test]
fn test_case_insensitive_blocking() {
    let scope = ToolScope::ReadOnly;
    assert!(scope.check_blocked_command("DOCKER COMPOSE DOWN").is_some());
    assert!(scope.check_blocked_command("Docker Compose Up").is_some());
    assert!(scope.check_blocked_command("RM -RF /tmp").is_some());
    assert!(scope.check_blocked_command("GIT PUSH --FORCE").is_some());
}

#[test]
fn blocked_command_reasons_are_exact() {
    let scope = ToolScope::ReadOnly;
    assert_eq!(
        scope.check_blocked_command("docker compose logs").as_deref(),
        Some("docker compose subcommands are blocked in read-only mode")
    );
    assert_eq!(scope.check_blocked_command("docker compose ps"), None);
    assert_eq!(
        scope.check_blocked_command("docker volume rm v").as_deref(),
        Some("docker volume rm is blocked in read-only mode")
    );
    assert_eq!(
        scope.check_blocked_command("DOCKER SYSTEM PRUNE -a").as_deref(),
        Some("docker system prune is blocked in read-only mode")
    );
    assert_eq!(
        scope.check_blocked_command("docker kill x").as_deref(),
        Some("docker kill is blocked in read-only mode")
    );
    assert_eq!(
        scope.check_blocked_command("rm -r x").as_deref(),
        Some("rm -rf / rm -r is blocked in read-only mode")
    );
    assert_eq!(
        scope.check_blocked_command("git push --force").as_deref(),
        Some("git push --force is blocked in read-only mode")
    );
    assert_eq!(scope.check_blocked_command("git push origin main"), None);
    assert_eq!(
        scope.check_blocked_command("git reset --hard").as_deref(),
        Some("git reset --hard is blocked in read-only mode")
    );
    assert_eq!(scope.check_blocked_command("git reset --soft HEAD~1"), None);
    assert_eq!(
        scope.check_blocked_command("git clean -n -f").as_deref(),
        Some("git clean -fdx is blocked in read-only mode")
    );
    assert_eq!(scope.check_blocked_command("git clean -n"), None);
    assert_eq!(
        scope.check_blocked_command("GIT BRANCH -D old").as_deref(),
        Some("git branch deletion is blocked in read-only mode")
    );
    assert_eq!(scope.check_blocked_command(""), None);
}

#[test]
fn str_replace_refused_only_in_read_only() {
    assert_eq!(ToolScope::Full.str_replace_refusal(), None);
    assert_eq!(
        ToolScope::ReadOnly.str_replace_refusal().as_deref(),
        Some("str_replace tool is not available in read-only mode")
    );
}

#[test]
fn personality_from_program_name() {
    assert_eq!(personality_for_program("/usr/local/bin/rg"), Personality::Rg);
    assert_eq!(personality_for_program("TREE"), Personality::Tree);
    assert_eq!(personality_for_program("bin/git-credential-nostr"), Personality::GitCredentialNostr);
    assert_eq!(personality_for_program("git-sign-nostr.exe"), Personality::GitSignNostr);
    assert_eq!(personality_for_program("/opt/buzz"), Personality::BuzzCli);
    assert_eq!(personality_for_program("/opt/buzz-dev-mcp"), Personality::McpServer);
    assert_eq!(personality_for_program(""), Personality::McpServer);
    assert_eq!(personality_for_stem(None), Personality::McpServer);
    assert_eq!(personality_for_stem(Some("Rg".to_string())), Personality::Rg);
}
