use gurl::agent::{teardown_report, CredentialAgentError, SshAgent, TeardownOutcome};
use gurl::apply::{age_bucket, apply_plan, artifact_state, current_age, deploy_argv,
    resolve_target_name, AgeBucket, ApplyPlan, ArtifactState};

const AGENT_OUTPUT: &str = "SSH_AUTH_SOCK=/tmp/ssh-x/agent.7; export SSH_AUTH_SOCK;\n\
    SSH_AGENT_PID=4242; export SSH_AGENT_PID;\n\
    echo Agent pid 4242;\n";

#[test]
fn agent_output_parses_into_the_overlay() {
    let agent = SshAgent::from_agent_output(AGENT_OUTPUT, true).unwrap();
    assert_eq!(agent.agent_pid.as_deref(), Some("4242"));
    assert_eq!(agent.auth_sock.as_deref(), Some("/tmp/ssh-x/agent.7"));
    assert!(agent.ssh_opts.is_none());
    assert!(!agent.identity_added);
    assert!(!agent.torn_down);
}

#[test]
fn missing_pid_fails_construction() {
    let out = "SSH_AUTH_SOCK=/tmp/ssh-x/agent.7; export SSH_AUTH_SOCK;\n";
    let err = SshAgent::from_agent_output(out, true).unwrap_err();
    assert!(matches!(err, CredentialAgentError::MissingPid));
}

#[test]
fn nonzero_agent_exit_fails_construction() {
    let err = SshAgent::from_agent_output(AGENT_OUTPUT, false).unwrap_err();
    assert!(matches!(err, CredentialAgentError::SpawnFailed));
}

#[test]
fn identity_add_failure_leaves_teardown_owed() {
    let mut agent = SshAgent::from_agent_output(AGENT_OUTPUT, true).unwrap();
    let err = agent.confirm_identity_added(false).unwrap_err();
    assert!(matches!(err, CredentialAgentError::IdentityAddFailed));
    assert!(!agent.identity_added);
    // teardown is still owed on this error path, and runs exactly once
    assert!(!agent.torn_down);
    agent.begin_teardown();
    assert!(agent.torn_down);
}

#[test]
fn overlay_accumulates_options() {
    let mut agent = SshAgent::from_agent_output(AGENT_OUTPUT, true).unwrap();
    agent.confirm_identity_added(true).unwrap();
    agent.add_ssh_opts("-o StrictHostKeyChecking=accept-new".to_owned());
    let pairs = agent.env_pairs();
    let view: Vec<(&str, &str)> = pairs.iter().map(|p| (p.0.as_str(), p.1.as_str())).collect();
    assert_eq!(view, [
        ("SSH_AUTH_SOCK", "/tmp/ssh-x/agent.7"),
        ("SSH_AGENT_PID", "4242"),
        ("NIX_SSHOPTS", "-o StrictHostKeyChecking=accept-new"),
    ]);
}

#[test]
fn cleanup_hint_names_every_entry() {
    let agent = SshAgent::from_agent_output(AGENT_OUTPUT, true).unwrap();
    let hint = agent.cleanup_hint();
    assert_eq!(
        hint.as_str(),
        "\tSSH_AUTH_SOCK=/tmp/ssh-x/agent.7; export SSH_AUTH_SOCK;\n\
         \tSSH_AGENT_PID=4242; export SSH_AGENT_PID;\n"
    );
}

#[test]
fn teardown_reports() {
    let agent = SshAgent::from_agent_output(AGENT_OUTPUT, true).unwrap();
    assert!(matches!(teardown_report(&agent, true, true), TeardownOutcome::Clean));
    assert!(matches!(teardown_report(&agent, false, false), TeardownOutcome::KillLaunchFailed));
    assert!(matches!(teardown_report(&agent, true, false), TeardownOutcome::KillExitedNonzero));
    let mut orphan = agent;
    orphan.agent_pid = None;
    assert!(matches!(teardown_report(&orphan, true, true), TeardownOutcome::NoPid));
}

#[test]
fn agent_output_with_crlf_line_endings() {
    let out = "SSH_AUTH_SOCK=/s; export SSH_AUTH_SOCK;\r\nSSH_AGENT_PID=9; export SSH_AGENT_PID;\r\n";
    let agent = SshAgent::from_agent_output(out, true).unwrap();
    assert_eq!(agent.agent_pid.as_deref(), Some("9"));
    assert_eq!(agent.auth_sock.as_deref(), Some("/s"));
}

#[test]
fn later_assignment_overrides_earlier() {
    let out = "SSH_AGENT_PID=1; export SSH_AGENT_PID;\nSSH_AGENT_PID=2; export SSH_AGENT_PID;";
    let agent = SshAgent::from_agent_output(out, true).unwrap();
    assert_eq!(agent.agent_pid.as_deref(), Some("2"));
}

#[test]
fn target_name_resolution() {
    let host = "worker7".to_owned();
    let resolved = resolve_target_name(&"$HOSTNAME".to_owned(), &host);
    assert_eq!(resolved.as_str(), "worker7");
    let literal = resolve_target_name(&"svc".to_owned(), &host);
    assert_eq!(literal.as_str(), "svc");
}

#[test]
fn plan_and_state() {
    assert!(matches!(apply_plan(true), ApplyPlan::DeployOnly));
    assert!(matches!(apply_plan(false), ApplyPlan::PullThenDeploy));
    assert!(matches!(artifact_state(false, true), ArtifactState::Running));
    assert!(matches!(artifact_state(true, true), ArtifactState::Running));
    assert!(matches!(artifact_state(true, false), ArtifactState::Cached));
    assert!(matches!(artifact_state(false, false), ArtifactState::Absent));
}

#[test]
fn deploy_command_line() {
    let argv = deploy_argv("gurl-apply-helper", "/nix/store/abc");
    let strs: Vec<&str> = argv.iter().map(|s| s.as_str()).collect();
    assert_eq!(strs, ["sudo", "-S", "gurl-apply-helper", "/nix/store/abc"]);
}

#[test]
fn age_buckets() {
    let now: i64 = 1_700_000_000;
    assert_eq!(age_bucket(now, now - 30), AgeBucket::Seconds(30));
    assert_eq!(age_bucket(now, now + 5), AgeBucket::Seconds(-5));
    assert_eq!(age_bucket(now, now - 90), AgeBucket::Minutes(1));
    assert_eq!(age_bucket(now, now - 5 * 3600), AgeBucket::Hours(5));
    assert_eq!(age_bucket(now, now - 6 * 86400), AgeBucket::DaysRecent(6));
    assert_eq!(age_bucket(now, now - 10 * 86400), AgeBucket::DaysOld(10));
    assert_eq!(age_bucket(now, now - 40 * 86400), AgeBucket::Older);
}

#[test]
fn current_age_reads_the_clock() {
    // whatever the clock reads, a recent-epoch timestamp is in range
    assert!(current_age(1_700_000_000).is_some());
}
