use gurl::privileged::{PrivOutcome, PrivPhase, PrivilegedExec};
use gurl::sync::{sync_outcome, ClosureSync, ClosureSyncError};
use gurl::transport::{parse_response, TransportError};
use gurl::upload::{make_upload_req, outcome_kind, UploadAction, UploadFailure, UploadMachine,
    UploadReqError, UploadState};

fn kind_for(line: &str) -> gurl::upload::UploadOutcomeKind {
    outcome_kind(&make_upload_req(&parse_response(line)))
}

#[test]
fn upload_classification() {
    let ok = make_upload_req(&parse_response("HTTP/1.1 200 OK\r\n\r\n{\"id\":7}"));
    assert_eq!(
        ok.unwrap().as_str(),
        "Derivation uploaded successfully! (server response: {\"id\":7})"
    );

    let missing = make_upload_req(&parse_response("HTTP/1.1 404 Not Found\r\n\r\nx"));
    assert!(matches!(missing, Err(UploadReqError::StoreHashNotFound)));

    let rejected = make_upload_req(&parse_response("HTTP/1.1 500 Internal Error\r\n\r\nboom"));
    match rejected {
        Err(UploadReqError::Comment(m)) => assert_eq!(
            m.as_str(),
            "ERROR: failed to upload derivation; 500 Internal Error\n\tboom"
        ),
        _ => panic!("expected a comment"),
    }

    let unreachable = make_upload_req(&Err(TransportError::Unreachable));
    assert!(matches!(unreachable, Err(UploadReqError::Comment(_))));
}

#[test]
fn upload_retry_roundtrip_succeeds_after_two_attempts_and_one_push() {
    let mut m = UploadMachine::new();
    assert!(matches!(m.next_action(), UploadAction::Upload));
    m.on_upload_outcome(kind_for("HTTP/1.1 404 Not Found\r\n\r\nmissing"));
    assert!(matches!(m.next_action(), UploadAction::Push));
    m.on_push_outcome(true);
    assert!(matches!(m.next_action(), UploadAction::Upload));
    m.on_upload_outcome(kind_for("HTTP/1.1 200 OK\r\n\r\ndone"));
    assert!(matches!(m.next_action(), UploadAction::Done));
    assert_eq!(m.state, UploadState::Success);
    assert_eq!(m.attempts, 2);
    assert_eq!(m.pushes, 1);
}

#[test]
fn second_miss_is_still_missing_and_no_third_attempt_follows() {
    let mut m = UploadMachine::new();
    m.on_upload_outcome(kind_for("HTTP/1.1 404 Not Found\r\n\r\nmissing"));
    m.on_push_outcome(true);
    m.on_upload_outcome(kind_for("HTTP/1.1 404 Not Found\r\n\r\nstill missing"));
    assert_eq!(m.state, UploadState::Fail(UploadFailure::StillMissing));
    assert_eq!(m.attempts, 2);
    // terminal: the machine asks for nothing more
    assert!(matches!(m.next_action(), UploadAction::Done));
}

#[test]
fn non_404_rejection_is_terminal_at_once() {
    let mut m = UploadMachine::new();
    m.on_upload_outcome(kind_for("HTTP/1.1 500 Err\r\n\r\nboom"));
    assert_eq!(m.state, UploadState::Fail(UploadFailure::Rejected));
    assert_eq!(m.attempts, 1);
}

#[test]
fn failed_push_is_terminal() {
    let mut m = UploadMachine::new();
    m.on_upload_outcome(kind_for("HTTP/1.1 404 NF\r\n\r\nx"));
    m.on_push_outcome(false);
    assert_eq!(m.state, UploadState::Fail(UploadFailure::PushFailed));
    assert_eq!(m.pushes, 0);
}

#[test]
fn writer_starts_only_after_spawn_and_fails_distinctly() {
    let mut p = PrivilegedExec::new();
    assert_eq!(p.phase, PrivPhase::Created);
    assert!(!p.spawn_succeeded);
    p.on_spawn(true);
    assert_eq!(p.phase, PrivPhase::Spawned);
    p.start_writer();
    assert_eq!(p.phase, PrivPhase::WriterStarted);
    // the credential write failed although the child exited zero: the
    // writer's failure is what gets reported
    p.on_join(false, Some(0));
    assert_eq!(p.phase, PrivPhase::Finished(PrivOutcome::WriterFailure));
}

#[test]
fn failed_spawn_never_reaches_the_writer() {
    let mut p = PrivilegedExec::new();
    p.on_spawn(false);
    assert_eq!(p.phase, PrivPhase::Finished(PrivOutcome::LaunchFailure));
    assert!(!p.spawn_succeeded);
}

#[test]
fn join_outcomes() {
    let outcomes = [
        (true, Some(0), PrivOutcome::Success),
        (true, Some(3), PrivOutcome::NonZero(3)),
        (true, None, PrivOutcome::LaunchFailure),
        (false, Some(1), PrivOutcome::WriterFailure),
    ];
    for (writer_ok, exit, expected) in outcomes {
        let mut p = PrivilegedExec::new();
        p.on_spawn(true);
        p.start_writer();
        p.on_join(writer_ok, exit);
        assert_eq!(p.phase, PrivPhase::Finished(expected));
    }
}

#[test]
fn transfer_command_lines() {
    let sync = ClosureSync::new(
        "ssh://builder@cache.example".to_owned(),
        "https://cache.example".to_owned(),
    );
    let push = sync.push_argv("/nix/store/abc");
    let push_strs: Vec<&str> = push.iter().map(|s| s.as_str()).collect();
    assert_eq!(push_strs, ["nix", "copy", "--to", "ssh://builder@cache.example",
        "/nix/store/abc"]);
    let pull = sync.pull_argv("/nix/store/abc");
    let pull_strs: Vec<&str> = pull.iter().map(|s| s.as_str()).collect();
    assert_eq!(pull_strs, ["nix", "copy", "--from", "https://cache.example", "/nix/store/abc"]);
}

#[test]
fn transfer_outcomes() {
    assert!(sync_outcome(true, true).is_ok());
    assert!(matches!(sync_outcome(false, false), Err(ClosureSyncError::LaunchFailed)));
    assert!(matches!(sync_outcome(true, false), Err(ClosureSyncError::NonZeroExit)));
}
