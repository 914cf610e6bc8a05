use linux_sandbox::encoding::encode_command;
use linux_sandbox::errors::LaunchError;
use linux_sandbox::errors::PolicyFailure;
use linux_sandbox::errors::PolicyFailureKind;
use linux_sandbox::invocation::LandlockCommand;
use linux_sandbox::launcher::LaunchState;
use linux_sandbox::launcher::Launcher;

fn request(command: Vec<String>) -> LandlockCommand {
    LandlockCommand::new(
        String::from("/tmp"),
        String::from("permit-all"),
        false,
        command,
    )
}

fn applied_launcher(command: Vec<String>) -> Launcher {
    let mut l = Launcher::new(request(command));
    l.begin_policy_application();
    let r = l.on_policy_outcome(Ok(()));
    assert!(r.is_none());
    l
}

#[test]
fn successful_policy_and_command_reach_the_replacement_stage() {
    let mut l = applied_launcher(vec![String::from("/bin/echo"), String::from("hi")]);
    let argv = l.prepare_exec().unwrap();
    assert_eq!(l.state, LaunchState::Execing);
    assert_eq!(argv.len(), 2);
    assert_eq!(argv[0].as_str(), "/bin/echo\0");
    assert_eq!(argv[1].as_str(), "hi\0");
}

#[test]
fn replacement_failure_reports_the_first_command_element() {
    let mut l = applied_launcher(vec![String::from("/nonexistent-binary")]);
    let argv = l.prepare_exec().unwrap();
    assert_eq!(argv.len(), 1);
    let e = l.on_exec_returned(String::from("No such file or directory (os error 2)"));
    assert_eq!(l.state, LaunchState::ExecFailed);
    assert_eq!(
        e.diagnostic().as_str(),
        "Failed to execvp /nonexistent-binary: No such file or directory (os error 2)"
    );
}

#[test]
fn empty_command_aborts_despite_a_successful_policy() {
    let mut l = applied_launcher(Vec::new());
    let e = l.prepare_exec().unwrap_err();
    assert_eq!(l.state, LaunchState::Aborted);
    assert!(matches!(e, LaunchError::EmptyCommand));
    assert_eq!(e.diagnostic().as_str(), "No command specified to execute.");
}

#[test]
fn each_policy_failure_kind_gets_its_own_diagnostic() {
    let cases = vec![
        (
            PolicyFailureKind::Namespaces,
            "error setting up namespaces/mounts: EPERM",
        ),
        (PolicyFailureKind::NoNewPrivs, "error setting no_new_privs: EPERM"),
        (PolicyFailureKind::Seccomp, "error installing seccomp filter: EPERM"),
        (PolicyFailureKind::Landlock, "error running landlock: EPERM"),
    ];
    let mut seen: Vec<String> = Vec::new();
    for (kind, expected) in cases {
        let mut l = Launcher::new(request(vec![String::from("/bin/true")]));
        l.begin_policy_application();
        let e = l
            .on_policy_outcome(Err(PolicyFailure { kind, detail: String::from("EPERM") }))
            .unwrap();
        assert_eq!(l.state, LaunchState::PolicyFailed);
        let d = e.diagnostic();
        assert_eq!(d.as_str(), expected);
        assert!(!seen.contains(&d), "diagnostics of two kinds coincide");
        seen.push(d);
    }
}

#[test]
fn policy_failure_ends_the_launch_in_a_terminal_state() {
    let mut l = Launcher::new(request(vec![String::from("/bin/true")]));
    l.begin_policy_application();
    let detail = String::from("operation not permitted");
    let e = l
        .on_policy_outcome(Err(PolicyFailure { kind: PolicyFailureKind::Seccomp, detail }))
        .unwrap();
    assert_eq!(l.state, LaunchState::PolicyFailed);
    assert_eq!(
        e.diagnostic().as_str(),
        "error installing seccomp filter: operation not permitted"
    );
}

#[test]
fn embedded_nul_aborts_before_any_replacement_attempt() {
    let mut l = applied_launcher(vec![String::from("bad\0arg")]);
    let e = l.prepare_exec().unwrap_err();
    assert_eq!(l.state, LaunchState::Aborted);
    assert!(matches!(e, LaunchError::StringEncoding { index: 0 }));
    assert_eq!(e.diagnostic().as_str(), "Failed to convert command to CString");
}

#[test]
fn embedded_nul_in_a_later_argument_names_that_argument() {
    let mut l = applied_launcher(vec![
        String::from("/bin/echo"),
        String::from("fine"),
        String::from("also\0bad"),
    ]);
    let e = l.prepare_exec().unwrap_err();
    assert_eq!(l.state, LaunchState::Aborted);
    assert!(matches!(e, LaunchError::StringEncoding { index: 2 }));
    assert_eq!(e.diagnostic().as_str(), "Failed to convert arg to CString");
}

#[test]
fn encoding_rejects_nul_at_every_position() {
    for s in ["\0", "\0abc", "ab\0c", "abc\0"] {
        let r = encode_command(&vec![String::from(s)]);
        assert!(matches!(r, Err(LaunchError::StringEncoding { index: 0 })));
    }
}

#[test]
fn encoding_appends_exactly_one_nul_terminator() {
    let argv =
        encode_command(&vec![String::from("/usr/bin/env"), String::from(""), String::from("a b")])
            .unwrap();
    assert_eq!(argv.len(), 3);
    assert_eq!(argv[0].as_str(), "/usr/bin/env\0");
    assert_eq!(argv[1].as_str(), "\0");
    assert_eq!(argv[2].as_str(), "a b\0");
}

#[test]
fn encoding_reports_the_first_offending_element() {
    let r = encode_command(&vec![
        String::from("ok"),
        String::from("first\0"),
        String::from("second\0"),
    ]);
    assert!(matches!(r, Err(LaunchError::StringEncoding { index: 1 })));
}

#[test]
fn the_command_line_is_captured_verbatim() {
    let command = vec![
        String::from("prog"),
        String::from("--flag"),
        String::from("--"),
        String::from("--flag"),
    ];
    let inv = LandlockCommand::new(
        String::from("/work"),
        String::from("policy-descriptor"),
        true,
        command.clone(),
    );
    assert_eq!(inv.sandbox_policy_cwd.as_str(), "/work");
    assert_eq!(inv.sandbox_policy.as_str(), "policy-descriptor");
    assert!(inv.enable_bind_mounts);
    assert_eq!(inv.command, command);
}

#[test]
fn no_retry_after_a_failure() {
    // The operation is single-shot: every failure leaves the launcher in a
    // terminal state, and each protocol step starts from the one state that
    // precedes it, so a failed launch offers no step to retry.
    let mut l = applied_launcher(vec![String::from("x\0")]);
    assert!(l.prepare_exec().is_err());
    assert_eq!(l.state, LaunchState::Aborted);

    let mut m = Launcher::new(request(vec![String::from("/bin/true")]));
    m.begin_policy_application();
    let detail = String::from("EACCES");
    m.on_policy_outcome(Err(PolicyFailure { kind: PolicyFailureKind::Landlock, detail }))
        .unwrap();
    assert_eq!(m.state, LaunchState::PolicyFailed);
}
