use whisper_input::startup::{
    app_bundle_path_for_executable, build_permission_dialog_message, build_permission_status_dialog_message,
    collect_permission_issues, current_permission_report, path_components_of, same_path, dialog_action_from_output,
    open_settings_after_diagnostics, permission_issues_from_grants, prompts_needed, PermissionProbes,
    settings_url_for_issues, try_lock_file_result, DialogAction, LaunchContext, LockError,
    MicrophoneAuthorizationStatus, PermissionIssue, PermissionReport,
};

fn sample_launch_context() -> LaunchContext {
    LaunchContext {
        current_executable_path: String::from(
            "/Users/grad/Applications/WhisperInput.app/Contents/MacOS/whisper_input",
        ),
        current_app_bundle_path: Some(String::from("/Users/grad/Applications/WhisperInput.app")),
        expected_login_app_path: Some(String::from("/Users/grad/Applications/WhisperInput.app")),
    }
}

fn sample_permission_report() -> PermissionReport {
    PermissionReport {
        launch_context: sample_launch_context(),
        accessibility_granted: true,
        input_monitoring_granted: false,
        microphone_granted: true,
        issues: vec![PermissionIssue::InputMonitoring],
    }
}

#[test]
fn microphone_status_maps_known_values() {
    assert_eq!(MicrophoneAuthorizationStatus::from_raw(0), MicrophoneAuthorizationStatus::NotDetermined);
    assert_eq!(MicrophoneAuthorizationStatus::from_raw(1), MicrophoneAuthorizationStatus::Restricted);
    assert_eq!(MicrophoneAuthorizationStatus::from_raw(2), MicrophoneAuthorizationStatus::Denied);
    assert_eq!(MicrophoneAuthorizationStatus::from_raw(3), MicrophoneAuthorizationStatus::Authorized);
    assert_eq!(MicrophoneAuthorizationStatus::from_raw(7), MicrophoneAuthorizationStatus::Unknown(7));
}

#[test]
fn permission_dialog_lists_requested_permissions() {
    let launch_context = sample_launch_context();
    let message = build_permission_dialog_message(
        &[PermissionIssue::Accessibility, PermissionIssue::InputMonitoring, PermissionIssue::Microphone],
        &launch_context,
    );
    assert!(message.contains("Accessibility"));
    assert!(message.contains("Input Monitoring"));
    assert!(message.contains("Microphone"));
    assert!(message.contains("Permission target"));
    assert!(message.contains("already asked macOS"));
}

#[test]
fn permission_dialog_reports_login_target_mismatch() {
    let mut launch_context = sample_launch_context();
    launch_context.current_app_bundle_path = Some(String::from("/Applications/OldWhisperInput.app"));

    let message = build_permission_dialog_message(&[PermissionIssue::InputMonitoring], &launch_context);

    assert!(message.contains("/Applications/OldWhisperInput.app"));
    assert!(message.contains("/Users/grad/Applications/WhisperInput.app"));
    assert!(message.contains("does not match the installed login app"));
}

#[test]
fn permission_status_dialog_lists_current_states() {
    let message = build_permission_status_dialog_message(&sample_permission_report());

    assert!(message.contains("Input Monitoring / Hotkey: Missing"));
    assert!(message.contains("Accessibility / Paste: Granted"));
    assert!(message.contains("Microphone / Recording: Granted"));
    assert!(message.contains("Open Settings"));
}

#[test]
fn permission_status_dialog_reports_all_clear() {
    let mut report = sample_permission_report();
    report.input_monitoring_granted = true;
    report.issues.clear();

    let message = build_permission_status_dialog_message(&report);

    assert!(message.contains("All required permissions are currently granted."));
    assert!(!message.contains("Open Settings"));
}

#[test]
fn bundle_path_is_extracted_from_executable_path() {
    let bundle_path = app_bundle_path_for_executable(
        "/Users/grad/Applications/WhisperInput.app/Contents/MacOS/whisper_input",
    );
    assert_eq!(bundle_path, Some(String::from("/Users/grad/Applications/WhisperInput.app")));
}

#[test]
fn settings_url_prefers_specific_page_for_single_issue() {
    assert_eq!(
        settings_url_for_issues(&[PermissionIssue::Accessibility]),
        "x-apple.systempreferences:com.apple.preference.security?Privacy_Accessibility"
    );
    assert_eq!(
        settings_url_for_issues(&[PermissionIssue::InputMonitoring]),
        "x-apple.systempreferences:com.apple.preference.security?Privacy_ListenEvent"
    );
    assert_eq!(
        settings_url_for_issues(&[PermissionIssue::Microphone]),
        "x-apple.systempreferences:com.apple.preference.security?Privacy_Microphone"
    );
}

#[test]
fn settings_url_uses_general_privacy_page_for_multiple_issues() {
    assert_eq!(
        settings_url_for_issues(&[PermissionIssue::Accessibility, PermissionIssue::InputMonitoring]),
        "x-apple.systempreferences:com.apple.preference.security"
    );
}

#[test]
fn permission_issue_mapping_keeps_accessibility_missing_until_granted() {
    assert_eq!(permission_issues_from_grants(false, true, true), vec![PermissionIssue::Accessibility]);
    assert_eq!(permission_issues_from_grants(true, false, true), vec![PermissionIssue::InputMonitoring]);
    assert_eq!(permission_issues_from_grants(true, true, false), vec![PermissionIssue::Microphone]);
    assert_eq!(
        permission_issues_from_grants(false, false, true),
        vec![PermissionIssue::Accessibility, PermissionIssue::InputMonitoring]
    );
}

#[test]
fn full_dialog_text_is_exact() {
    let ctx = LaunchContext {
        current_executable_path: String::from("/bin/whisper_input"),
        current_app_bundle_path: None,
        expected_login_app_path: None,
    };
    let message = build_permission_dialog_message(&[PermissionIssue::Microphone], &ctx);
    assert_eq!(
        message,
        "WhisperInput started without all required permissions.\n\nPermission target: /bin/whisper_input\n\n- Microphone: needed to capture voice input.\n\nWhisperInput already asked macOS for any permission that supports a direct prompt.\nOpen System Settings now for anything that still needs manual approval. After changing permissions, quit and reopen WhisperInput if a feature stays unavailable."
    );
    assert_eq!(ctx.permission_target_path(), "/bin/whisper_input");
    assert_eq!(ctx.login_target_matches_current_runtime(), None);
}

#[test]
fn login_target_mismatch_needs_attention() {
    let mut report = sample_permission_report();
    report.issues.clear();
    assert!(!report.needs_attention());
    report.launch_context.current_app_bundle_path = None;
    assert_eq!(report.launch_context.login_target_matches_current_runtime(), Some(false));
    assert!(report.needs_attention());
    assert!(open_settings_after_diagnostics(DialogAction::OpenSettings, &report));
    assert!(!open_settings_after_diagnostics(DialogAction::Later, &report));
}

#[test]
fn login_paths_are_compared_as_paths() {
    let mut ctx = sample_launch_context();
    ctx.current_app_bundle_path = Some(String::from("/A.app"));
    ctx.expected_login_app_path = Some(String::from("/A.app/"));
    assert_eq!(ctx.login_target_matches_current_runtime(), Some(true));
    ctx.expected_login_app_path = Some(String::from("//A.app/./"));
    assert_eq!(ctx.login_target_matches_current_runtime(), Some(true));
    ctx.expected_login_app_path = Some(String::from("/B.app"));
    assert_eq!(ctx.login_target_matches_current_runtime(), Some(false));
    ctx.expected_login_app_path = Some(String::from("A.app"));
    assert_eq!(ctx.login_target_matches_current_runtime(), Some(false));

    let report = PermissionReport {
        launch_context: LaunchContext {
            current_executable_path: String::from("/A.app/Contents/MacOS/whisper_input"),
            current_app_bundle_path: Some(String::from("/A.app")),
            expected_login_app_path: Some(String::from("/A.app/")),
        },
        accessibility_granted: true,
        input_monitoring_granted: true,
        microphone_granted: true,
        issues: vec![],
    };
    assert!(!report.needs_attention());
    assert!(!build_permission_status_dialog_message(&report).contains("does not match"));
}

#[test]
fn path_components_follow_std_rules() {
    assert_eq!(path_components_of("/a//b/./c/"), vec!["/", "a", "b", "c"]);
    assert_eq!(path_components_of("./a/.."), vec![".", "a", ".."]);
    assert_eq!(path_components_of("a/."), vec!["a"]);
    assert_eq!(path_components_of(""), Vec::<String>::new());
    assert!(same_path("/x/y", "/x//y/"));
    assert!(!same_path("/x/y", "x/y"));
    assert!(!same_path("./x", "x"));
}

#[test]
fn bundle_path_edge_cases() {
    assert_eq!(app_bundle_path_for_executable("/usr/local/bin/whisper_input"), None);
    assert_eq!(app_bundle_path_for_executable("/A.app/B.app/Contents/x"), Some(String::from("/A.app/B.app")));
    assert_eq!(app_bundle_path_for_executable("/x/.app/y"), None);
    assert_eq!(app_bundle_path_for_executable("/x/Tool.app"), Some(String::from("/x/Tool.app")));
    // Ancestors keep their own text: the path itself first, then each parent.
    assert_eq!(app_bundle_path_for_executable("/x/Tool.app/"), Some(String::from("/x/Tool.app/")));
    assert_eq!(app_bundle_path_for_executable("/x/Tool.app/."), Some(String::from("/x/Tool.app/.")));
    assert_eq!(app_bundle_path_for_executable("/x/Tool.app//bin"), Some(String::from("/x/Tool.app")));
    assert_eq!(app_bundle_path_for_executable("/A.app/../b"), Some(String::from("/A.app")));
    assert_eq!(app_bundle_path_for_executable("x.app"), Some(String::from("x.app")));
    assert_eq!(app_bundle_path_for_executable(".app"), None);
    assert_eq!(app_bundle_path_for_executable(""), None);
}

#[test]
fn lock_results_and_dialog_outputs() {
    assert_eq!(try_lock_file_result(0, false), Ok(true));
    assert_eq!(try_lock_file_result(-1, true), Ok(false));
    assert_eq!(try_lock_file_result(-1, false), Err(LockError::LockFailed));
    assert_eq!(LockError::LockFailed.message(), "failed to acquire single-instance lock");
    assert_eq!(dialog_action_from_output(true, "Open Settings"), DialogAction::OpenSettings);
    assert_eq!(dialog_action_from_output(true, "Later"), DialogAction::Later);
    assert_eq!(dialog_action_from_output(false, "Open Settings"), DialogAction::Later);
}

#[test]
fn prompts_are_raised_only_for_missing_permissions() {
    let plan = prompts_needed(probes(false, false, true, MicrophoneAuthorizationStatus::NotDetermined));
    assert!(plan.accessibility && !plan.input_monitoring && plan.post_event && plan.microphone);
    let plan = prompts_needed(probes(true, true, true, MicrophoneAuthorizationStatus::Denied));
    assert!(!plan.accessibility && !plan.input_monitoring && !plan.post_event && !plan.microphone);
}

fn probes(
    accessibility: bool,
    post_event: bool,
    input_monitoring: bool,
    microphone: MicrophoneAuthorizationStatus,
) -> PermissionProbes {
    PermissionProbes { accessibility, post_event, input_monitoring, microphone }
}

#[test]
fn probes_become_issues_and_report() {
    let issues = collect_permission_issues(probes(true, false, true, MicrophoneAuthorizationStatus::Authorized));
    assert_eq!(issues, vec![PermissionIssue::Accessibility]);
    let issues = collect_permission_issues(probes(true, true, false, MicrophoneAuthorizationStatus::NotDetermined));
    assert_eq!(issues, vec![PermissionIssue::InputMonitoring, PermissionIssue::Microphone]);
    let issues = collect_permission_issues(probes(true, true, true, MicrophoneAuthorizationStatus::Authorized));
    assert!(issues.is_empty());

    let report = current_permission_report(
        sample_launch_context(),
        probes(true, true, false, MicrophoneAuthorizationStatus::Unknown(9)),
    );
    assert_eq!(report.launch_context, sample_launch_context());
    assert!(report.accessibility_granted);
    assert!(!report.input_monitoring_granted);
    assert!(!report.microphone_granted);
    assert_eq!(report.issues, vec![PermissionIssue::InputMonitoring, PermissionIssue::Microphone]);
    assert!(report.needs_attention());
}

#[test]
fn dialog_lines_follow_their_layout() {
    let ctx = sample_launch_context();
    let issues = [PermissionIssue::Microphone, PermissionIssue::Accessibility];
    let message = build_permission_dialog_message(&issues, &ctx);
    let bullets: Vec<&str> = message.lines().filter(|l| l.starts_with("- ")).collect();
    assert_eq!(bullets.len(), 2);
    assert!(bullets[0].starts_with("- Microphone:"));
    assert!(bullets[1].starts_with("- Accessibility:"));
    assert!(message.lines().any(|l| l == "Permission target: /Users/grad/Applications/WhisperInput.app"));
    assert!(!message.contains("does not match the installed login app"));

    let mut report = sample_permission_report();
    let status = build_permission_status_dialog_message(&report);
    let lines: Vec<&str> = status.lines().collect();
    assert_eq!(lines[0], "WhisperInput permission status for this running app.");
    let at = lines.iter().position(|l| l.starts_with("- Input Monitoring / Hotkey: ")).unwrap();
    assert_eq!(lines[at], "- Input Monitoring / Hotkey: Missing");
    assert_eq!(lines[at + 1], "- Accessibility / Paste: Granted");
    assert_eq!(lines[at + 2], "- Microphone / Recording: Granted");
    assert!(status.contains("Open Settings"));
    assert!(!status.contains("All required permissions are currently granted."));
    report.issues.clear();
    let status = build_permission_status_dialog_message(&report);
    assert!(!status.contains("Open Settings"));
    assert!(status.contains("All required permissions are currently granted."));
}
