use memo_chess_tui::command_line::{
    assign_launch_mode_or_conflict, build_child_argument_vector_for_relaunch,
    consume_required_value, demo_run_inputs, exit_code_for_launch_result, inline_run_inputs,
    launch_target_for_relaunch, parse_command_line_arguments, relaunch_kind_for_mode,
    relaunch_preflight, resolve_real_run_inputs, LaunchModeSelection, RelaunchKind,
    EXIT_CODE_LAUNCH_FAILURE, EXIT_CODE_SUCCESS,
};
use memo_chess_tui::launch_split_term::{LaunchSplitTermError, LaunchTarget, TargetPlatform};

fn make_fake_argv(tokens_after_program_name: &[&str]) -> Vec<String> {
    let mut argv_vector = vec!["memo_chess_tui".to_string()];
    for token in tokens_after_program_name {
        argv_vector.push((*token).to_string());
    }
    argv_vector
}

const MULTIPLE_MODES: &str = "Multiple launch-mode flags supplied; pass only one of -h/--help, -v/--version, -nt/--new-terminal, -tv/--tmux-split-vertical, -th/--tmux-split-horizontal.";

#[test]
fn no_flags_resolves_to_print_help() {
    let argv_vector = make_fake_argv(&[]);
    let parsed = parse_command_line_arguments(&argv_vector).expect("parse must succeed");
    assert_eq!(parsed.launch_mode_selection, LaunchModeSelection::PrintHelp);
    assert!(!parsed.is_demo_mode_requested);
}

#[test]
fn dash_h_resolves_to_print_help() {
    let argv_vector = make_fake_argv(&["-h"]);
    let parsed = parse_command_line_arguments(&argv_vector).expect("parse must succeed");
    assert_eq!(parsed.launch_mode_selection, LaunchModeSelection::PrintHelp);
}

#[test]
fn dash_v_resolves_to_print_version() {
    let argv_vector = make_fake_argv(&["--version"]);
    let parsed = parse_command_line_arguments(&argv_vector).expect("parse must succeed");
    assert_eq!(parsed.launch_mode_selection, LaunchModeSelection::PrintVersion);
}

#[test]
fn demo_test_alone_resolves_to_inline_with_demo_flag() {
    let argv_vector = make_fake_argv(&["--demo-test"]);
    let parsed = parse_command_line_arguments(&argv_vector).expect("parse must succeed");
    assert_eq!(parsed.launch_mode_selection, LaunchModeSelection::RunInlineInCurrentTerminal);
    assert!(parsed.is_demo_mode_requested);
}

#[test]
fn demo_test_with_tmux_vertical_composes() {
    let argv_vector = make_fake_argv(&["--demo-test", "-tv"]);
    let parsed = parse_command_line_arguments(&argv_vector).expect("parse must succeed");
    assert_eq!(parsed.launch_mode_selection, LaunchModeSelection::RelaunchInTmuxVerticalSplit);
    assert!(parsed.is_demo_mode_requested);
}

#[test]
fn four_inputs_without_launch_mode_resolves_to_inline() {
    let argv_vector = make_fake_argv(&[
        "--memo-file-dir-path",
        "./game",
        "--user-name",
        "bob",
        "--log-path",
        "./logs",
        "--chronosort-path",
        "./chrono",
    ]);
    let parsed = parse_command_line_arguments(&argv_vector).expect("parse must succeed");
    assert_eq!(parsed.launch_mode_selection, LaunchModeSelection::RunInlineInCurrentTerminal);
    assert_eq!(parsed.memo_files_directory_path.as_deref(), Some("./game"));
    assert_eq!(parsed.local_user_name.as_deref(), Some("bob"));
    assert_eq!(parsed.logging_directory_path.as_deref(), Some("./logs"));
    assert_eq!(parsed.chrono_sort_temp_directory_path.as_deref(), Some("./chrono"));
}

#[test]
fn two_launch_modes_is_an_error() {
    let argv_vector = make_fake_argv(&["-nt", "-tv"]);
    let parse_outcome = parse_command_line_arguments(&argv_vector);
    assert!(parse_outcome.is_err(), "two launch modes must be rejected");
}

#[test]
fn unknown_flag_is_an_error() {
    let argv_vector = make_fake_argv(&["--not-a-real-flag"]);
    let parse_outcome = parse_command_line_arguments(&argv_vector);
    assert!(parse_outcome.is_err(), "unknown flag must be rejected");
}

#[test]
fn value_taking_flag_without_value_is_an_error() {
    let argv_vector = make_fake_argv(&["--user-name"]);
    let parse_outcome = parse_command_line_arguments(&argv_vector);
    assert!(parse_outcome.is_err(), "value-taking flag without value must be rejected");
}

#[test]
fn missing_real_run_inputs_is_a_validation_error() {
    let argv_vector = make_fake_argv(&["--user-name", "bob"]);
    let parsed = parse_command_line_arguments(&argv_vector).expect("parse must succeed");
    let resolution_outcome = resolve_real_run_inputs(&parsed);
    assert!(resolution_outcome.is_err(), "partial inputs must fail validation");
}

#[test]
fn child_argv_strips_short_new_terminal_flag() {
    let argv_vector = make_fake_argv(&["-nt", "--demo-test"]);
    let child_argv =
        build_child_argument_vector_for_relaunch(&argv_vector, RelaunchKind::NewTerminalWindow);
    assert_eq!(child_argv, vec!["--demo-test".to_string()]);
}

#[test]
fn child_argv_strips_long_tmux_vertical_flag() {
    let argv_vector = make_fake_argv(&[
        "--tmux-split-vertical",
        "--user-name",
        "bob",
        "--memo-file-dir-path",
        "./g",
    ]);
    let child_argv =
        build_child_argument_vector_for_relaunch(&argv_vector, RelaunchKind::TmuxVerticalSplit);
    assert_eq!(
        child_argv,
        vec![
            "--user-name".to_string(),
            "bob".to_string(),
            "--memo-file-dir-path".to_string(),
            "./g".to_string(),
        ]
    );
}

#[test]
fn child_argv_does_not_strip_unrelated_launch_flags() {
    let argv_vector = make_fake_argv(&["-nt", "-tv"]);
    let child_argv =
        build_child_argument_vector_for_relaunch(&argv_vector, RelaunchKind::NewTerminalWindow);
    assert_eq!(child_argv, vec!["-tv".to_string()]);
}

#[test]
fn parse_errors_have_exact_messages() {
    let unknown = parse_command_line_arguments(&make_fake_argv(&["--demo-test", "--oops"]));
    assert_eq!(unknown.unwrap_err(), "Unknown argument: --oops");
    let missing = parse_command_line_arguments(&make_fake_argv(&["--log-path"]));
    assert_eq!(missing.unwrap_err(), "Flag '--log-path' requires a value but none was given.");
    let twice = parse_command_line_arguments(&make_fake_argv(&["-h", "--demo-test", "-v"]));
    assert_eq!(twice.unwrap_err(), MULTIPLE_MODES);
}

#[test]
fn same_launch_flag_twice_is_an_error() {
    let twice = parse_command_line_arguments(&make_fake_argv(&["-th", "--tmux-split-horizontal"]));
    assert_eq!(twice.unwrap_err(), MULTIPLE_MODES);
}

#[test]
fn empty_argv_prints_help() {
    let parsed = parse_command_line_arguments(&[]).expect("parse must succeed");
    assert_eq!(parsed.launch_mode_selection, LaunchModeSelection::PrintHelp);
    assert!(parsed.memo_files_directory_path.is_none());
}

#[test]
fn value_may_look_like_a_flag() {
    let parsed = parse_command_line_arguments(&make_fake_argv(&["--user-name", "-h"]))
        .expect("parse must succeed");
    assert_eq!(parsed.launch_mode_selection, LaunchModeSelection::RunInlineInCurrentTerminal);
    assert_eq!(parsed.local_user_name.as_deref(), Some("-h"));
}

#[test]
fn later_value_replaces_earlier_one() {
    let parsed =
        parse_command_line_arguments(&make_fake_argv(&["--log-path", "a", "--log-path", "b"]))
            .expect("parse must succeed");
    assert_eq!(parsed.logging_directory_path.as_deref(), Some("b"));
}

#[test]
fn relaunched_child_runs_inline_with_same_inputs() {
    let argv_vector = make_fake_argv(&[
        "--memo-file-dir-path",
        "./game",
        "-tv",
        "--user-name",
        "bob",
        "--log-path",
        "./logs",
        "--chronosort-path",
        "./chrono",
    ]);
    let parent = parse_command_line_arguments(&argv_vector).expect("parse must succeed");
    assert_eq!(parent.launch_mode_selection, LaunchModeSelection::RelaunchInTmuxVerticalSplit);
    assert!(relaunch_preflight(&parent).is_ok());
    let mut child_argv = vec!["/bin/child".to_string()];
    child_argv.extend(build_child_argument_vector_for_relaunch(
        &argv_vector,
        RelaunchKind::TmuxVerticalSplit,
    ));
    let child = parse_command_line_arguments(&child_argv).expect("parse must succeed");
    assert_eq!(child.launch_mode_selection, LaunchModeSelection::RunInlineInCurrentTerminal);
    assert_eq!(child.memo_files_directory_path, parent.memo_files_directory_path);
    assert_eq!(child.local_user_name, parent.local_user_name);
    assert_eq!(child.logging_directory_path, parent.logging_directory_path);
    assert_eq!(child.chrono_sort_temp_directory_path, parent.chrono_sort_temp_directory_path);
}

#[test]
fn relaunched_demo_child_runs_demo_inline() {
    let argv_vector = make_fake_argv(&["--new-terminal", "--demo-test"]);
    let mut child_argv = vec!["/bin/child".to_string()];
    child_argv.extend(build_child_argument_vector_for_relaunch(
        &argv_vector,
        RelaunchKind::NewTerminalWindow,
    ));
    let child = parse_command_line_arguments(&child_argv).expect("parse must succeed");
    assert_eq!(child.launch_mode_selection, LaunchModeSelection::RunInlineInCurrentTerminal);
    assert!(child.is_demo_mode_requested);
}

#[test]
fn demo_flag_appended_keeps_launch_mode() {
    let parsed = parse_command_line_arguments(&make_fake_argv(&["-nt", "--demo-test"]))
        .expect("parse must succeed");
    assert_eq!(parsed.launch_mode_selection, LaunchModeSelection::RelaunchInNewTerminalWindow);
    assert!(parsed.is_demo_mode_requested);
}

#[test]
fn resolve_names_first_missing_flag() {
    let parsed = parse_command_line_arguments(&make_fake_argv(&[])).unwrap();
    assert_eq!(
        resolve_real_run_inputs(&parsed).unwrap_err(),
        "Missing required flag: --memo-file-dir-path"
    );
    let parsed = parse_command_line_arguments(&make_fake_argv(&["--memo-file-dir-path", "m"])).unwrap();
    assert_eq!(resolve_real_run_inputs(&parsed).unwrap_err(), "Missing required flag: --user-name");
    let parsed = parse_command_line_arguments(&make_fake_argv(&[
        "--memo-file-dir-path",
        "m",
        "--user-name",
        "u",
    ]))
    .unwrap();
    assert_eq!(resolve_real_run_inputs(&parsed).unwrap_err(), "Missing required flag: --log-path");
    let parsed = parse_command_line_arguments(&make_fake_argv(&[
        "--memo-file-dir-path",
        "m",
        "--user-name",
        "u",
        "--log-path",
        "l",
    ]))
    .unwrap();
    assert_eq!(
        resolve_real_run_inputs(&parsed).unwrap_err(),
        "Missing required flag: --chronosort-path"
    );
}

#[test]
fn resolve_returns_all_four_inputs() {
    let parsed = parse_command_line_arguments(&make_fake_argv(&[
        "--chronosort-path",
        "c",
        "--log-path",
        "l",
        "--user-name",
        "u",
        "--memo-file-dir-path",
        "m",
    ]))
    .unwrap();
    let inputs = resolve_real_run_inputs(&parsed).expect("all inputs given");
    assert_eq!(inputs.memo_files_directory_path, "m");
    assert_eq!(inputs.local_user_name, "u");
    assert_eq!(inputs.logging_directory_path, "l");
    assert_eq!(inputs.chrono_sort_temp_directory_path, "c");
}

#[test]
fn demo_inline_run_uses_built_in_inputs() {
    let parsed = parse_command_line_arguments(&make_fake_argv(&["--demo-test"])).unwrap();
    let inputs = inline_run_inputs(&parsed).expect("demo inputs");
    assert_eq!(inputs.memo_files_directory_path, "./test_game_files_5_draw");
    assert_eq!(inputs.local_user_name, "bob");
    assert_eq!(inputs.logging_directory_path, "./test_logs");
    assert_eq!(inputs.chrono_sort_temp_directory_path, "./test_chrono_temp");
    let demo = demo_run_inputs();
    assert_eq!(demo.local_user_name, "bob");
}

#[test]
fn non_demo_inline_run_requires_inputs() {
    let parsed = parse_command_line_arguments(&make_fake_argv(&["--user-name", "bob"])).unwrap();
    assert_eq!(
        inline_run_inputs(&parsed).unwrap_err(),
        "Missing required flag: --memo-file-dir-path"
    );
}

#[test]
fn preflight_requires_demo_or_inputs() {
    let parsed = parse_command_line_arguments(&make_fake_argv(&["-nt"])).unwrap();
    assert_eq!(
        relaunch_preflight(&parsed).unwrap_err(),
        "Missing required flag: --memo-file-dir-path"
    );
    let parsed = parse_command_line_arguments(&make_fake_argv(&["-nt", "--demo-test"])).unwrap();
    assert!(relaunch_preflight(&parsed).is_ok());
}

#[test]
fn assign_launch_mode_records_first_only() {
    let mut slot = None;
    assert!(assign_launch_mode_or_conflict(&mut slot, LaunchModeSelection::PrintVersion).is_ok());
    assert_eq!(slot, Some(LaunchModeSelection::PrintVersion));
    let second = assign_launch_mode_or_conflict(&mut slot, LaunchModeSelection::PrintHelp);
    assert_eq!(second.unwrap_err(), MULTIPLE_MODES);
    assert_eq!(slot, Some(LaunchModeSelection::PrintVersion));
}

#[test]
fn consume_required_value_reads_the_next_token() {
    let argv_vector = make_fake_argv(&["--user-name", "bob"]);
    assert_eq!(consume_required_value(&argv_vector, 2, "--user-name").unwrap(), "bob");
    assert_eq!(
        consume_required_value(&argv_vector, 3, "--user-name").unwrap_err(),
        "Flag '--user-name' requires a value but none was given."
    );
}

#[test]
fn relaunch_kinds_and_targets() {
    assert_eq!(
        relaunch_kind_for_mode(LaunchModeSelection::RelaunchInTmuxHorizontalSplit),
        Some(RelaunchKind::TmuxHorizontalSplit)
    );
    assert_eq!(relaunch_kind_for_mode(LaunchModeSelection::RunInlineInCurrentTerminal), None);
    assert_eq!(
        launch_target_for_relaunch(RelaunchKind::NewTerminalWindow, TargetPlatform::Redox),
        LaunchTarget::NewTerminal(TargetPlatform::Redox)
    );
    assert_eq!(
        launch_target_for_relaunch(RelaunchKind::TmuxVerticalSplit, TargetPlatform::MacOs),
        LaunchTarget::TmuxVerticalSplit
    );
}

#[test]
fn exit_codes_for_launch_results() {
    assert_eq!(exit_code_for_launch_result(&Ok(())), EXIT_CODE_SUCCESS);
    assert_eq!(
        exit_code_for_launch_result(&Err(LaunchSplitTermError::TmuxSpawnFailed("LTV:"))),
        EXIT_CODE_LAUNCH_FAILURE
    );
    assert_eq!(EXIT_CODE_LAUNCH_FAILURE, 3);
}
