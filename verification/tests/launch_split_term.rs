use memo_chess_tui::launch_split_term::{
    build_tmux_inner_command_string, launch_plan, next_launch_action, LaunchAction, LaunchEvent,
    LaunchSplitTermError, LaunchTarget, SpawnRequest, TargetPlatform,
};
use memo_chess_tui::text::{owned_strings, text_equals};

fn request_parts(request: &SpawnRequest) -> (String, Vec<String>) {
    (request.program.clone(), request.arguments.clone())
}

fn strings(items: &[&str]) -> Vec<String> {
    items.iter().map(|item| item.to_string()).collect()
}

#[test]
fn build_tmux_inner_command_string_no_arguments() {
    let result = build_tmux_inner_command_string("/usr/bin/some_binary", &[]);
    assert_eq!(result, "/usr/bin/some_binary");
}

#[test]
fn build_tmux_inner_command_string_one_argument() {
    let result = build_tmux_inner_command_string("/usr/bin/some_binary", &["--flag-name"]);
    assert_eq!(result, "/usr/bin/some_binary --flag-name");
}

#[test]
fn build_tmux_inner_command_string_many_arguments() {
    let result = build_tmux_inner_command_string(
        "/opt/app/the_binary",
        &["--user-name", "bob", "--log-path", "/tmp/log"],
    );
    assert_eq!(result, "/opt/app/the_binary --user-name bob --log-path /tmp/log");
}

#[test]
fn display_tmux_spawn_failed_includes_tag() {
    let error = LaunchSplitTermError::TmuxSpawnFailed("LTV:");
    let rendered = error.message();
    assert!(rendered.starts_with("LTV:"));
    assert!(rendered.contains("tmux"));
}

#[test]
fn display_terminal_spawn_failed_includes_tag() {
    let error = LaunchSplitTermError::TerminalSpawnFailed("LNT:");
    let rendered = error.message();
    assert!(rendered.starts_with("LNT:"));
    assert!(rendered.contains("terminal"));
}

#[test]
fn display_unsupported_platform_includes_tag() {
    let error = LaunchSplitTermError::UnsupportedPlatform("LNT:");
    let rendered = error.message();
    assert!(rendered.starts_with("LNT:"));
    assert!(rendered.contains("target_os"));
}

#[test]
fn error_messages_are_exact() {
    assert_eq!(
        LaunchSplitTermError::TmuxSpawnFailed("LTH:").message(),
        "LTH: tmux split-window failed to spawn"
    );
    assert_eq!(
        LaunchSplitTermError::TerminalSpawnFailed("LNT:").message(),
        "LNT: no terminal emulator could be launched"
    );
    assert_eq!(
        LaunchSplitTermError::UnsupportedPlatform("LNT:").message(),
        "LNT: new-terminal launch is not implemented for this target_os"
    );
}

#[test]
fn command_string_keeps_argument_order_and_single_spaces() {
    let result = build_tmux_inner_command_string("exe", &["a", "", "c"]);
    assert_eq!(result, "exe a  c");
}

#[test]
fn tmux_vertical_plan_is_one_split_window_call() {
    let plan = launch_plan(LaunchTarget::TmuxVerticalSplit, "/bin/game", &["--demo-test"]);
    assert_eq!(plan.len(), 1);
    assert_eq!(
        request_parts(&plan[0]),
        ("tmux".to_string(), strings(&["split-window", "-v", "/bin/game --demo-test"]))
    );
}

#[test]
fn tmux_horizontal_plan_uses_dash_h() {
    let plan = launch_plan(LaunchTarget::TmuxHorizontalSplit, "/bin/game", &[]);
    assert_eq!(
        request_parts(&plan[0]),
        ("tmux".to_string(), strings(&["split-window", "-h", "/bin/game"]))
    );
}

#[test]
fn linux_plan_tries_gnome_terminal_then_xterm() {
    let plan = launch_plan(
        LaunchTarget::NewTerminal(TargetPlatform::LinuxOrAndroid),
        "/bin/game",
        &["--user-name", "bob"],
    );
    assert_eq!(plan.len(), 2);
    assert_eq!(
        request_parts(&plan[0]),
        ("gnome-terminal".to_string(), strings(&["--", "/bin/game", "--user-name", "bob"]))
    );
    assert_eq!(
        request_parts(&plan[1]),
        ("xterm".to_string(), strings(&["-e", "/bin/game", "--user-name", "bob"]))
    );
}

#[test]
fn macos_plan_drives_terminal_app() {
    let plan = launch_plan(LaunchTarget::NewTerminal(TargetPlatform::MacOs), "/bin/game", &["-x"]);
    assert_eq!(
        request_parts(&plan[0]),
        (
            "osascript".to_string(),
            strings(&["-e", "tell application \"Terminal\" to do script \"/bin/game -x\""])
        )
    );
}

#[test]
fn bsd_and_redox_plans() {
    let bsd = launch_plan(LaunchTarget::NewTerminal(TargetPlatform::BsdFamily), "g", &["a"]);
    assert_eq!(request_parts(&bsd[0]), ("xterm".to_string(), strings(&["-e", "g", "a"])));
    let redox = launch_plan(LaunchTarget::NewTerminal(TargetPlatform::Redox), "g", &["a"]);
    assert_eq!(request_parts(&redox[0]), ("terminal".to_string(), strings(&["g", "a"])));
}

#[test]
fn unsupported_platform_has_no_candidates() {
    let plan = launch_plan(LaunchTarget::NewTerminal(TargetPlatform::Unsupported), "g", &[]);
    assert!(plan.is_empty());
    let action = next_launch_action(
        LaunchTarget::NewTerminal(TargetPlatform::Unsupported),
        0,
        LaunchEvent::Started,
    );
    assert!(matches!(
        action,
        LaunchAction::Finish(Err(LaunchSplitTermError::UnsupportedPlatform("LNT:")))
    ));
}

#[test]
fn linux_launch_falls_back_then_gives_up() {
    let target = LaunchTarget::NewTerminal(TargetPlatform::LinuxOrAndroid);
    assert!(matches!(next_launch_action(target, 0, LaunchEvent::Started), LaunchAction::Spawn(0)));
    assert!(matches!(
        next_launch_action(target, 1, LaunchEvent::AttemptFailed),
        LaunchAction::Spawn(1)
    ));
    assert!(matches!(
        next_launch_action(target, 2, LaunchEvent::AttemptFailed),
        LaunchAction::Finish(Err(LaunchSplitTermError::TerminalSpawnFailed("LNT:")))
    ));
}

#[test]
fn spawned_attempt_finishes_successfully() {
    let target = LaunchTarget::NewTerminal(TargetPlatform::LinuxOrAndroid);
    assert!(matches!(
        next_launch_action(target, 1, LaunchEvent::AttemptSpawned),
        LaunchAction::Finish(Ok(()))
    ));
}

#[test]
fn tmux_failures_carry_their_tags() {
    assert!(matches!(
        next_launch_action(LaunchTarget::TmuxVerticalSplit, 1, LaunchEvent::AttemptFailed),
        LaunchAction::Finish(Err(LaunchSplitTermError::TmuxSpawnFailed("LTV:")))
    ));
    assert!(matches!(
        next_launch_action(LaunchTarget::TmuxHorizontalSplit, 1, LaunchEvent::AttemptFailed),
        LaunchAction::Finish(Err(LaunchSplitTermError::TmuxSpawnFailed("LTH:")))
    ));
}

/// Drives a launch as a caller does, with the given spawn outcomes.
fn drive(target: LaunchTarget, spawns: &[bool]) -> (Vec<usize>, Result<(), LaunchSplitTermError>) {
    let mut tried = Vec::new();
    let mut failed = 0;
    let mut event = LaunchEvent::Started;
    loop {
        match next_launch_action(target, failed, event) {
            LaunchAction::Spawn(index) => {
                tried.push(index);
                if spawns[index] {
                    event = LaunchEvent::AttemptSpawned;
                } else {
                    failed += 1;
                    event = LaunchEvent::AttemptFailed;
                }
            }
            LaunchAction::Finish(result) => return (tried, result),
        }
    }
}

#[test]
fn launch_succeeds_iff_a_candidate_spawns() {
    let target = LaunchTarget::NewTerminal(TargetPlatform::LinuxOrAndroid);
    let (tried, result) = drive(target, &[false, true]);
    assert_eq!(tried, vec![0, 1]);
    assert!(result.is_ok());
    let (tried, result) = drive(target, &[true, false]);
    assert_eq!(tried, vec![0]);
    assert!(result.is_ok());
    let (tried, result) = drive(target, &[false, false]);
    assert_eq!(tried, vec![0, 1]);
    assert!(matches!(result, Err(LaunchSplitTermError::TerminalSpawnFailed("LNT:"))));
}

#[test]
fn text_equals_compares_characters() {
    assert!(text_equals("-tv", "-tv"));
    assert!(!text_equals("-tv", "-th"));
    assert!(!text_equals("-t", "-tv"));
    assert!(text_equals("", ""));
    assert!(text_equals("ünï", "ünï"));
}

#[test]
fn owned_strings_copies_in_order() {
    assert_eq!(owned_strings(&["a", "b", "c"]), strings(&["a", "b", "c"]));
    assert!(owned_strings(&[]).is_empty());
}
