//! Planning how a child process is opened in a new terminal window or in a
//! new tmux pane.
//!
//! The tmux launchers hand tmux one space-separated command string,
//! `"<executable> <arg1> <arg2> ..."`, with no shell quoting and no
//! escaping. A new-terminal launch tries the terminal emulators known for
//! the target platform one after another, in a fixed order, and stops at the
//! first that spawns.
//!
//! The library does not spawn anything itself: `launch_plan` lists the
//! processes to try and `next_launch_action` says, after each attempt, what
//! to do next. Error values never carry caller data: only a short static tag
//! naming the operation that failed.
use vstd::prelude::*;
use vstd::string::*;
use crate::text::{append_owned_strings, str_views, string_views};

verus! {

/// Errors that a launch can end with.
///
/// Each variant carries only a static tag naming the operation that failed:
/// `"LNT:"` for a new-terminal launch, `"LTV:"` for a tmux vertical split and
/// `"LTH:"` for a tmux horizontal split.
#[derive(Debug, Clone, Copy)]
pub enum LaunchSplitTermError {
    /// `tmux split-window` could not be spawned.
    TmuxSpawnFailed(&'static str),
    /// Every terminal emulator tried for the target platform failed to spawn.
    TerminalSpawnFailed(&'static str),
    /// No terminal emulator is known for the target platform.
    UnsupportedPlatform(&'static str),
}

/// The fixed text that follows the tag in the message of each error.
pub open spec fn error_message_text(error: LaunchSplitTermError) -> Seq<char> {
    match error {
        LaunchSplitTermError::TmuxSpawnFailed(_) => " tmux split-window failed to spawn"@,
        LaunchSplitTermError::TerminalSpawnFailed(_) => " no terminal emulator could be launched"@,
        LaunchSplitTermError::UnsupportedPlatform(
            _,
        ) => " new-terminal launch is not implemented for this target_os"@,
    }
}

/// The tag that an error carries.
pub open spec fn error_tag(error: LaunchSplitTermError) -> Seq<char> {
    match error {
        LaunchSplitTermError::TmuxSpawnFailed(tag) => tag@,
        LaunchSplitTermError::TerminalSpawnFailed(tag) => tag@,
        LaunchSplitTermError::UnsupportedPlatform(tag) => tag@,
    }
}

impl LaunchSplitTermError {
    /// The short, caller-data-free message for this error: its tag followed by
    /// a fixed text for its kind.
    pub fn message(&self) -> (text: String)
        ensures
            text@ == error_tag(*self) + error_message_text(*self),
    {
        match self {
            LaunchSplitTermError::TmuxSpawnFailed(tag) => {
                String::from_str(tag).concat(" tmux split-window failed to spawn")
            },
            LaunchSplitTermError::TerminalSpawnFailed(tag) => {
                String::from_str(tag).concat(" no terminal emulator could be launched")
            },
            LaunchSplitTermError::UnsupportedPlatform(tag) => {
                String::from_str(tag).concat(
                    " new-terminal launch is not implemented for this target_os",
                )
            },
        }
    }
}

/// `"<executable> <arg1> <arg2> ..."`: the executable followed by each
/// argument, each preceded by one space. With no arguments, just the
/// executable, with no trailing space.
pub open spec fn command_line_text(executable: Seq<char>, arguments: Seq<Seq<char>>) -> Seq<char>
    decreases arguments.len(),
{
    if arguments.len() == 0 {
        executable
    } else {
        command_line_text(executable, arguments.drop_last()) + " "@ + arguments.last()
    }
}

/// Joins an executable path and its arguments into the single command
/// string that tmux runs in a new pane. No quoting or escaping is done.
pub fn build_tmux_inner_command_string(executable_path_str: &str, arguments: &[&str]) -> (command: String)
    ensures
        command@ == command_line_text(executable_path_str@, str_views(arguments@)),
{
    let mut command = String::from_str(executable_path_str);
    let mut i: usize = 0;
    while i < arguments.len()
        invariant
            i <= arguments@.len(),
            command@ == command_line_text(
                executable_path_str@,
                str_views(arguments@.take(i as int)),
            ),
        decreases arguments@.len() - i,
    {
        command.append(" ");
        command.append(arguments[i]);
        assert(str_views(arguments@.take(i as int + 1)).drop_last() =~= str_views(
            arguments@.take(i as int),
        ));
        i = i + 1;
    }
    assert(arguments@.take(arguments@.len() as int) =~= arguments@);
    command
}

/// The platform families that have different terminal emulators.
#[derive(Debug, Clone, Copy, PartialEq, Eq, Structural)]
pub enum TargetPlatform {
    /// Linux and Android: `gnome-terminal`, then `xterm`.
    LinuxOrAndroid,
    /// macOS: Terminal.app, driven through `osascript`.
    MacOs,
    /// FreeBSD, OpenBSD, NetBSD and DragonFly: `xterm`.
    BsdFamily,
    /// Redox: `terminal`.
    Redox,
    /// Any other platform: no terminal emulator is known.
    Unsupported,
}

/// Where a child process is to be opened.
#[derive(Debug, Clone, Copy, PartialEq, Eq, Structural)]
pub enum LaunchTarget {
    /// A new terminal-emulator window on the given platform.
    NewTerminal(TargetPlatform),
    /// A new tmux pane from `tmux split-window -v`.
    TmuxVerticalSplit,
    /// A new tmux pane from `tmux split-window -h`.
    TmuxHorizontalSplit,
}

/// One process to spawn: a program and its arguments.
#[derive(Debug)]
pub struct SpawnRequest {
    pub program: String,
    pub arguments: Vec<String>,
}

impl View for SpawnRequest {
    type V = (Seq<char>, Seq<Seq<char>>);

    open spec fn view(&self) -> (Seq<char>, Seq<Seq<char>>) {
        (self.program@, string_views(self.arguments@))
    }
}

/// The AppleScript that makes Terminal.app run a command line.
pub open spec fn apple_script_text(command: Seq<char>) -> Seq<char> {
    "tell application \"Terminal\" to do script \""@ + command + "\""@
}

/// The processes to try for a launch, in the order in which they are tried.
pub open spec fn launch_plan_spec(
    target: LaunchTarget,
    executable: Seq<char>,
    arguments: Seq<Seq<char>>,
) -> Seq<(Seq<char>, Seq<Seq<char>>)> {
    match target {
        LaunchTarget::TmuxVerticalSplit => seq![
            ("tmux"@, seq!["split-window"@, "-v"@, command_line_text(executable, arguments)]),
        ],
        LaunchTarget::TmuxHorizontalSplit => seq![
            ("tmux"@, seq!["split-window"@, "-h"@, command_line_text(executable, arguments)]),
        ],
        LaunchTarget::NewTerminal(platform) => match platform {
            TargetPlatform::LinuxOrAndroid => seq![
                ("gnome-terminal"@, seq!["--"@, executable] + arguments),
                ("xterm"@, seq!["-e"@, executable] + arguments),
            ],
            TargetPlatform::MacOs => seq![
                ("osascript"@, seq!["-e"@, apple_script_text(command_line_text(executable, arguments))]),
            ],
            TargetPlatform::BsdFamily => seq![("xterm"@, seq!["-e"@, executable] + arguments)],
            TargetPlatform::Redox => seq![("terminal"@, seq![executable] + arguments)],
            TargetPlatform::Unsupported => seq![],
        },
    }
}

/// How many processes a launch tries at most.
pub open spec fn candidate_count(target: LaunchTarget) -> nat {
    match target {
        LaunchTarget::NewTerminal(TargetPlatform::LinuxOrAndroid) => 2,
        LaunchTarget::NewTerminal(TargetPlatform::Unsupported) => 0,
        _ => 1,
    }
}

/// The error that a launch ends with when no process could be spawned.
pub open spec fn launch_failure(target: LaunchTarget) -> LaunchSplitTermError {
    match target {
        LaunchTarget::TmuxVerticalSplit => LaunchSplitTermError::TmuxSpawnFailed("LTV:"),
        LaunchTarget::TmuxHorizontalSplit => LaunchSplitTermError::TmuxSpawnFailed("LTH:"),
        LaunchTarget::NewTerminal(TargetPlatform::Unsupported) => {
            LaunchSplitTermError::UnsupportedPlatform("LNT:")
        },
        LaunchTarget::NewTerminal(_) => LaunchSplitTermError::TerminalSpawnFailed("LNT:"),
    }
}

/// A spawn request `program args...` for the executable and its arguments,
/// with `leading` (if any) put before the executable.
fn spawn_request_for(program: &str, leading: Option<&str>, executable: &str, arguments: &[&str]) -> (request: SpawnRequest)
    ensures
        request@ == (
            program@,
            match leading {
                Some(flag) => seq![flag@, executable@] + str_views(arguments@),
                None => seq![executable@] + str_views(arguments@),
            },
        ),
{
    let mut process_arguments: Vec<String> = Vec::new();
    match leading {
        Some(flag) => process_arguments.push(String::from_str(flag)),
        None => {},
    }
    process_arguments.push(String::from_str(executable));
    let ghost head = string_views(process_arguments@);
    append_owned_strings(&mut process_arguments, arguments);
    proof {
        match leading {
            Some(flag) => assert(head =~= seq![flag@, executable@]),
            None => assert(head =~= seq![executable@]),
        }
    }
    SpawnRequest { program: String::from_str(program), arguments: process_arguments }
}

/// The request `tmux split-window <direction_flag> "<command>"`.
fn tmux_split_request(direction_flag: &str, executable: &str, arguments: &[&str]) -> (request: SpawnRequest)
    ensures
        request@ == (
            "tmux"@,
            seq![
                "split-window"@,
                direction_flag@,
                command_line_text(executable@, str_views(arguments@)),
            ],
        ),
{
    let command = build_tmux_inner_command_string(executable, arguments);
    let mut process_arguments: Vec<String> = Vec::new();
    process_arguments.push(String::from_str("split-window"));
    process_arguments.push(String::from_str(direction_flag));
    process_arguments.push(command);
    let request = SpawnRequest { program: String::from_str("tmux"), arguments: process_arguments };
    assert(request@.1 =~= seq![
        "split-window"@,
        direction_flag@,
        command_line_text(executable@, str_views(arguments@)),
    ]);
    request
}

/// The views of a list of spawn requests.
pub open spec fn request_views(requests: Seq<SpawnRequest>) -> Seq<(Seq<char>, Seq<Seq<char>>)> {
    requests.map_values(|r: SpawnRequest| r@)
}

/// Lists the processes to try for a launch, in the order in which they are
/// to be tried.
pub fn launch_plan(target: LaunchTarget, executable_path_str: &str, arguments: &[&str]) -> (plan: Vec<SpawnRequest>)
    ensures
        request_views(plan@) == launch_plan_spec(
            target,
            executable_path_str@,
            str_views(arguments@),
        ),
        plan@.len() == candidate_count(target),
{
    let mut plan: Vec<SpawnRequest> = Vec::new();
    match target {
        LaunchTarget::TmuxVerticalSplit => {
            plan.push(tmux_split_request("-v", executable_path_str, arguments));
        },
        LaunchTarget::TmuxHorizontalSplit => {
            plan.push(tmux_split_request("-h", executable_path_str, arguments));
        },
        LaunchTarget::NewTerminal(platform) => match platform {
            TargetPlatform::LinuxOrAndroid => {
                plan.push(
                    spawn_request_for("gnome-terminal", Some("--"), executable_path_str, arguments),
                );
                plan.push(spawn_request_for("xterm", Some("-e"), executable_path_str, arguments));
            },
            TargetPlatform::MacOs => {
                let command = build_tmux_inner_command_string(executable_path_str, arguments);
                let script = String::from_str("tell application \"Terminal\" to do script \"").concat(
                    command.as_str(),
                ).concat("\"");
                let mut process_arguments: Vec<String> = Vec::new();
                process_arguments.push(String::from_str("-e"));
                process_arguments.push(script);
                let request = SpawnRequest {
                    program: String::from_str("osascript"),
                    arguments: process_arguments,
                };
                assert(request@.1 =~= seq!["-e"@, apple_script_text(command@)]);
                plan.push(request);
            },
            TargetPlatform::BsdFamily => {
                plan.push(spawn_request_for("xterm", Some("-e"), executable_path_str, arguments));
            },
            TargetPlatform::Redox => {
                plan.push(spawn_request_for("terminal", None, executable_path_str, arguments));
            },
            TargetPlatform::Unsupported => {},
        },
    }
    assert(request_views(plan@) =~= launch_plan_spec(
        target,
        executable_path_str@,
        str_views(arguments@),
    ));
    plan
}


/// What happened since the previous call of `next_launch_action`.
#[derive(Debug, Clone, Copy, PartialEq, Eq, Structural)]
pub enum LaunchEvent {
    /// Nothing has been tried yet.
    Started,
    /// The process requested last was spawned.
    AttemptSpawned,
    /// The process requested last failed to spawn.
    AttemptFailed,
}

/// What the caller is to do next during a launch.
#[derive(Debug, Clone, Copy)]
pub enum LaunchAction {
    /// Spawn the plan entry at this index.
    Spawn(usize),
    /// The launch is over, with this result.
    Finish(Result<(), LaunchSplitTermError>),
}

/// The next step of a launch, after `failed_attempts` plan entries have
/// failed to spawn and `event` happened.
pub open spec fn next_launch_action_spec(
    target: LaunchTarget,
    failed_attempts: nat,
    event: LaunchEvent,
) -> LaunchAction {
    if event == LaunchEvent::AttemptSpawned {
        LaunchAction::Finish(Ok(()))
    } else if failed_attempts < candidate_count(target) {
        LaunchAction::Spawn(failed_attempts as usize)
    } else {
        LaunchAction::Finish(Err(launch_failure(target)))
    }
}

/// Decides the next step of a launch. A launch starts with `Started` and no
/// failed attempts; the plan entries are then tried in order until one
/// spawns (the launch succeeds) or none is left (the launch fails with the
/// target's error).
pub fn next_launch_action(target: LaunchTarget, failed_attempts: usize, event: LaunchEvent) -> (action: LaunchAction)
    ensures
        action == next_launch_action_spec(target, failed_attempts as nat, event),
        action matches LaunchAction::Spawn(index) ==> index < candidate_count(target),
{
    let count: usize = match target {
        LaunchTarget::NewTerminal(TargetPlatform::LinuxOrAndroid) => 2,
        LaunchTarget::NewTerminal(TargetPlatform::Unsupported) => 0,
        _ => 1,
    };
    match event {
        LaunchEvent::AttemptSpawned => LaunchAction::Finish(Ok(())),
        _ => {
            if failed_attempts < count {
                LaunchAction::Spawn(failed_attempts)
            } else {
                let failure = match target {
                    LaunchTarget::TmuxVerticalSplit => LaunchSplitTermError::TmuxSpawnFailed("LTV:"),
                    LaunchTarget::TmuxHorizontalSplit => LaunchSplitTermError::TmuxSpawnFailed(
                        "LTH:",
                    ),
                    LaunchTarget::NewTerminal(TargetPlatform::Unsupported) => {
                        LaunchSplitTermError::UnsupportedPlatform("LNT:")
                    },
                    LaunchTarget::NewTerminal(_) => LaunchSplitTermError::TerminalSpawnFailed(
                        "LNT:",
                    ),
                };
                LaunchAction::Finish(Err(failure))
            }
        },
    }
}

/// The result of driving a launch with `next_launch_action`, when plan entry
/// `i` spawns exactly if `spawns[i]` holds; `None` if more than `steps`
/// spawn attempts would be needed.
pub open spec fn drive_launch(
    target: LaunchTarget,
    spawns: Seq<bool>,
    failed_attempts: nat,
    event: LaunchEvent,
    steps: nat,
) -> Option<Result<(), LaunchSplitTermError>>
    decreases steps,
{
    match next_launch_action_spec(target, failed_attempts, event) {
        LaunchAction::Finish(result) => Some(result),
        LaunchAction::Spawn(index) => if steps == 0 {
            None
        } else if index < spawns.len() && spawns[index as int] {
            drive_launch(target, spawns, failed_attempts, LaunchEvent::AttemptSpawned, (steps - 1) as nat)
        } else {
            drive_launch(
                target,
                spawns,
                failed_attempts + 1,
                LaunchEvent::AttemptFailed,
                (steps - 1) as nat,
            )
        },
    }
}

/// A launch driven from its start ends after at most as many attempts as the
/// plan has entries, and it succeeds exactly when one of the plan entries
/// spawns; otherwise it ends with the target's error.
pub proof fn lemma_launch_succeeds_iff_a_candidate_spawns(target: LaunchTarget, spawns: Seq<bool>)
    requires
        spawns.len() == candidate_count(target),
    ensures
        drive_launch(target, spawns, 0, LaunchEvent::Started, candidate_count(target)) == Some(
            if exists|i: int| 0 <= i < spawns.len() && spawns[i] {
                Ok::<(), LaunchSplitTermError>(())
            } else {
                Err(launch_failure(target))
            },
        ),
{
    reveal_with_fuel(drive_launch, 4);
    if spawns.len() == 2 {
        if !spawns[0] && !spawns[1] {
            assert(!(exists|i: int| 0 <= i < spawns.len() && spawns[i]));
        }
    } else if spawns.len() == 1 {
        if !spawns[0] {
            assert(!(exists|i: int| 0 <= i < spawns.len() && spawns[i]));
        }
    }
}

} // verus!
