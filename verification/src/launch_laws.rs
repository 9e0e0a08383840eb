//! Properties of the tmux command string and of launch plans.
use vstd::prelude::*;
use crate::launch_split_term::{
    candidate_count, command_line_text, error_message_text, error_tag, launch_failure,
    launch_plan_spec, next_launch_action_spec, LaunchAction, LaunchEvent, LaunchSplitTermError,
    LaunchTarget, TargetPlatform,
};

verus! {

/// The number of characters that the arguments add to a command string:
/// one space and the argument itself, for each argument.
pub open spec fn spaced_arguments_length(arguments: Seq<Seq<char>>) -> int {
    arguments.fold_left(0int, |total: int, argument: Seq<char>| total + 1 + argument.len())
}

/// Adding one argument to a command adds exactly one space and that
/// argument to the end of its command string.
pub proof fn lemma_command_text_appends_argument(
    executable: Seq<char>,
    arguments: Seq<Seq<char>>,
    argument: Seq<char>,
)
    ensures
        command_line_text(executable, arguments.push(argument)) == command_line_text(
            executable,
            arguments,
        ) + " "@ + argument,
{
    assert(arguments.push(argument).drop_last() =~= arguments);
}

/// With no arguments the command string is the executable alone.
pub proof fn lemma_command_text_without_arguments(executable: Seq<char>)
    ensures
        command_line_text(executable, Seq::empty()) == executable,
{
}

/// The command string is as long as the executable plus, for each
/// argument, one space and the argument.
pub proof fn lemma_command_text_length(executable: Seq<char>, arguments: Seq<Seq<char>>)
    ensures
        command_line_text(executable, arguments).len() == executable.len()
            + spaced_arguments_length(arguments),
        spaced_arguments_length(arguments) >= arguments.len(),
    decreases arguments.len(),
{
    reveal_strlit(" ");
    assert(" "@.len() == 1);
    if arguments.len() > 0 {
        lemma_command_text_length(executable, arguments.drop_last());
        assert(spaced_arguments_length(arguments) == spaced_arguments_length(arguments.drop_last())
            + 1 + arguments.last().len());
    } else {
        assert(spaced_arguments_length(arguments) == 0);
    }
}

/// The command string begins with the executable, and the first argument
/// can be seen as part of the executable followed by one space.
pub proof fn lemma_command_text_prepend_argument(
    executable: Seq<char>,
    argument: Seq<char>,
    arguments: Seq<Seq<char>>,
)
    ensures
        command_line_text(executable, seq![argument] + arguments) == command_line_text(
            executable + " "@ + argument,
            arguments,
        ),
        command_line_text(executable, arguments).subrange(0, executable.len() as int)
            == executable,
    decreases arguments.len(),
{
    lemma_command_text_length(executable, arguments);
    if arguments.len() > 0 {
        lemma_command_text_length(executable, arguments.drop_last());
    }
    if arguments.len() == 0 {
        assert((seq![argument] + arguments) =~= seq![argument]);
        assert(seq![argument].drop_last() =~= Seq::<Seq<char>>::empty());
        assert(command_line_text(executable, seq![argument]) == command_line_text(
            executable,
            Seq::<Seq<char>>::empty(),
        ) + " "@ + argument);
    } else {
        let shorter = arguments.drop_last();
        lemma_command_text_prepend_argument(executable, argument, shorter);
        assert((seq![argument] + arguments).drop_last() =~= seq![argument] + shorter);
        assert((seq![argument] + arguments).last() == arguments.last());
        assert(command_line_text(executable, seq![argument] + arguments) == command_line_text(
            executable,
            seq![argument] + shorter,
        ) + " "@ + arguments.last());
        let text = command_line_text(executable, arguments);
        let shorter_text = command_line_text(executable, shorter);
        assert(text == shorter_text + " "@ + arguments.last());
        assert(text.subrange(0, executable.len() as int) =~= shorter_text.subrange(
            0,
            executable.len() as int,
        ));
    }
}

/// On every platform where a terminal emulator runs the executable itself
/// (all but macOS), each planned request's argument list ends with the
/// executable followed by exactly the caller's arguments, in order, after at
/// most one leading flag.
pub proof fn lemma_new_terminal_requests_pass_all_arguments(
    platform: TargetPlatform,
    executable: Seq<char>,
    arguments: Seq<Seq<char>>,
)
    requires
        platform != TargetPlatform::MacOs,
    ensures
        forall|k: int|
            0 <= k < launch_plan_spec(LaunchTarget::NewTerminal(platform), executable, arguments).len()
                ==> {
                let request_arguments = #[trigger] launch_plan_spec(
                    LaunchTarget::NewTerminal(platform),
                    executable,
                    arguments,
                )[k].1;
                &&& arguments.len() + 1 <= request_arguments.len() <= arguments.len() + 2
                &&& request_arguments[request_arguments.len() - arguments.len() - 1] == executable
                &&& request_arguments.subrange(
                    request_arguments.len() - arguments.len(),
                    request_arguments.len() as int,
                ) == arguments
            },
{
    let plan = launch_plan_spec(LaunchTarget::NewTerminal(platform), executable, arguments);
    assert forall|k: int| 0 <= k < plan.len() implies {
        let request_arguments = #[trigger] plan[k].1;
        &&& arguments.len() + 1 <= request_arguments.len() <= arguments.len() + 2
        &&& request_arguments[request_arguments.len() - arguments.len() - 1] == executable
        &&& request_arguments.subrange(
            request_arguments.len() - arguments.len(),
            request_arguments.len() as int,
        ) == arguments
    } by {
        let request_arguments = plan[k].1;
        match platform {
            TargetPlatform::Redox => {
                assert(request_arguments == seq![executable] + arguments);
            },
            TargetPlatform::LinuxOrAndroid => {
                if k == 0 {
                    assert(request_arguments == seq!["--"@, executable] + arguments);
                } else {
                    assert(request_arguments == seq!["-e"@, executable] + arguments);
                }
            },
            _ => {
                assert(request_arguments == seq!["-e"@, executable] + arguments);
            },
        }
        assert(request_arguments.subrange(
            request_arguments.len() - arguments.len(),
            request_arguments.len() as int,
        ) =~= arguments);
    }
}

/// On Linux the fallback runs the very same command as the first choice:
/// both requests pass the same arguments after their one leading flag, and
/// the first choice is gnome-terminal, the fallback xterm.
pub proof fn lemma_linux_fallback_runs_the_same_command(
    executable: Seq<char>,
    arguments: Seq<Seq<char>>,
)
    ensures
        ({
            let plan = launch_plan_spec(
                LaunchTarget::NewTerminal(TargetPlatform::LinuxOrAndroid),
                executable,
                arguments,
            );
            &&& plan.len() == 2
            &&& plan[0].0 == "gnome-terminal"@
            &&& plan[1].0 == "xterm"@
            &&& plan[0].1.drop_first() == plan[1].1.drop_first()
            &&& plan[0].1.drop_first() == seq![executable] + arguments
        }),
{
    let plan = launch_plan_spec(
        LaunchTarget::NewTerminal(TargetPlatform::LinuxOrAndroid),
        executable,
        arguments,
    );
    assert(plan[0].1.drop_first() =~= seq![executable] + arguments);
    assert(plan[1].1.drop_first() =~= seq![executable] + arguments);
}

/// A tmux launch is one `tmux split-window` request whose last argument is
/// the whole command string, and whose direction flag follows the target.
pub proof fn lemma_tmux_plan_passes_whole_command(
    vertical: bool,
    executable: Seq<char>,
    arguments: Seq<Seq<char>>,
)
    ensures
        ({
            let target = if vertical {
                LaunchTarget::TmuxVerticalSplit
            } else {
                LaunchTarget::TmuxHorizontalSplit
            };
            let plan = launch_plan_spec(target, executable, arguments);
            &&& plan.len() == 1
            &&& plan[0].0 == "tmux"@
            &&& plan[0].1.len() == 3
            &&& plan[0].1[0] == "split-window"@
            &&& plan[0].1[1] == if vertical {
                "-v"@
            } else {
                "-h"@
            }
            &&& plan[0].1[2] == command_line_text(executable, arguments)
        }),
{
}


/// A launch reports success only right after a spawn succeeded, asks for
/// the plan entries in order, and when every entry failed it reports the
/// error of its kind with the tag of its operation: `LTV:` and `LTH:` for
/// the tmux splits, `LNT:` for a new terminal, which is unsupported exactly
/// when the platform has no terminal emulator to try.
pub proof fn lemma_launch_outcomes_are_tagged(
    target: LaunchTarget,
    failed_attempts: nat,
    event: LaunchEvent,
)
    ensures
        (next_launch_action_spec(target, failed_attempts, event) matches LaunchAction::Finish(
            Ok(_),
        )) <==> event == LaunchEvent::AttemptSpawned,
        event != LaunchEvent::AttemptSpawned && failed_attempts < candidate_count(target)
            ==> next_launch_action_spec(target, failed_attempts, event) == LaunchAction::Spawn(
            failed_attempts as usize,
        ),
        launch_failure(LaunchTarget::TmuxVerticalSplit) == LaunchSplitTermError::TmuxSpawnFailed(
            "LTV:",
        ),
        launch_failure(LaunchTarget::TmuxHorizontalSplit) == LaunchSplitTermError::TmuxSpawnFailed(
            "LTH:",
        ),
        launch_failure(LaunchTarget::NewTerminal(TargetPlatform::Unsupported))
            == LaunchSplitTermError::UnsupportedPlatform("LNT:"),
        target != LaunchTarget::NewTerminal(TargetPlatform::Unsupported) && (target matches LaunchTarget::NewTerminal(_))
            ==> launch_failure(target) == LaunchSplitTermError::TerminalSpawnFailed("LNT:"),
        candidate_count(LaunchTarget::NewTerminal(TargetPlatform::LinuxOrAndroid)) == 2,
        candidate_count(LaunchTarget::NewTerminal(TargetPlatform::Unsupported)) == 0,
        target != LaunchTarget::NewTerminal(TargetPlatform::LinuxOrAndroid) && target
            != LaunchTarget::NewTerminal(TargetPlatform::Unsupported) ==> candidate_count(target)
            == 1,
{
}

/// Every error message is its tag followed by a fixed text that names what
/// failed, and holds nothing else.
pub proof fn lemma_error_messages(tag: &'static str)
    ensures
        error_tag(LaunchSplitTermError::TmuxSpawnFailed(tag)) + error_message_text(
            LaunchSplitTermError::TmuxSpawnFailed(tag),
        ) == tag@ + " tmux split-window failed to spawn"@,
        error_tag(LaunchSplitTermError::TerminalSpawnFailed(tag)) + error_message_text(
            LaunchSplitTermError::TerminalSpawnFailed(tag),
        ) == tag@ + " no terminal emulator could be launched"@,
        error_tag(LaunchSplitTermError::UnsupportedPlatform(tag)) + error_message_text(
            LaunchSplitTermError::UnsupportedPlatform(tag),
        ) == tag@ + " new-terminal launch is not implemented for this target_os"@,
{
}

} // verus!
