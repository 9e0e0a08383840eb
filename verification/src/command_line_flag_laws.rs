//! What each flag spelling means on a command line, stated over the literal
//! spellings and over arbitrary surrounding tokens.
use vstd::prelude::*;
use crate::command_line::{
    initial_progress, input_flag, launch_flag_mode, parse_tokens, spec_parse_command_line,
    spec_resolve_real_run_inputs, with_demo, with_input, with_mode, without_relaunch_flag,
    InputFlag, LaunchModeSelection, ParseProgress, ParsedView, RelaunchKind, RunInputsView,
};

verus! {

/// The command line `program before.. flag after..`.
pub open spec fn command_with(
    program: Seq<char>,
    before: Seq<Seq<char>>,
    flag: Seq<char>,
    after: Seq<Seq<char>>,
) -> Seq<Seq<char>> {
    seq![program] + before + seq![flag] + after
}

/// Whether a token is spelled like one of the fifteen known flags.
pub open spec fn is_known_flag_spelling(token: Seq<char>) -> bool {
    token == "-h"@ || token == "--help"@ || token == "-v"@ || token == "--version"@ || token
        == "-nt"@ || token == "--new-terminal"@ || token == "-tv"@ || token
        == "--tmux-split-vertical"@ || token == "-th"@ || token == "--tmux-split-horizontal"@
        || token == "--demo-test"@ || token == "--memo-file-dir-path"@ || token
        == "--user-name"@ || token == "--log-path"@ || token == "--chronosort-path"@
}

/// Whether a token is spelled like one of the ten launch-mode flags.
pub open spec fn is_launch_flag_spelling(token: Seq<char>) -> bool {
    token == "-h"@ || token == "--help"@ || token == "-v"@ || token == "--version"@ || token
        == "-nt"@ || token == "--new-terminal"@ || token == "-tv"@ || token
        == "--tmux-split-vertical"@ || token == "-th"@ || token == "--tmux-split-horizontal"@
}

/// Each flag spelling is read as what it names: the short and the long
/// form of each launch-mode flag select the same mode, `--demo-test` and
/// the four value-taking flags are no launch-mode flags, and each
/// value-taking flag fills its own input.
pub proof fn lemma_flag_spellings_are_read_as_named()
    ensures
        launch_flag_mode("-h"@) == Some(LaunchModeSelection::PrintHelp),
        launch_flag_mode("--help"@) == Some(LaunchModeSelection::PrintHelp),
        launch_flag_mode("-v"@) == Some(LaunchModeSelection::PrintVersion),
        launch_flag_mode("--version"@) == Some(LaunchModeSelection::PrintVersion),
        launch_flag_mode("-nt"@) == Some(LaunchModeSelection::RelaunchInNewTerminalWindow),
        launch_flag_mode("--new-terminal"@) == Some(
            LaunchModeSelection::RelaunchInNewTerminalWindow,
        ),
        launch_flag_mode("-tv"@) == Some(LaunchModeSelection::RelaunchInTmuxVerticalSplit),
        launch_flag_mode("--tmux-split-vertical"@) == Some(
            LaunchModeSelection::RelaunchInTmuxVerticalSplit,
        ),
        launch_flag_mode("-th"@) == Some(LaunchModeSelection::RelaunchInTmuxHorizontalSplit),
        launch_flag_mode("--tmux-split-horizontal"@) == Some(
            LaunchModeSelection::RelaunchInTmuxHorizontalSplit,
        ),
        launch_flag_mode("--demo-test"@) is None,
        input_flag("--demo-test"@) is None,
        launch_flag_mode("--memo-file-dir-path"@) is None,
        launch_flag_mode("--user-name"@) is None,
        launch_flag_mode("--log-path"@) is None,
        launch_flag_mode("--chronosort-path"@) is None,
        "--memo-file-dir-path"@ != "--demo-test"@,
        "--user-name"@ != "--demo-test"@,
        "--log-path"@ != "--demo-test"@,
        "--chronosort-path"@ != "--demo-test"@,
        input_flag("--memo-file-dir-path"@) == Some(InputFlag::MemoFileDirPath),
        input_flag("--user-name"@) == Some(InputFlag::UserName),
        input_flag("--log-path"@) == Some(InputFlag::LogPath),
        input_flag("--chronosort-path"@) == Some(InputFlag::ChronosortPath),
{
    reveal_strlit("--demo-test");
    assert("--demo-test"@.len() == 11);
    reveal_strlit("-h");
    assert("-h"@.len() == 2);
    reveal_strlit("--help");
    assert("--help"@.len() == 6);
    reveal_strlit("-v");
    assert("-v"@.len() == 2);
    reveal_strlit("--version");
    assert("--version"@.len() == 9);
    reveal_strlit("-nt");
    assert("-nt"@.len() == 3);
    reveal_strlit("--new-terminal");
    assert("--new-terminal"@.len() == 14);
    reveal_strlit("-tv");
    assert("-tv"@.len() == 3);
    reveal_strlit("--tmux-split-vertical");
    assert("--tmux-split-vertical"@.len() == 21);
    reveal_strlit("-th");
    assert("-th"@.len() == 3);
    reveal_strlit("--tmux-split-horizontal");
    assert("--tmux-split-horizontal"@.len() == 23);
    reveal_strlit("--memo-file-dir-path");
    assert("--memo-file-dir-path"@.len() == 20);
    reveal_strlit("--user-name");
    assert("--user-name"@.len() == 11);
    reveal_strlit("--log-path");
    assert("--log-path"@.len() == 10);
    reveal_strlit("--chronosort-path");
    assert("--chronosort-path"@.len() == 17);
    assert("-v"@ != "-h"@) by {
        assert("-v"@[1] != "-h"@[1]);
    }
    assert("-tv"@ != "-nt"@) by {
        assert("-tv"@[1] != "-nt"@[1]);
    }
    assert("-th"@ != "-nt"@) by {
        assert("-th"@[1] != "-nt"@[1]);
    }
    assert("-th"@ != "-tv"@) by {
        assert("-th"@[2] != "-tv"@[2]);
    }
    assert("--user-name"@ != "--demo-test"@) by {
        assert("--user-name"@[2] != "--demo-test"@[2]);
    }
}

/// Reading two token lists one after the other, when the first reads
/// without error, is reading the second from where the first left off.
pub proof fn lemma_parse_tokens_concat(
    first: Seq<Seq<char>>,
    second: Seq<Seq<char>>,
    progress: ParseProgress,
)
    requires
        parse_tokens(first, progress) is Ok,
    ensures
        parse_tokens(first + second, progress) == parse_tokens(
            second,
            parse_tokens(first, progress)->Ok_0,
        ),
    decreases first.len(),
{
    let joined = first + second;
    if first.len() == 0 {
        assert(joined =~= second);
    } else {
        let token = first[0];
        assert(joined[0] == token);
        assert(joined.drop_first() =~= first.drop_first() + second);
        if let Some(mode) = launch_flag_mode(token) {
            lemma_parse_tokens_concat(first.drop_first(), second, with_mode(progress, mode));
        } else if token == "--demo-test"@ {
            lemma_parse_tokens_concat(first.drop_first(), second, with_demo(progress));
        } else {
            let flag = input_flag(token)->Some_0;
            assert(joined[1] == first[1]);
            assert(joined.subrange(2, joined.len() as int) =~= first.subrange(
                2,
                first.len() as int,
            ) + second);
            lemma_parse_tokens_concat(
                first.subrange(2, first.len() as int),
                second,
                with_input(progress, flag, first[1]),
            );
        }
    }
}

/// A recorded launch mode, a requested demo and every recorded input that
/// no later flag replaces are kept by a successful read.
proof fn lemma_recorded_facts_are_kept(tokens: Seq<Seq<char>>, progress: ParseProgress)
    requires
        parse_tokens(tokens, progress) is Ok,
    ensures
        progress.selected_mode is Some ==> parse_tokens(tokens, progress)->Ok_0.selected_mode
            == progress.selected_mode,
        progress.demo ==> parse_tokens(tokens, progress)->Ok_0.demo,
    decreases tokens.len(),
{
    if tokens.len() > 0 {
        let token = tokens[0];
        if let Some(mode) = launch_flag_mode(token) {
            lemma_recorded_facts_are_kept(tokens.drop_first(), with_mode(progress, mode));
        } else if token == "--demo-test"@ {
            lemma_recorded_facts_are_kept(tokens.drop_first(), with_demo(progress));
        } else {
            let flag = input_flag(token)->Some_0;
            lemma_recorded_facts_are_kept(
                tokens.subrange(2, tokens.len() as int),
                with_input(progress, flag, tokens[1]),
            );
        }
    }
}

/// Tokens none of which is spelled like a launch-mode flag record no
/// launch mode.
proof fn lemma_no_launch_flag_no_mode(tokens: Seq<Seq<char>>, progress: ParseProgress)
    requires
        parse_tokens(tokens, progress) is Ok,
        progress.selected_mode is None,
        forall|i: int| 0 <= i < tokens.len() ==> !is_launch_flag_spelling(#[trigger] tokens[i]),
    ensures
        parse_tokens(tokens, progress)->Ok_0.selected_mode is None,
    decreases tokens.len(),
{
    if tokens.len() > 0 {
        let token = tokens[0];
        assert(!is_launch_flag_spelling(tokens[0]));
        let rest = tokens.drop_first();
        assert forall|i: int| 0 <= i < rest.len() implies !is_launch_flag_spelling(
            #[trigger] rest[i],
        ) by {
            assert(rest[i] == tokens[i + 1]);
        }
        if token == "--demo-test"@ {
            lemma_no_launch_flag_no_mode(rest, with_demo(progress));
        } else {
            let flag = input_flag(token)->Some_0;
            let remaining = tokens.subrange(2, tokens.len() as int);
            assert forall|i: int| 0 <= i < remaining.len() implies !is_launch_flag_spelling(
                #[trigger] remaining[i],
            ) by {
                assert(remaining[i] == tokens[i + 2]);
            }
            lemma_no_launch_flag_no_mode(remaining, with_input(progress, flag, tokens[1]));
        }
    }
}

/// A launch-mode flag that follows tokens which read without error and
/// hold no launch-mode flag decides the mode of the whole command line,
/// whatever follows it.
proof fn lemma_launch_flag_decides_mode(
    program: Seq<char>,
    before: Seq<Seq<char>>,
    flag: Seq<char>,
    after: Seq<Seq<char>>,
    mode: LaunchModeSelection,
)
    requires
        launch_flag_mode(flag) == Some(mode),
        parse_tokens(before, initial_progress()) is Ok,
        forall|i: int| 0 <= i < before.len() ==> !is_launch_flag_spelling(#[trigger] before[i]),
        spec_parse_command_line(command_with(program, before, flag, after)) is Ok,
    ensures
        spec_parse_command_line(command_with(program, before, flag, after))->Ok_0.mode == mode,
{
    let tokens = before + seq![flag] + after;
    assert(command_with(program, before, flag, after).drop_first() =~= tokens);
    assert(tokens =~= before + (seq![flag] + after));
    lemma_parse_tokens_concat(before, seq![flag] + after, initial_progress());
    let middle = parse_tokens(before, initial_progress())->Ok_0;
    lemma_no_launch_flag_no_mode(before, initial_progress());
    assert((seq![flag] + after)[0] == flag);
    assert((seq![flag] + after).drop_first() =~= after);
    lemma_recorded_facts_are_kept(after, with_mode(middle, mode));
}

/// Each launch-mode flag, short or long, selects its own mode: on any
/// command line that reads without error, where it is the first launch-mode
/// flag and what precedes it reads without error by itself, the mode of the
/// command line is the one that flag names.
pub proof fn lemma_launch_flags_select_their_modes(
    program: Seq<char>,
    before: Seq<Seq<char>>,
    after: Seq<Seq<char>>,
)
    requires
        parse_tokens(before, initial_progress()) is Ok,
        forall|i: int| 0 <= i < before.len() ==> !is_launch_flag_spelling(#[trigger] before[i]),
    ensures
        spec_parse_command_line(command_with(program, before, "-h"@, after)) is Ok
            ==> spec_parse_command_line(command_with(program, before, "-h"@, after))->Ok_0.mode
            == LaunchModeSelection::PrintHelp,
        spec_parse_command_line(command_with(program, before, "--help"@, after)) is Ok
            ==> spec_parse_command_line(command_with(program, before, "--help"@, after))->Ok_0.mode
            == LaunchModeSelection::PrintHelp,
        spec_parse_command_line(command_with(program, before, "-v"@, after)) is Ok
            ==> spec_parse_command_line(command_with(program, before, "-v"@, after))->Ok_0.mode
            == LaunchModeSelection::PrintVersion,
        spec_parse_command_line(command_with(program, before, "--version"@, after)) is Ok
            ==> spec_parse_command_line(
            command_with(program, before, "--version"@, after),
        )->Ok_0.mode == LaunchModeSelection::PrintVersion,
        spec_parse_command_line(command_with(program, before, "-nt"@, after)) is Ok
            ==> spec_parse_command_line(command_with(program, before, "-nt"@, after))->Ok_0.mode
            == LaunchModeSelection::RelaunchInNewTerminalWindow,
        spec_parse_command_line(command_with(program, before, "--new-terminal"@, after)) is Ok
            ==> spec_parse_command_line(
            command_with(program, before, "--new-terminal"@, after),
        )->Ok_0.mode == LaunchModeSelection::RelaunchInNewTerminalWindow,
        spec_parse_command_line(command_with(program, before, "-tv"@, after)) is Ok
            ==> spec_parse_command_line(command_with(program, before, "-tv"@, after))->Ok_0.mode
            == LaunchModeSelection::RelaunchInTmuxVerticalSplit,
        spec_parse_command_line(command_with(program, before, "--tmux-split-vertical"@, after))
            is Ok ==> spec_parse_command_line(
            command_with(program, before, "--tmux-split-vertical"@, after),
        )->Ok_0.mode == LaunchModeSelection::RelaunchInTmuxVerticalSplit,
        spec_parse_command_line(command_with(program, before, "-th"@, after)) is Ok
            ==> spec_parse_command_line(command_with(program, before, "-th"@, after))->Ok_0.mode
            == LaunchModeSelection::RelaunchInTmuxHorizontalSplit,
        spec_parse_command_line(command_with(program, before, "--tmux-split-horizontal"@, after))
            is Ok ==> spec_parse_command_line(
            command_with(program, before, "--tmux-split-horizontal"@, after),
        )->Ok_0.mode == LaunchModeSelection::RelaunchInTmuxHorizontalSplit,
{
    lemma_flag_spellings_are_read_as_named();
    if spec_parse_command_line(command_with(program, before, "-h"@, after)) is Ok {
        lemma_launch_flag_decides_mode(
            program,
            before,
            "-h"@,
            after,
            LaunchModeSelection::PrintHelp,
        );
    }
    if spec_parse_command_line(command_with(program, before, "--help"@, after)) is Ok {
        lemma_launch_flag_decides_mode(
            program,
            before,
            "--help"@,
            after,
            LaunchModeSelection::PrintHelp,
        );
    }
    if spec_parse_command_line(command_with(program, before, "-v"@, after)) is Ok {
        lemma_launch_flag_decides_mode(
            program,
            before,
            "-v"@,
            after,
            LaunchModeSelection::PrintVersion,
        );
    }
    if spec_parse_command_line(command_with(program, before, "--version"@, after)) is Ok {
        lemma_launch_flag_decides_mode(
            program,
            before,
            "--version"@,
            after,
            LaunchModeSelection::PrintVersion,
        );
    }
    if spec_parse_command_line(command_with(program, before, "-nt"@, after)) is Ok {
        lemma_launch_flag_decides_mode(
            program,
            before,
            "-nt"@,
            after,
            LaunchModeSelection::RelaunchInNewTerminalWindow,
        );
    }
    if spec_parse_command_line(command_with(program, before, "--new-terminal"@, after)) is Ok {
        lemma_launch_flag_decides_mode(
            program,
            before,
            "--new-terminal"@,
            after,
            LaunchModeSelection::RelaunchInNewTerminalWindow,
        );
    }
    if spec_parse_command_line(command_with(program, before, "-tv"@, after)) is Ok {
        lemma_launch_flag_decides_mode(
            program,
            before,
            "-tv"@,
            after,
            LaunchModeSelection::RelaunchInTmuxVerticalSplit,
        );
    }
    if spec_parse_command_line(command_with(program, before, "--tmux-split-vertical"@, after))
        is Ok {
        lemma_launch_flag_decides_mode(
            program,
            before,
            "--tmux-split-vertical"@,
            after,
            LaunchModeSelection::RelaunchInTmuxVerticalSplit,
        );
    }
    if spec_parse_command_line(command_with(program, before, "-th"@, after)) is Ok {
        lemma_launch_flag_decides_mode(
            program,
            before,
            "-th"@,
            after,
            LaunchModeSelection::RelaunchInTmuxHorizontalSplit,
        );
    }
    if spec_parse_command_line(command_with(program, before, "--tmux-split-horizontal"@, after))
        is Ok {
        lemma_launch_flag_decides_mode(
            program,
            before,
            "--tmux-split-horizontal"@,
            after,
            LaunchModeSelection::RelaunchInTmuxHorizontalSplit,
        );
    }
}


/// Each flag alone after the program name is read as what it names: a
/// launch-mode flag selects its mode, `--demo-test` runs the demo inline, a
/// value-taking flag with a value fills its own input and runs inline, and
/// a value-taking flag without a value is refused with a message naming it.
pub proof fn lemma_single_flag_command_lines(program: Seq<char>, value: Seq<char>)
    ensures
        spec_parse_command_line(seq![program, "-h"@]) == Ok::<ParsedView, Seq<char>>(
            ParsedView {
                mode: LaunchModeSelection::PrintHelp,
                demo: false,
                memo_files_directory: None,
                user_name: None,
                logging_directory: None,
                chrono_sort_directory: None,
            },
        ),
        spec_parse_command_line(seq![program, "--help"@]) == Ok::<ParsedView, Seq<char>>(
            ParsedView {
                mode: LaunchModeSelection::PrintHelp,
                demo: false,
                memo_files_directory: None,
                user_name: None,
                logging_directory: None,
                chrono_sort_directory: None,
            },
        ),
        spec_parse_command_line(seq![program, "-v"@]) == Ok::<ParsedView, Seq<char>>(
            ParsedView {
                mode: LaunchModeSelection::PrintVersion,
                demo: false,
                memo_files_directory: None,
                user_name: None,
                logging_directory: None,
                chrono_sort_directory: None,
            },
        ),
        spec_parse_command_line(seq![program, "--version"@]) == Ok::<ParsedView, Seq<char>>(
            ParsedView {
                mode: LaunchModeSelection::PrintVersion,
                demo: false,
                memo_files_directory: None,
                user_name: None,
                logging_directory: None,
                chrono_sort_directory: None,
            },
        ),
        spec_parse_command_line(seq![program, "-nt"@]) == Ok::<ParsedView, Seq<char>>(
            ParsedView {
                mode: LaunchModeSelection::RelaunchInNewTerminalWindow,
                demo: false,
                memo_files_directory: None,
                user_name: None,
                logging_directory: None,
                chrono_sort_directory: None,
            },
        ),
        spec_parse_command_line(seq![program, "--new-terminal"@]) == Ok::<ParsedView, Seq<char>>(
            ParsedView {
                mode: LaunchModeSelection::RelaunchInNewTerminalWindow,
                demo: false,
                memo_files_directory: None,
                user_name: None,
                logging_directory: None,
                chrono_sort_directory: None,
            },
        ),
        spec_parse_command_line(seq![program, "-tv"@]) == Ok::<ParsedView, Seq<char>>(
            ParsedView {
                mode: LaunchModeSelection::RelaunchInTmuxVerticalSplit,
                demo: false,
                memo_files_directory: None,
                user_name: None,
                logging_directory: None,
                chrono_sort_directory: None,
            },
        ),
        spec_parse_command_line(seq![program, "--tmux-split-vertical"@]) == Ok::<ParsedView, Seq<char>>(
            ParsedView {
                mode: LaunchModeSelection::RelaunchInTmuxVerticalSplit,
                demo: false,
                memo_files_directory: None,
                user_name: None,
                logging_directory: None,
                chrono_sort_directory: None,
            },
        ),
        spec_parse_command_line(seq![program, "-th"@]) == Ok::<ParsedView, Seq<char>>(
            ParsedView {
                mode: LaunchModeSelection::RelaunchInTmuxHorizontalSplit,
                demo: false,
                memo_files_directory: None,
                user_name: None,
                logging_directory: None,
                chrono_sort_directory: None,
            },
        ),
        spec_parse_command_line(seq![program, "--tmux-split-horizontal"@]) == Ok::<ParsedView, Seq<char>>(
            ParsedView {
                mode: LaunchModeSelection::RelaunchInTmuxHorizontalSplit,
                demo: false,
                memo_files_directory: None,
                user_name: None,
                logging_directory: None,
                chrono_sort_directory: None,
            },
        ),
        spec_parse_command_line(seq![program, "--demo-test"@]) == Ok::<ParsedView, Seq<char>>(
            ParsedView {
                mode: LaunchModeSelection::RunInlineInCurrentTerminal,
                demo: true,
                memo_files_directory: None,
                user_name: None,
                logging_directory: None,
                chrono_sort_directory: None,
            },
        ),
        spec_parse_command_line(seq![program, "--memo-file-dir-path"@, value]) == Ok::<ParsedView, Seq<char>>(
            ParsedView {
                mode: LaunchModeSelection::RunInlineInCurrentTerminal,
                demo: false,
                memo_files_directory: Some(value),
                user_name: None,
                logging_directory: None,
                chrono_sort_directory: None,
            },
        ),
        spec_parse_command_line(seq![program, "--memo-file-dir-path"@]) == Err::<ParsedView, Seq<char>>(
            "Flag '"@ + "--memo-file-dir-path"@ + "' requires a value but none was given."@,
        ),
        spec_parse_command_line(seq![program, "--user-name"@, value]) == Ok::<ParsedView, Seq<char>>(
            ParsedView {
                mode: LaunchModeSelection::RunInlineInCurrentTerminal,
                demo: false,
                memo_files_directory: None,
                user_name: Some(value),
                logging_directory: None,
                chrono_sort_directory: None,
            },
        ),
        spec_parse_command_line(seq![program, "--user-name"@]) == Err::<ParsedView, Seq<char>>(
            "Flag '"@ + "--user-name"@ + "' requires a value but none was given."@,
        ),
        spec_parse_command_line(seq![program, "--log-path"@, value]) == Ok::<ParsedView, Seq<char>>(
            ParsedView {
                mode: LaunchModeSelection::RunInlineInCurrentTerminal,
                demo: false,
                memo_files_directory: None,
                user_name: None,
                logging_directory: Some(value),
                chrono_sort_directory: None,
            },
        ),
        spec_parse_command_line(seq![program, "--log-path"@]) == Err::<ParsedView, Seq<char>>(
            "Flag '"@ + "--log-path"@ + "' requires a value but none was given."@,
        ),
        spec_parse_command_line(seq![program, "--chronosort-path"@, value]) == Ok::<ParsedView, Seq<char>>(
            ParsedView {
                mode: LaunchModeSelection::RunInlineInCurrentTerminal,
                demo: false,
                memo_files_directory: None,
                user_name: None,
                logging_directory: None,
                chrono_sort_directory: Some(value),
            },
        ),
        spec_parse_command_line(seq![program, "--chronosort-path"@]) == Err::<ParsedView, Seq<char>>(
            "Flag '"@ + "--chronosort-path"@ + "' requires a value but none was given."@,
        ),
{
    lemma_flag_spellings_are_read_as_named();
    lemma_single_launch_flag(program, "-h"@, launch_flag_mode("-h"@)->Some_0);
    lemma_single_launch_flag(program, "--help"@, launch_flag_mode("--help"@)->Some_0);
    lemma_single_launch_flag(program, "-v"@, launch_flag_mode("-v"@)->Some_0);
    lemma_single_launch_flag(program, "--version"@, launch_flag_mode("--version"@)->Some_0);
    lemma_single_launch_flag(program, "-nt"@, launch_flag_mode("-nt"@)->Some_0);
    lemma_single_launch_flag(program, "--new-terminal"@, launch_flag_mode("--new-terminal"@)->Some_0);
    lemma_single_launch_flag(program, "-tv"@, launch_flag_mode("-tv"@)->Some_0);
    lemma_single_launch_flag(program, "--tmux-split-vertical"@, launch_flag_mode("--tmux-split-vertical"@)->Some_0);
    lemma_single_launch_flag(program, "-th"@, launch_flag_mode("-th"@)->Some_0);
    lemma_single_launch_flag(program, "--tmux-split-horizontal"@, launch_flag_mode("--tmux-split-horizontal"@)->Some_0);
    lemma_single_demo_flag(program);
    lemma_single_value_flag(program, "--memo-file-dir-path"@, value);
    lemma_single_value_flag(program, "--user-name"@, value);
    lemma_single_value_flag(program, "--log-path"@, value);
    lemma_single_value_flag(program, "--chronosort-path"@, value);
}

proof fn lemma_single_launch_flag(program: Seq<char>, flag: Seq<char>, mode: LaunchModeSelection)
    requires
        launch_flag_mode(flag) == Some(mode),
    ensures
        spec_parse_command_line(seq![program, flag]) == Ok::<ParsedView, Seq<char>>(
            ParsedView {
                mode,
                demo: false,
                memo_files_directory: None,
                user_name: None,
                logging_directory: None,
                chrono_sort_directory: None,
            },
        ),
{
    let tokens = seq![flag];
    assert(seq![program, flag].drop_first() =~= tokens);
    assert(tokens[0] == flag);
    assert(tokens.drop_first() =~= Seq::<Seq<char>>::empty());
    assert(parse_tokens(tokens.drop_first(), with_mode(initial_progress(), mode)) == Ok::<
        ParseProgress,
        Seq<char>,
    >(with_mode(initial_progress(), mode)));
}

proof fn lemma_single_demo_flag(program: Seq<char>)
    requires
        launch_flag_mode("--demo-test"@) is None,
    ensures
        spec_parse_command_line(seq![program, "--demo-test"@]) == Ok::<ParsedView, Seq<char>>(
            ParsedView {
                mode: LaunchModeSelection::RunInlineInCurrentTerminal,
                demo: true,
                memo_files_directory: None,
                user_name: None,
                logging_directory: None,
                chrono_sort_directory: None,
            },
        ),
{
    let tokens = seq!["--demo-test"@];
    assert(seq![program, "--demo-test"@].drop_first() =~= tokens);
    assert(tokens[0] == "--demo-test"@);
    assert(tokens.drop_first() =~= Seq::<Seq<char>>::empty());
    assert(parse_tokens(tokens.drop_first(), with_demo(initial_progress())) == Ok::<
        ParseProgress,
        Seq<char>,
    >(with_demo(initial_progress())));
}

proof fn lemma_single_value_flag(program: Seq<char>, flag: Seq<char>, value: Seq<char>)
    requires
        launch_flag_mode(flag) is None,
        flag != "--demo-test"@,
        input_flag(flag) is Some,
    ensures
        spec_parse_command_line(seq![program, flag, value]) == Ok::<ParsedView, Seq<char>>(
            ParsedView {
                mode: LaunchModeSelection::RunInlineInCurrentTerminal,
                demo: false,
                memo_files_directory: if input_flag(flag) == Some(InputFlag::MemoFileDirPath) {
                    Some(value)
                } else {
                    None
                },
                user_name: if input_flag(flag) == Some(InputFlag::UserName) {
                    Some(value)
                } else {
                    None
                },
                logging_directory: if input_flag(flag) == Some(InputFlag::LogPath) {
                    Some(value)
                } else {
                    None
                },
                chrono_sort_directory: if input_flag(flag) == Some(InputFlag::ChronosortPath) {
                    Some(value)
                } else {
                    None
                },
            },
        ),
        spec_parse_command_line(seq![program, flag]) == Err::<ParsedView, Seq<char>>(
            "Flag '"@ + flag + "' requires a value but none was given."@,
        ),
{
    let tokens = seq![flag, value];
    assert(seq![program, flag, value].drop_first() =~= tokens);
    assert(tokens[0] == flag);
    assert(tokens[1] == value);
    assert(tokens.subrange(2, 2) =~= Seq::<Seq<char>>::empty());
    let next = with_input(initial_progress(), input_flag(flag)->Some_0, value);
    assert(parse_tokens(tokens.subrange(2, 2), next) == Ok::<ParseProgress, Seq<char>>(next));
    let alone = seq![flag];
    assert(seq![program, flag].drop_first() =~= alone);
    assert(alone[0] == flag);
}

/// A token that is spelled like no known flag is refused, with a message
/// that names it, wherever it first appears after tokens that read without
/// error.
pub proof fn lemma_unknown_token_is_refused(
    program: Seq<char>,
    before: Seq<Seq<char>>,
    token: Seq<char>,
    after: Seq<Seq<char>>,
)
    requires
        !is_known_flag_spelling(token),
        parse_tokens(before, initial_progress()) is Ok,
    ensures
        spec_parse_command_line(command_with(program, before, token, after)) == Err::<
            ParsedView,
            Seq<char>,
        >("Unknown argument: "@ + token),
{
    let tokens = before + seq![token] + after;
    assert(command_with(program, before, token, after).drop_first() =~= tokens);
    assert(tokens =~= before + (seq![token] + after));
    lemma_parse_tokens_concat(before, seq![token] + after, initial_progress());
    assert((seq![token] + after)[0] == token);
}

/// A value-taking flag given last, with a value, fills its own input with
/// that value, replacing any earlier one, and leaves the mode, the demo
/// request and the other three inputs as the tokens before it set them.
pub proof fn lemma_value_flag_fills_its_own_input(
    program: Seq<char>,
    before: Seq<Seq<char>>,
    value: Seq<char>,
)
    requires
        spec_parse_command_line(seq![program] + before) is Ok,
    ensures
        ({
            let earlier = spec_parse_command_line(seq![program] + before)->Ok_0;
            let memo = spec_parse_command_line(
                command_with(program, before, "--memo-file-dir-path"@, seq![value]),
            );
            let user = spec_parse_command_line(
                command_with(program, before, "--user-name"@, seq![value]),
            );
            let log = spec_parse_command_line(
                command_with(program, before, "--log-path"@, seq![value]),
            );
            let chrono = spec_parse_command_line(
                command_with(program, before, "--chronosort-path"@, seq![value]),
            );
            &&& memo is Ok && user is Ok && log is Ok && chrono is Ok
            &&& memo->Ok_0.memo_files_directory == Some(value)
            &&& memo->Ok_0.user_name == earlier.user_name
            &&& memo->Ok_0.logging_directory == earlier.logging_directory
            &&& memo->Ok_0.chrono_sort_directory == earlier.chrono_sort_directory
            &&& user->Ok_0.user_name == Some(value)
            &&& user->Ok_0.memo_files_directory == earlier.memo_files_directory
            &&& user->Ok_0.logging_directory == earlier.logging_directory
            &&& user->Ok_0.chrono_sort_directory == earlier.chrono_sort_directory
            &&& log->Ok_0.logging_directory == Some(value)
            &&& log->Ok_0.memo_files_directory == earlier.memo_files_directory
            &&& log->Ok_0.user_name == earlier.user_name
            &&& log->Ok_0.chrono_sort_directory == earlier.chrono_sort_directory
            &&& chrono->Ok_0.chrono_sort_directory == Some(value)
            &&& chrono->Ok_0.memo_files_directory == earlier.memo_files_directory
            &&& chrono->Ok_0.user_name == earlier.user_name
            &&& chrono->Ok_0.logging_directory == earlier.logging_directory
            &&& memo->Ok_0.demo == earlier.demo && user->Ok_0.demo == earlier.demo
                && log->Ok_0.demo == earlier.demo && chrono->Ok_0.demo == earlier.demo
            &&& earlier.mode != LaunchModeSelection::PrintHelp ==> memo->Ok_0.mode == earlier.mode
                && user->Ok_0.mode == earlier.mode && log->Ok_0.mode == earlier.mode
                && chrono->Ok_0.mode == earlier.mode
        }),
{
    lemma_flag_spellings_are_read_as_named();
    assert((seq![program] + before).drop_first() =~= before);
    let start = parse_tokens(before, initial_progress())->Ok_0;
    lemma_value_flag_step(program, before, "--memo-file-dir-path"@, value);
    lemma_value_flag_step(program, before, "--user-name"@, value);
    lemma_value_flag_step(program, before, "--log-path"@, value);
    lemma_value_flag_step(program, before, "--chronosort-path"@, value);
}

/// Reading `before.. flag value` reads `before` and then records the value.
proof fn lemma_value_flag_step(
    program: Seq<char>,
    before: Seq<Seq<char>>,
    flag: Seq<char>,
    value: Seq<char>,
)
    requires
        parse_tokens(before, initial_progress()) is Ok,
        launch_flag_mode(flag) is None,
        flag != "--demo-test"@,
        input_flag(flag) is Some,
    ensures
        parse_tokens(
            command_with(program, before, flag, seq![value]).drop_first(),
            initial_progress(),
        ) == Ok::<ParseProgress, Seq<char>>(
            with_input(
                parse_tokens(before, initial_progress())->Ok_0,
                input_flag(flag)->Some_0,
                value,
            ),
        ),
{
    let tail = seq![flag, value];
    assert(command_with(program, before, flag, seq![value]).drop_first() =~= before + tail);
    lemma_parse_tokens_concat(before, tail, initial_progress());
    assert(tail[0] == flag);
    assert(tail[1] == value);
    assert(tail.subrange(2, 2) =~= Seq::<Seq<char>>::empty());
    let start = parse_tokens(before, initial_progress())->Ok_0;
    let next = with_input(start, input_flag(flag)->Some_0, value);
    assert(parse_tokens(tail.subrange(2, 2), next) == Ok::<ParseProgress, Seq<char>>(next));
    assert(parse_tokens(tail, start) == Ok::<ParseProgress, Seq<char>>(next));
}

/// Resolution succeeds exactly when all four inputs were given, and then
/// gives each input the value of its own flag. Otherwise it names a missing
/// flag, all flags before which, in the order memo-file directory, user
/// name, log path, chrono-sort path, were given.
pub proof fn lemma_resolution_uses_the_given_inputs(parsed: ParsedView)
    ensures
        spec_resolve_real_run_inputs(parsed) is Ok <==> (parsed.memo_files_directory is Some
            && parsed.user_name is Some && parsed.logging_directory is Some
            && parsed.chrono_sort_directory is Some),
        spec_resolve_real_run_inputs(parsed) is Ok ==> {
            let inputs = spec_resolve_real_run_inputs(parsed)->Ok_0;
            &&& parsed.memo_files_directory == Some(inputs.memo_files_directory)
            &&& parsed.user_name == Some(inputs.user_name)
            &&& parsed.logging_directory == Some(inputs.logging_directory)
            &&& parsed.chrono_sort_directory == Some(inputs.chrono_sort_directory)
        },
        spec_resolve_real_run_inputs(parsed) is Err ==> {
            let message = spec_resolve_real_run_inputs(parsed)->Err_0;
            ||| message == "Missing required flag: --memo-file-dir-path"@
                && parsed.memo_files_directory is None
            ||| message == "Missing required flag: --user-name"@
                && parsed.memo_files_directory is Some && parsed.user_name is None
            ||| message == "Missing required flag: --log-path"@
                && parsed.memo_files_directory is Some && parsed.user_name is Some
                && parsed.logging_directory is None
            ||| message == "Missing required flag: --chronosort-path"@
                && parsed.memo_files_directory is Some && parsed.user_name is Some
                && parsed.logging_directory is Some && parsed.chrono_sort_directory is None
        },
{
}

/// The child of a re-launch loses exactly the short and long flag of its
/// own kind: removing them from two lists one after the other is removing
/// them from each, and a single token is removed exactly when it is one of
/// those two spellings.
pub proof fn lemma_child_arguments_drop_exactly_own_flags(
    first: Seq<Seq<char>>,
    second: Seq<Seq<char>>,
    token: Seq<char>,
)
    ensures
        forall|kind: RelaunchKind|
            #[trigger] without_relaunch_flag(first + second, kind) == without_relaunch_flag(
                first,
                kind,
            ) + without_relaunch_flag(second, kind),
        without_relaunch_flag(seq![token], RelaunchKind::NewTerminalWindow) == if token == "-nt"@
            || token == "--new-terminal"@ {
            Seq::<Seq<char>>::empty()
        } else {
            seq![token]
        },
        without_relaunch_flag(seq![token], RelaunchKind::TmuxVerticalSplit) == if token == "-tv"@
            || token == "--tmux-split-vertical"@ {
            Seq::<Seq<char>>::empty()
        } else {
            seq![token]
        },
        without_relaunch_flag(seq![token], RelaunchKind::TmuxHorizontalSplit) == if token
            == "-th"@ || token == "--tmux-split-horizontal"@ {
            Seq::<Seq<char>>::empty()
        } else {
            seq![token]
        },
{
    assert forall|kind: RelaunchKind|
        #[trigger] without_relaunch_flag(first + second, kind) == without_relaunch_flag(
            first,
            kind,
        ) + without_relaunch_flag(second, kind) by {
        lemma_without_relaunch_flag_concat(first, second, kind);
    }
    let single = seq![token];
    assert(single[0] == token);
    assert(single.drop_first() =~= Seq::<Seq<char>>::empty());
    assert(without_relaunch_flag(single.drop_first(), RelaunchKind::NewTerminalWindow)
        =~= Seq::<Seq<char>>::empty());
    assert(without_relaunch_flag(single.drop_first(), RelaunchKind::TmuxVerticalSplit)
        =~= Seq::<Seq<char>>::empty());
    assert(without_relaunch_flag(single.drop_first(), RelaunchKind::TmuxHorizontalSplit)
        =~= Seq::<Seq<char>>::empty());
    assert(seq![token] + Seq::<Seq<char>>::empty() =~= seq![token]);
}

proof fn lemma_without_relaunch_flag_concat(
    first: Seq<Seq<char>>,
    second: Seq<Seq<char>>,
    kind: RelaunchKind,
)
    ensures
        without_relaunch_flag(first + second, kind) == without_relaunch_flag(first, kind)
            + without_relaunch_flag(second, kind),
    decreases first.len(),
{
    if first.len() == 0 {
        assert(first + second =~= second);
        assert(without_relaunch_flag(first, kind) + without_relaunch_flag(second, kind)
            =~= without_relaunch_flag(second, kind));
    } else {
        let joined = first + second;
        assert(joined[0] == first[0]);
        assert(joined.drop_first() =~= first.drop_first() + second);
        lemma_without_relaunch_flag_concat(first.drop_first(), second, kind);
        assert(seq![first[0]] + (without_relaunch_flag(first.drop_first(), kind)
            + without_relaunch_flag(second, kind)) =~= seq![first[0]] + without_relaunch_flag(
            first.drop_first(),
            kind,
        ) + without_relaunch_flag(second, kind));
    }
}

} // verus!
