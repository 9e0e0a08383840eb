//! Properties of the command-line reader that span several functions.
use vstd::prelude::*;
use crate::command_line::{
    after_program, any_input_supplied, demo_flag, finish_parse, initial_progress, input_flag,
    is_relaunch_flag, launch_flag_mode, multiple_launch_modes_message, parse_tokens,
    relaunch_mode, spec_parse_command_line, spec_resolve_real_run_inputs, with_demo, with_input,
    with_mode,
    without_relaunch_flag, LaunchModeSelection, ParseProgress, ParsedView, RelaunchKind,
};

verus! {

/// `progress` with no launch mode recorded.
pub open spec fn without_mode(progress: ParseProgress) -> ParseProgress {
    ParseProgress {
        selected_mode: None,
        demo: progress.demo,
        memo_files_directory: progress.memo_files_directory,
        user_name: progress.user_name,
        logging_directory: progress.logging_directory,
        chrono_sort_directory: progress.chrono_sort_directory,
    }
}

/// Whether no token that the reader takes as the value of a value-taking
/// flag is a flag of this re-launch kind.
pub open spec fn no_value_is_relaunch_flag(tokens: Seq<Seq<char>>, kind: RelaunchKind) -> bool
    decreases tokens.len(),
{
    if tokens.len() == 0 {
        true
    } else if launch_flag_mode(tokens[0]) is Some || tokens[0] == demo_flag() {
        no_value_is_relaunch_flag(tokens.drop_first(), kind)
    } else if input_flag(tokens[0]) is Some && tokens.len() >= 2 {
        !is_relaunch_flag(kind, tokens[1]) && no_value_is_relaunch_flag(
            tokens.subrange(2, tokens.len() as int),
            kind,
        )
    } else {
        no_value_is_relaunch_flag(tokens.drop_first(), kind)
    }
}

/// How many tokens are launch-mode flags.
pub open spec fn launch_flag_count(tokens: Seq<Seq<char>>) -> nat
    decreases tokens.len(),
{
    if tokens.len() == 0 {
        0
    } else if launch_flag_mode(tokens[0]) is Some {
        1 + launch_flag_count(tokens.drop_first())
    } else {
        launch_flag_count(tokens.drop_first())
    }
}

/// Once a launch mode is recorded, a successful read keeps it.
proof fn lemma_selected_mode_is_kept(tokens: Seq<Seq<char>>, progress: ParseProgress)
    requires
        progress.selected_mode is Some,
        parse_tokens(tokens, progress) is Ok,
    ensures
        parse_tokens(tokens, progress)->Ok_0.selected_mode == progress.selected_mode,
    decreases tokens.len(),
{
    if tokens.len() > 0 {
        let token = tokens[0];
        if launch_flag_mode(token) is Some {
        } else if token == demo_flag() {
            lemma_selected_mode_is_kept(tokens.drop_first(), with_demo(progress));
        } else if let Some(flag) = input_flag(token) {
            if tokens.len() >= 2 {
                lemma_selected_mode_is_kept(
                    tokens.subrange(2, tokens.len() as int),
                    with_input(progress, flag, tokens[1]),
                );
            }
        }
    }
}

/// Reading the tokens without the flags of a re-launch kind, from a state
/// with no launch mode, gives what reading all of them gave, less the
/// launch mode, when that launch mode was the re-launch's own.
proof fn lemma_stripped_tokens_read_alike(
    tokens: Seq<Seq<char>>,
    kind: RelaunchKind,
    parent: ParseProgress,
)
    requires
        parent.selected_mode is None || parent.selected_mode == Some(relaunch_mode(kind)),
        parse_tokens(tokens, parent) is Ok,
        parse_tokens(tokens, parent)->Ok_0.selected_mode == Some(relaunch_mode(kind)),
        no_value_is_relaunch_flag(tokens, kind),
    ensures
        parse_tokens(without_relaunch_flag(tokens, kind), without_mode(parent)) == Ok::<
            ParseProgress,
            Seq<char>,
        >(without_mode(parse_tokens(tokens, parent)->Ok_0)),
    decreases tokens.len(),
{
    if tokens.len() == 0 {
        assert(without_relaunch_flag(tokens, kind) =~= Seq::<Seq<char>>::empty());
    } else {
        let token = tokens[0];
        let rest = tokens.drop_first();
        if let Some(mode) = launch_flag_mode(token) {
            let next = with_mode(parent, mode);
            lemma_selected_mode_is_kept(rest, next);
            assert(mode == relaunch_mode(kind));
            assert(is_relaunch_flag(kind, token));
            assert(without_mode(next) == without_mode(parent));
            lemma_stripped_tokens_read_alike(rest, kind, next);
        } else {
            // A token that is no launch-mode flag is kept.
            assert(!is_relaunch_flag(kind, token));
            let stripped = without_relaunch_flag(tokens, kind);
            assert(stripped == seq![token] + without_relaunch_flag(rest, kind));
            assert(stripped[0] == token);
            if token == demo_flag() {
                assert(stripped.drop_first() =~= without_relaunch_flag(rest, kind));
                lemma_stripped_tokens_read_alike(rest, kind, with_demo(parent));
                assert(with_demo(without_mode(parent)) == without_mode(with_demo(parent)));
            } else {
                let flag = input_flag(token)->Some_0;
                let value = tokens[1];
                let remaining = tokens.subrange(2, tokens.len() as int);
                assert(rest[0] == value);
                assert(rest.drop_first() =~= remaining);
                assert(!is_relaunch_flag(kind, value));
                assert(without_relaunch_flag(rest, kind) == seq![value] + without_relaunch_flag(
                    remaining,
                    kind,
                ));
                assert(stripped.len() >= 2);
                assert(stripped[1] == value);
                assert(stripped.subrange(2, stripped.len() as int) =~= without_relaunch_flag(
                    remaining,
                    kind,
                ));
                let next = with_input(parent, flag, value);
                lemma_stripped_tokens_read_alike(remaining, kind, next);
                assert(with_input(without_mode(parent), flag, value)
                    == without_mode(next));
            }
        }
    }
}

/// A child re-launched by a command line that asked for a re-launch reads
/// the same demo request and inputs as its parent and, having no launch-mode
/// flag, runs inline whenever it has any input (and in particular whenever
/// the parent's re-launch check passed). This holds when no token that the
/// parent read as a flag's value is itself a flag of the re-launch kind.
pub proof fn lemma_relaunched_child_runs_inline(
    argv: Seq<Seq<char>>,
    child_program: Seq<char>,
    kind: RelaunchKind,
)
    requires
        spec_parse_command_line(argv) is Ok,
        spec_parse_command_line(argv)->Ok_0.mode == relaunch_mode(kind),
        no_value_is_relaunch_flag(after_program(argv), kind),
    ensures
        ({
            let parent = spec_parse_command_line(argv)->Ok_0;
            let child_argv = seq![child_program] + without_relaunch_flag(after_program(argv), kind);
            &&& spec_parse_command_line(child_argv) == Ok::<ParsedView, Seq<char>>(
                ParsedView {
                    mode: if parent.demo || parent.memo_files_directory is Some
                        || parent.user_name is Some || parent.logging_directory is Some
                        || parent.chrono_sort_directory is Some {
                        LaunchModeSelection::RunInlineInCurrentTerminal
                    } else {
                        LaunchModeSelection::PrintHelp
                    },
                    demo: parent.demo,
                    memo_files_directory: parent.memo_files_directory,
                    user_name: parent.user_name,
                    logging_directory: parent.logging_directory,
                    chrono_sort_directory: parent.chrono_sort_directory,
                },
            )
            &&& (parent.demo || spec_resolve_real_run_inputs(parent) is Ok)
                ==> spec_parse_command_line(child_argv)->Ok_0.mode
                == LaunchModeSelection::RunInlineInCurrentTerminal
        }),
{
    let tokens = after_program(argv);
    let progress = parse_tokens(tokens, initial_progress())->Ok_0;
    assert(progress.selected_mode == Some(relaunch_mode(kind)));
    lemma_stripped_tokens_read_alike(tokens, kind, initial_progress());
    assert(without_mode(initial_progress()) == initial_progress());
    let child_argv = seq![child_program] + without_relaunch_flag(tokens, kind);
    assert(after_program(child_argv) =~= without_relaunch_flag(tokens, kind));
    assert(any_input_supplied(without_mode(progress)) == any_input_supplied(progress));
}

/// With nothing after the program name, the command line asks for the help
/// text, without the demo and without inputs.
pub proof fn lemma_no_flags_prints_help(argv: Seq<Seq<char>>)
    requires
        argv.len() <= 1,
    ensures
        spec_parse_command_line(argv) == Ok::<ParsedView, Seq<char>>(
            ParsedView {
                mode: LaunchModeSelection::PrintHelp,
                demo: false,
                memo_files_directory: None,
                user_name: None,
                logging_directory: None,
                chrono_sort_directory: None,
            },
        ),
{
    assert(after_program(argv) =~= Seq::<Seq<char>>::empty());
}

/// Reading tokens that are all launch-mode flags or `--demo-test` fails with
/// the multiple-launch-modes error when a launch mode is already recorded
/// and one more flag comes, or when two flags come.
proof fn lemma_flags_only_second_mode_rejected(tokens: Seq<Seq<char>>, progress: ParseProgress)
    requires
        forall|i: int|
            0 <= i < tokens.len() ==> launch_flag_mode(#[trigger] tokens[i]) is Some || tokens[i]
                == demo_flag(),
        (progress.selected_mode is Some && launch_flag_count(tokens) >= 1) || launch_flag_count(
            tokens,
        ) >= 2,
    ensures
        parse_tokens(tokens, progress) == Err::<ParseProgress, Seq<char>>(
            multiple_launch_modes_message(),
        ),
    decreases tokens.len(),
{
    let token = tokens[0];
    let rest = tokens.drop_first();
    assert forall|i: int| 0 <= i < rest.len() implies launch_flag_mode(#[trigger] rest[i]) is Some
        || rest[i] == demo_flag() by {
        assert(rest[i] == tokens[i + 1]);
    }
    if let Some(mode) = launch_flag_mode(token) {
        if progress.selected_mode is None {
            lemma_flags_only_second_mode_rejected(
                rest,
                with_mode(progress, mode),
            );
        }
    } else {
        lemma_flags_only_second_mode_rejected(rest, with_demo(progress));
    }
}

/// A command line whose tokens after the program name are all launch-mode
/// flags or `--demo-test`, with at least two launch-mode flags among them,
/// is refused with the multiple-launch-modes error.
pub proof fn lemma_two_launch_modes_rejected(argv: Seq<Seq<char>>)
    requires
        forall|i: int|
            1 <= i < argv.len() ==> launch_flag_mode(#[trigger] argv[i]) is Some || argv[i]
                == demo_flag(),
        launch_flag_count(after_program(argv)) >= 2,
    ensures
        spec_parse_command_line(argv) == Err::<ParsedView, Seq<char>>(
            multiple_launch_modes_message(),
        ),
{
    let tokens = after_program(argv);
    assert forall|i: int| 0 <= i < tokens.len() implies launch_flag_mode(#[trigger] tokens[i])
        is Some || tokens[i] == demo_flag() by {
        assert(tokens[i] == argv[i + 1]);
    }
    lemma_flags_only_second_mode_rejected(tokens, initial_progress());
}


/// `--demo-test` is neither a launch-mode flag nor a value-taking flag.
proof fn lemma_demo_flag_is_plain()
    ensures
        launch_flag_mode(demo_flag()) is None,
        input_flag(demo_flag()) is None,
{
    reveal_strlit("--demo-test");
    assert("--demo-test"@.len() == 11);
    reveal_strlit("-h");
    assert("-h"@.len() == 2);
    reveal_strlit("--help");
    assert("--help"@.len() == 6);
    reveal_strlit("-v");
    assert("-v"@.len() == 2);
    reveal_strlit("--version");
    assert("--version"@.len() == 9);
    reveal_strlit("-nt");
    assert("-nt"@.len() == 3);
    reveal_strlit("--new-terminal");
    assert("--new-terminal"@.len() == 14);
    reveal_strlit("-tv");
    assert("-tv"@.len() == 3);
    reveal_strlit("--tmux-split-vertical");
    assert("--tmux-split-vertical"@.len() == 21);
    reveal_strlit("-th");
    assert("-th"@.len() == 3);
    reveal_strlit("--tmux-split-horizontal");
    assert("--tmux-split-horizontal"@.len() == 23);
    reveal_strlit("--memo-file-dir-path");
    assert("--memo-file-dir-path"@.len() == 20);
    reveal_strlit("--user-name");
    assert("--user-name"@.len() == 11);
    reveal_strlit("--log-path");
    assert("--log-path"@.len() == 10);
    reveal_strlit("--chronosort-path");
    assert("--chronosort-path"@.len() == 17);
    assert(demo_flag() != "--user-name"@) by {
        assert(demo_flag()[2] == 'd');
        assert("--user-name"@[2] == 'u');
    }
}

/// Reading tokens followed by `--demo-test` gives what reading the tokens
/// gave, with the demo requested.
proof fn lemma_demo_flag_appended(tokens: Seq<Seq<char>>, progress: ParseProgress)
    requires
        parse_tokens(tokens, progress) is Ok,
    ensures
        parse_tokens(tokens.push(demo_flag()), progress) == Ok::<ParseProgress, Seq<char>>(
            with_demo(parse_tokens(tokens, progress)->Ok_0),
        ),
    decreases tokens.len(),
{
    let extended = tokens.push(demo_flag());
    if tokens.len() == 0 {
        lemma_demo_flag_is_plain();
        assert(extended.drop_first() =~= Seq::<Seq<char>>::empty());
        assert(extended[0] == demo_flag());
        assert(parse_tokens(extended.drop_first(), with_demo(progress)) == Ok::<
            ParseProgress,
            Seq<char>,
        >(with_demo(progress)));
    } else {
        let token = tokens[0];
        assert(extended[0] == token);
        assert(extended.drop_first() =~= tokens.drop_first().push(demo_flag()));
        if let Some(mode) = launch_flag_mode(token) {
            lemma_demo_flag_appended(
                tokens.drop_first(),
                with_mode(progress, mode),
            );
        } else if token == demo_flag() {
            lemma_demo_flag_appended(tokens.drop_first(), with_demo(progress));
        } else {
            let flag = input_flag(token)->Some_0;
            assert(extended[1] == tokens[1]);
            assert(extended.subrange(2, extended.len() as int) =~= tokens.subrange(
                2,
                tokens.len() as int,
            ).push(demo_flag()));
            lemma_demo_flag_appended(
                tokens.subrange(2, tokens.len() as int),
                with_input(progress, flag, tokens[1]),
            );
        }
    }
}

/// `--demo-test` composes with the rest of a valid command line: adding it
/// at the end keeps the launch mode and the inputs and requests the demo.
/// Only a command line that asked for the help by default, having no flag
/// at all, changes mode: it now runs inline.
pub proof fn lemma_demo_flag_composes(argv: Seq<Seq<char>>)
    requires
        argv.len() >= 1,
        spec_parse_command_line(argv) is Ok,
    ensures
        ({
            let progress = parse_tokens(after_program(argv), initial_progress())->Ok_0;
            let parent = spec_parse_command_line(argv)->Ok_0;
            let extended = spec_parse_command_line(argv.push(demo_flag()));
            &&& extended == Ok::<ParsedView, Seq<char>>(finish_parse(with_demo(progress)))
            &&& extended->Ok_0.demo
            &&& extended->Ok_0.memo_files_directory == parent.memo_files_directory
            &&& extended->Ok_0.user_name == parent.user_name
            &&& extended->Ok_0.logging_directory == parent.logging_directory
            &&& extended->Ok_0.chrono_sort_directory == parent.chrono_sort_directory
            &&& extended->Ok_0.mode == if progress.selected_mode is None {
                LaunchModeSelection::RunInlineInCurrentTerminal
            } else {
                parent.mode
            }
        }),
{
    let tokens = after_program(argv);
    assert(after_program(argv.push(demo_flag())) =~= tokens.push(demo_flag()));
    lemma_demo_flag_appended(tokens, initial_progress());
}


/// The child's arguments hold no flag of the re-launch kind, and they are at
/// most as many as the tokens they come from.
pub proof fn lemma_child_arguments_lack_relaunch_flag(tokens: Seq<Seq<char>>, kind: RelaunchKind)
    ensures
        forall|i: int|
            0 <= i < without_relaunch_flag(tokens, kind).len() ==> !is_relaunch_flag(
                kind,
                #[trigger] without_relaunch_flag(tokens, kind)[i],
            ),
        without_relaunch_flag(tokens, kind).len() <= tokens.len(),
    decreases tokens.len(),
{
    if tokens.len() > 0 {
        let rest = tokens.drop_first();
        lemma_child_arguments_lack_relaunch_flag(rest, kind);
        if !is_relaunch_flag(kind, tokens[0]) {
            let kept = without_relaunch_flag(tokens, kind);
            assert forall|i: int| 0 <= i < kept.len() implies !is_relaunch_flag(
                kind,
                #[trigger] kept[i],
            ) by {
                if i > 0 {
                    assert(kept[i] == without_relaunch_flag(rest, kind)[i - 1]);
                }
            }
        }
    }
}

} // verus!
