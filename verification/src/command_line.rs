//! Reading the command line, resolving run inputs, and building the argument
//! list of a re-launched child.
//!
//! Exactly one launch-mode flag may be given. `--demo-test` is not a launch
//! mode: it selects the built-in demo inputs and composes with any launch
//! mode. With no flags at all the help text is shown; with input flags but no
//! launch mode the game runs inline. A re-launched child receives every
//! argument except the program name and the launch-mode flag that caused the
//! re-launch, so it reads the same inputs and runs inline.
use vstd::prelude::*;
use vstd::string::*;
use crate::text::{string_views, text_equals};
use crate::launch_split_term::{LaunchSplitTermError, LaunchTarget, TargetPlatform};

verus! {

/// Successful completion, or an informational exit (help, version).
pub const EXIT_CODE_SUCCESS: u8 = 0;

/// The game could not be started or failed while running.
pub const EXIT_CODE_RUNTIME_FAILURE: u8 = 1;

/// The command line was not valid.
pub const EXIT_CODE_USAGE_ERROR: u8 = 2;

/// A re-launch into a new terminal window or tmux pane failed.
pub const EXIT_CODE_LAUNCH_FAILURE: u8 = 3;

/// The path of the running executable could not be found or was not UTF-8.
pub const EXIT_CODE_CURRENT_EXE_UNAVAILABLE: u8 = 4;

/// The top-level action of one invocation.
#[derive(Debug, Clone, Copy, PartialEq, Eq, Structural)]
pub enum LaunchModeSelection {
    /// Print the help text.
    PrintHelp,
    /// Print the version.
    PrintVersion,
    /// Run the game in the current terminal.
    RunInlineInCurrentTerminal,
    /// Re-launch the executable in a new terminal window.
    RelaunchInNewTerminalWindow,
    /// Re-launch the executable in a new tmux pane (vertical split).
    RelaunchInTmuxVerticalSplit,
    /// Re-launch the executable in a new tmux pane (horizontal split).
    RelaunchInTmuxHorizontalSplit,
}

/// The four flags that take a value.
#[derive(Debug, Clone, Copy, PartialEq, Eq, Structural)]
pub enum InputFlag {
    /// `--memo-file-dir-path`
    MemoFileDirPath,
    /// `--user-name`
    UserName,
    /// `--log-path`
    LogPath,
    /// `--chronosort-path`
    ChronosortPath,
}

/// The launch mode that a token selects, if it is a launch-mode flag.
pub open spec fn launch_flag_mode(token: Seq<char>) -> Option<LaunchModeSelection> {
    if token == "-h"@ || token == "--help"@ {
        Some(LaunchModeSelection::PrintHelp)
    } else if token == "-v"@ || token == "--version"@ {
        Some(LaunchModeSelection::PrintVersion)
    } else if token == "-nt"@ || token == "--new-terminal"@ {
        Some(LaunchModeSelection::RelaunchInNewTerminalWindow)
    } else if token == "-tv"@ || token == "--tmux-split-vertical"@ {
        Some(LaunchModeSelection::RelaunchInTmuxVerticalSplit)
    } else if token == "-th"@ || token == "--tmux-split-horizontal"@ {
        Some(LaunchModeSelection::RelaunchInTmuxHorizontalSplit)
    } else {
        None
    }
}

/// The value-taking flag that a token is, if any.
pub open spec fn input_flag(token: Seq<char>) -> Option<InputFlag> {
    if token == "--memo-file-dir-path"@ {
        Some(InputFlag::MemoFileDirPath)
    } else if token == "--user-name"@ {
        Some(InputFlag::UserName)
    } else if token == "--log-path"@ {
        Some(InputFlag::LogPath)
    } else if token == "--chronosort-path"@ {
        Some(InputFlag::ChronosortPath)
    } else {
        None
    }
}

/// The flag that selects the demo inputs.
pub open spec fn demo_flag() -> Seq<char> {
    "--demo-test"@
}

/// What has been read of the command line so far.
pub struct ParseProgress {
    pub selected_mode: Option<LaunchModeSelection>,
    pub demo: bool,
    pub memo_files_directory: Option<Seq<char>>,
    pub user_name: Option<Seq<char>>,
    pub logging_directory: Option<Seq<char>>,
    pub chrono_sort_directory: Option<Seq<char>>,
}

/// Nothing read yet.
pub open spec fn initial_progress() -> ParseProgress {
    ParseProgress {
        selected_mode: None,
        demo: false,
        memo_files_directory: None,
        user_name: None,
        logging_directory: None,
        chrono_sort_directory: None,
    }
}

/// `progress` with the launch mode set to `mode`.
pub open spec fn with_mode(progress: ParseProgress, mode: LaunchModeSelection) -> ParseProgress {
    ParseProgress {
        selected_mode: Some(mode),
        demo: progress.demo,
        memo_files_directory: progress.memo_files_directory,
        user_name: progress.user_name,
        logging_directory: progress.logging_directory,
        chrono_sort_directory: progress.chrono_sort_directory,
    }
}

/// `progress` with the demo inputs requested.
pub open spec fn with_demo(progress: ParseProgress) -> ParseProgress {
    ParseProgress {
        selected_mode: progress.selected_mode,
        demo: true,
        memo_files_directory: progress.memo_files_directory,
        user_name: progress.user_name,
        logging_directory: progress.logging_directory,
        chrono_sort_directory: progress.chrono_sort_directory,
    }
}

/// `progress` with the input of `flag` set to `value`.
pub open spec fn with_input(progress: ParseProgress, flag: InputFlag, value: Seq<char>) -> ParseProgress {
    ParseProgress {
        selected_mode: progress.selected_mode,
        demo: progress.demo,
        memo_files_directory: if flag == InputFlag::MemoFileDirPath {
            Some(value)
        } else {
            progress.memo_files_directory
        },
        user_name: if flag == InputFlag::UserName {
            Some(value)
        } else {
            progress.user_name
        },
        logging_directory: if flag == InputFlag::LogPath {
            Some(value)
        } else {
            progress.logging_directory
        },
        chrono_sort_directory: if flag == InputFlag::ChronosortPath {
            Some(value)
        } else {
            progress.chrono_sort_directory
        },
    }
}

/// The error for a second launch-mode flag.
pub open spec fn multiple_launch_modes_message() -> Seq<char> {
    "Multiple launch-mode flags supplied; pass only one of -h/--help, -v/--version, -nt/--new-terminal, -tv/--tmux-split-vertical, -th/--tmux-split-horizontal."@
}

/// The error for a value-taking flag at the end of the command line.
pub open spec fn missing_value_message(flag: Seq<char>) -> Seq<char> {
    "Flag '"@ + flag + "' requires a value but none was given."@
}

/// The error for a token that is no known flag.
pub open spec fn unknown_argument_message(token: Seq<char>) -> Seq<char> {
    "Unknown argument: "@ + token
}

/// Reads `tokens` from the left, starting from `progress`: a launch-mode
/// flag selects its mode (a second one is an error), `--demo-test` requests
/// the demo inputs, a value-taking flag takes the next token as its value
/// (a later occurrence replaces an earlier one), and anything else is an
/// error.
pub open spec fn parse_tokens(tokens: Seq<Seq<char>>, progress: ParseProgress) -> Result<
    ParseProgress,
    Seq<char>,
>
    decreases tokens.len(),
{
    if tokens.len() == 0 {
        Ok(progress)
    } else {
        let token = tokens[0];
        match launch_flag_mode(token) {
            Some(mode) => if progress.selected_mode is Some {
                Err(multiple_launch_modes_message())
            } else {
                parse_tokens(tokens.drop_first(), with_mode(progress, mode))
            },
            None => if token == demo_flag() {
                parse_tokens(tokens.drop_first(), with_demo(progress))
            } else {
                match input_flag(token) {
                    Some(flag) => if tokens.len() < 2 {
                        Err(missing_value_message(token))
                    } else {
                        parse_tokens(
                            tokens.subrange(2, tokens.len() as int),
                            with_input(progress, flag, tokens[1]),
                        )
                    },
                    None => Err(unknown_argument_message(token)),
                }
            },
        }
    }
}

/// Whether any input was given: the demo flag or a value-taking flag.
pub open spec fn any_input_supplied(progress: ParseProgress) -> bool {
    progress.demo || progress.memo_files_directory is Some || progress.user_name is Some
        || progress.logging_directory is Some || progress.chrono_sort_directory is Some
}

/// The launch mode of a command line: the one selected by its flag, or else
/// running inline when any input was given, or else printing the help.
pub open spec fn resolve_launch_mode(progress: ParseProgress) -> LaunchModeSelection {
    match progress.selected_mode {
        Some(mode) => mode,
        None => if any_input_supplied(progress) {
            LaunchModeSelection::RunInlineInCurrentTerminal
        } else {
            LaunchModeSelection::PrintHelp
        },
    }
}

/// The meaning of a parsed command line.
pub struct ParsedView {
    pub mode: LaunchModeSelection,
    pub demo: bool,
    pub memo_files_directory: Option<Seq<char>>,
    pub user_name: Option<Seq<char>>,
    pub logging_directory: Option<Seq<char>>,
    pub chrono_sort_directory: Option<Seq<char>>,
}

/// The parsed command line once every token has been read.
pub open spec fn finish_parse(progress: ParseProgress) -> ParsedView {
    ParsedView {
        mode: resolve_launch_mode(progress),
        demo: progress.demo,
        memo_files_directory: progress.memo_files_directory,
        user_name: progress.user_name,
        logging_directory: progress.logging_directory,
        chrono_sort_directory: progress.chrono_sort_directory,
    }
}

/// The tokens after the program name.
pub open spec fn after_program(argv: Seq<Seq<char>>) -> Seq<Seq<char>> {
    if argv.len() == 0 {
        Seq::empty()
    } else {
        argv.drop_first()
    }
}

/// The meaning of a whole command line, whose first element is the program
/// name: the parsed command line, or the usage error.
pub open spec fn spec_parse_command_line(argv: Seq<Seq<char>>) -> Result<ParsedView, Seq<char>> {
    match parse_tokens(after_program(argv), initial_progress()) {
        Ok(progress) => Ok(finish_parse(progress)),
        Err(message) => Err(message),
    }
}

/// The character sequence of an optional string.
pub open spec fn option_view(value: Option<String>) -> Option<Seq<char>> {
    match value {
        Some(s) => Some(s@),
        None => None,
    }
}

/// A parsed command line.
#[derive(Debug, Clone)]
pub struct ParsedCommandLineArguments {
    /// Which top-level action to perform.
    pub launch_mode_selection: LaunchModeSelection,
    /// Whether the built-in demo inputs are to be used.
    pub is_demo_mode_requested: bool,
    /// Directory holding the players' memo files.
    pub memo_files_directory_path: Option<String>,
    /// Local user name used for memo attribution.
    pub local_user_name: Option<String>,
    /// Directory where logs are written.
    pub logging_directory_path: Option<String>,
    /// Working directory of the chrono index.
    pub chrono_sort_temp_directory_path: Option<String>,
}

impl View for ParsedCommandLineArguments {
    type V = ParsedView;

    open spec fn view(&self) -> ParsedView {
        ParsedView {
            mode: self.launch_mode_selection,
            demo: self.is_demo_mode_requested,
            memo_files_directory: option_view(self.memo_files_directory_path),
            user_name: option_view(self.local_user_name),
            logging_directory: option_view(self.logging_directory_path),
            chrono_sort_directory: option_view(self.chrono_sort_temp_directory_path),
        }
    }
}

/// The meaning of the result of `parse_command_line_arguments`.
pub open spec fn parse_result_view(result: Result<ParsedCommandLineArguments, String>) -> Result<
    ParsedView,
    Seq<char>,
> {
    match result {
        Ok(parsed) => Ok(parsed@),
        Err(message) => Err(message@),
    }
}

/// The launch mode that `token` selects, if it is a launch-mode flag.
fn launch_flag_mode_of(token: &str) -> (mode: Option<LaunchModeSelection>)
    ensures
        mode == launch_flag_mode(token@),
{
    if text_equals(token, "-h") || text_equals(token, "--help") {
        Some(LaunchModeSelection::PrintHelp)
    } else if text_equals(token, "-v") || text_equals(token, "--version") {
        Some(LaunchModeSelection::PrintVersion)
    } else if text_equals(token, "-nt") || text_equals(token, "--new-terminal") {
        Some(LaunchModeSelection::RelaunchInNewTerminalWindow)
    } else if text_equals(token, "-tv") || text_equals(token, "--tmux-split-vertical") {
        Some(LaunchModeSelection::RelaunchInTmuxVerticalSplit)
    } else if text_equals(token, "-th") || text_equals(token, "--tmux-split-horizontal") {
        Some(LaunchModeSelection::RelaunchInTmuxHorizontalSplit)
    } else {
        None
    }
}

/// The value-taking flag that `token` is, if any.
fn input_flag_of(token: &str) -> (flag: Option<InputFlag>)
    ensures
        flag == input_flag(token@),
{
    if text_equals(token, "--memo-file-dir-path") {
        Some(InputFlag::MemoFileDirPath)
    } else if text_equals(token, "--user-name") {
        Some(InputFlag::UserName)
    } else if text_equals(token, "--log-path") {
        Some(InputFlag::LogPath)
    } else if text_equals(token, "--chronosort-path") {
        Some(InputFlag::ChronosortPath)
    } else {
        None
    }
}

/// Records `candidate_mode` in the launch-mode slot; fails, leaving the slot
/// as it was, when a launch mode is already recorded.
pub fn assign_launch_mode_or_conflict(
    launch_mode_slot: &mut Option<LaunchModeSelection>,
    candidate_mode: LaunchModeSelection,
) -> (outcome: Result<(), String>)
    ensures
        match outcome {
            Ok(_) => *old(launch_mode_slot) is None && *final(launch_mode_slot) == Some(
                candidate_mode,
            ),
            Err(message) => *old(launch_mode_slot) is Some && *final(launch_mode_slot) == *old(
                launch_mode_slot,
            ) && message@ == multiple_launch_modes_message(),
        },
{
    if launch_mode_slot.is_some() {
        return Err(
            String::from_str(
                "Multiple launch-mode flags supplied; pass only one of -h/--help, -v/--version, -nt/--new-terminal, -tv/--tmux-split-vertical, -th/--tmux-split-horizontal.",
            ),
        );
    }
    *launch_mode_slot = Some(candidate_mode);
    Ok(())
}

/// The value of a value-taking flag: the token at `value_index`, or an error
/// naming the flag when the command line ends before it.
pub fn consume_required_value(
    raw_argument_vector: &[String],
    value_index: usize,
    flag_name_for_error: &str,
) -> (value: Result<String, String>)
    ensures
        match value {
            Ok(token) => value_index < raw_argument_vector@.len() && token@
                == raw_argument_vector@[value_index as int]@,
            Err(message) => value_index >= raw_argument_vector@.len() && message@
                == missing_value_message(flag_name_for_error@),
        },
{
    if value_index < raw_argument_vector.len() {
        Ok(raw_argument_vector[value_index].clone())
    } else {
        Err(
            String::from_str("Flag '").concat(flag_name_for_error).concat(
                "' requires a value but none was given.",
            ),
        )
    }
}


/// Reads the command line `raw_argument_vector`, whose first element is the
/// program name, as `spec_parse_command_line` describes: the parsed command
/// line, or the usage error for the first token that cannot be read.
pub fn parse_command_line_arguments(raw_argument_vector: &[String]) -> (parsed: Result<
    ParsedCommandLineArguments,
    String,
>)
    ensures
        parse_result_view(parsed) == spec_parse_command_line(string_views(raw_argument_vector@)),
{
    let ghost tokens = string_views(raw_argument_vector@);
    let argument_count = raw_argument_vector.len();
    let mut selected_launch_mode: Option<LaunchModeSelection> = None;
    let mut is_demo_mode_requested: bool = false;
    let mut memo_files_directory_path: Option<String> = None;
    let mut local_user_name: Option<String> = None;
    let mut logging_directory_path: Option<String> = None;
    let mut chrono_sort_temp_directory_path: Option<String> = None;

    // The program name is skipped.
    let mut i: usize = if argument_count == 0 {
        0
    } else {
        1
    };
    assert(after_program(tokens) =~= tokens.subrange(i as int, argument_count as int));

    while i < argument_count
        invariant
            argument_count == raw_argument_vector@.len(),
            tokens == string_views(raw_argument_vector@),
            i <= argument_count,
            parse_tokens(
                tokens.subrange(i as int, argument_count as int),
                ParseProgress {
                    selected_mode: selected_launch_mode,
                    demo: is_demo_mode_requested,
                    memo_files_directory: option_view(memo_files_directory_path),
                    user_name: option_view(local_user_name),
                    logging_directory: option_view(logging_directory_path),
                    chrono_sort_directory: option_view(chrono_sort_temp_directory_path),
                },
            ) == parse_tokens(after_program(tokens), initial_progress()),
        decreases argument_count - i,
    {
        let ghost rest = tokens.subrange(i as int, argument_count as int);
        let token = raw_argument_vector[i].as_str();
        assert(token@ == rest[0]);
        match launch_flag_mode_of(token) {
            Some(mode) => {
                match assign_launch_mode_or_conflict(&mut selected_launch_mode, mode) {
                    Ok(()) => {},
                    Err(message) => {
                        return Err(message);
                    },
                }
                i = i + 1;
                assert(rest.drop_first() =~= tokens.subrange(i as int, argument_count as int));
            },
            None => {
                if text_equals(token, "--demo-test") {
                    is_demo_mode_requested = true;
                    i = i + 1;
                    assert(rest.drop_first() =~= tokens.subrange(
                        i as int,
                        argument_count as int,
                    ));
                } else {
                    match input_flag_of(token) {
                        Some(flag) => {
                            let value = match consume_required_value(
                                raw_argument_vector,
                                i + 1,
                                token,
                            ) {
                                Ok(value) => value,
                                Err(message) => {
                                    return Err(message);
                                },
                            };
                            assert(value@ == rest[1]);
                            match flag {
                                InputFlag::MemoFileDirPath => {
                                    memo_files_directory_path = Some(value);
                                },
                                InputFlag::UserName => {
                                    local_user_name = Some(value);
                                },
                                InputFlag::LogPath => {
                                    logging_directory_path = Some(value);
                                },
                                InputFlag::ChronosortPath => {
                                    chrono_sort_temp_directory_path = Some(value);
                                },
                            }
                            i = i + 2;
                            assert(rest.subrange(2, rest.len() as int) =~= tokens.subrange(
                                i as int,
                                argument_count as int,
                            ));
                        },
                        None => {
                            return Err(String::from_str("Unknown argument: ").concat(token));
                        },
                    }
                }
            },
        }
    }
    assert(tokens.subrange(i as int, argument_count as int) =~= Seq::<Seq<char>>::empty());

    let any_input_supplied = is_demo_mode_requested || memo_files_directory_path.is_some()
        || local_user_name.is_some() || logging_directory_path.is_some()
        || chrono_sort_temp_directory_path.is_some();
    let launch_mode_selection = match selected_launch_mode {
        Some(explicit_mode) => explicit_mode,
        None => if any_input_supplied {
            LaunchModeSelection::RunInlineInCurrentTerminal
        } else {
            LaunchModeSelection::PrintHelp
        },
    };
    Ok(
        ParsedCommandLineArguments {
            launch_mode_selection,
            is_demo_mode_requested,
            memo_files_directory_path,
            local_user_name,
            logging_directory_path,
            chrono_sort_temp_directory_path,
        },
    )
}


/// The four inputs of a game run.
#[derive(Debug, Clone)]
pub struct ResolvedRealRunInputs {
    pub memo_files_directory_path: String,
    pub local_user_name: String,
    pub logging_directory_path: String,
    pub chrono_sort_temp_directory_path: String,
}

/// The four inputs of a game run, in the order memo-file directory, user
/// name, logging directory, chrono-index directory.
pub struct RunInputsView {
    pub memo_files_directory: Seq<char>,
    pub user_name: Seq<char>,
    pub logging_directory: Seq<char>,
    pub chrono_sort_directory: Seq<char>,
}

impl View for ResolvedRealRunInputs {
    type V = RunInputsView;

    open spec fn view(&self) -> RunInputsView {
        RunInputsView {
            memo_files_directory: self.memo_files_directory_path@,
            user_name: self.local_user_name@,
            logging_directory: self.logging_directory_path@,
            chrono_sort_directory: self.chrono_sort_temp_directory_path@,
        }
    }
}

/// The meaning of a result that carries run inputs or a usage error.
pub open spec fn run_inputs_result_view(result: Result<ResolvedRealRunInputs, String>) -> Result<
    RunInputsView,
    Seq<char>,
> {
    match result {
        Ok(inputs) => Ok(inputs@),
        Err(message) => Err(message@),
    }
}

/// The inputs of a non-demo run: all four value-taking flags must have been
/// given; otherwise the error names the first missing one, in the order
/// `--memo-file-dir-path`, `--user-name`, `--log-path`, `--chronosort-path`.
pub open spec fn spec_resolve_real_run_inputs(parsed: ParsedView) -> Result<RunInputsView, Seq<char>> {
    match (
        parsed.memo_files_directory,
        parsed.user_name,
        parsed.logging_directory,
        parsed.chrono_sort_directory,
    ) {
        (None, _, _, _) => Err("Missing required flag: --memo-file-dir-path"@),
        (Some(_), None, _, _) => Err("Missing required flag: --user-name"@),
        (Some(_), Some(_), None, _) => Err("Missing required flag: --log-path"@),
        (Some(_), Some(_), Some(_), None) => Err("Missing required flag: --chronosort-path"@),
        (Some(memo), Some(user), Some(log), Some(chrono)) => Ok(
            RunInputsView {
                memo_files_directory: memo,
                user_name: user,
                logging_directory: log,
                chrono_sort_directory: chrono,
            },
        ),
    }
}

/// Checks that all four inputs of a non-demo run were given and returns
/// them; otherwise names the first missing flag.
pub fn resolve_real_run_inputs(parsed_arguments: &ParsedCommandLineArguments) -> (resolved: Result<
    ResolvedRealRunInputs,
    String,
>)
    ensures
        run_inputs_result_view(resolved) == spec_resolve_real_run_inputs(parsed_arguments@),
{
    let memo_files_directory_path = match &parsed_arguments.memo_files_directory_path {
        Some(value) => value.clone(),
        None => {
            return Err(String::from_str("Missing required flag: --memo-file-dir-path"));
        },
    };
    let local_user_name = match &parsed_arguments.local_user_name {
        Some(value) => value.clone(),
        None => {
            return Err(String::from_str("Missing required flag: --user-name"));
        },
    };
    let logging_directory_path = match &parsed_arguments.logging_directory_path {
        Some(value) => value.clone(),
        None => {
            return Err(String::from_str("Missing required flag: --log-path"));
        },
    };
    let chrono_sort_temp_directory_path = match &parsed_arguments.chrono_sort_temp_directory_path {
        Some(value) => value.clone(),
        None => {
            return Err(String::from_str("Missing required flag: --chronosort-path"));
        },
    };
    Ok(
        ResolvedRealRunInputs {
            memo_files_directory_path,
            local_user_name,
            logging_directory_path,
            chrono_sort_temp_directory_path,
        },
    )
}

/// The built-in demo inputs.
pub open spec fn demo_run_inputs_spec() -> RunInputsView {
    RunInputsView {
        memo_files_directory: "./test_game_files_5_draw"@,
        user_name: "bob"@,
        logging_directory: "./test_logs"@,
        chrono_sort_directory: "./test_chrono_temp"@,
    }
}

/// The built-in demo inputs.
pub fn demo_run_inputs() -> (inputs: ResolvedRealRunInputs)
    ensures
        inputs@ == demo_run_inputs_spec(),
{
    ResolvedRealRunInputs {
        memo_files_directory_path: String::from_str("./test_game_files_5_draw"),
        local_user_name: String::from_str("bob"),
        logging_directory_path: String::from_str("./test_logs"),
        chrono_sort_temp_directory_path: String::from_str("./test_chrono_temp"),
    }
}

/// The inputs of an inline run: the demo inputs when `--demo-test` was
/// given, and otherwise the four inputs from the command line, all of which
/// are then required.
pub fn inline_run_inputs(parsed_arguments: &ParsedCommandLineArguments) -> (inputs: Result<
    ResolvedRealRunInputs,
    String,
>)
    ensures
        run_inputs_result_view(inputs) == if parsed_arguments.is_demo_mode_requested {
            Ok(demo_run_inputs_spec())
        } else {
            spec_resolve_real_run_inputs(parsed_arguments@)
        },
{
    if parsed_arguments.is_demo_mode_requested {
        Ok(demo_run_inputs())
    } else {
        resolve_real_run_inputs(parsed_arguments)
    }
}

/// Checks, before re-launching, that the child will have what it needs: the
/// demo flag, or all four inputs (else the error names the first missing
/// flag).
pub fn relaunch_preflight(parsed_arguments: &ParsedCommandLineArguments) -> (checked: Result<
    (),
    String,
>)
    ensures
        match checked {
            Ok(_) => parsed_arguments.is_demo_mode_requested || spec_resolve_real_run_inputs(
                parsed_arguments@,
            ) is Ok,
            Err(message) => !parsed_arguments.is_demo_mode_requested
                && spec_resolve_real_run_inputs(parsed_arguments@) == Err::<RunInputsView, Seq<char>>(
                message@,
            ),
        },
{
    if parsed_arguments.is_demo_mode_requested {
        Ok(())
    } else {
        match resolve_real_run_inputs(parsed_arguments) {
            Ok(_) => Ok(()),
            Err(message) => Err(message),
        }
    }
}

/// The three ways of re-launching.
#[derive(Debug, Clone, Copy, PartialEq, Eq, Structural)]
pub enum RelaunchKind {
    NewTerminalWindow,
    TmuxVerticalSplit,
    TmuxHorizontalSplit,
}

/// The launch mode that asks for a re-launch of this kind.
pub open spec fn relaunch_mode(kind: RelaunchKind) -> LaunchModeSelection {
    match kind {
        RelaunchKind::NewTerminalWindow => LaunchModeSelection::RelaunchInNewTerminalWindow,
        RelaunchKind::TmuxVerticalSplit => LaunchModeSelection::RelaunchInTmuxVerticalSplit,
        RelaunchKind::TmuxHorizontalSplit => LaunchModeSelection::RelaunchInTmuxHorizontalSplit,
    }
}

/// Whether `token` is the short or the long flag of this re-launch kind.
pub open spec fn is_relaunch_flag(kind: RelaunchKind, token: Seq<char>) -> bool {
    match kind {
        RelaunchKind::NewTerminalWindow => token == "-nt"@ || token == "--new-terminal"@,
        RelaunchKind::TmuxVerticalSplit => token == "-tv"@ || token == "--tmux-split-vertical"@,
        RelaunchKind::TmuxHorizontalSplit => token == "-th"@ || token
            == "--tmux-split-horizontal"@,
    }
}

/// `tokens` without the short and long flags of this re-launch kind, in the
/// same order.
pub open spec fn without_relaunch_flag(tokens: Seq<Seq<char>>, kind: RelaunchKind) -> Seq<
    Seq<char>,
>
    decreases tokens.len(),
{
    if tokens.len() == 0 {
        Seq::empty()
    } else if is_relaunch_flag(kind, tokens[0]) {
        without_relaunch_flag(tokens.drop_first(), kind)
    } else {
        seq![tokens[0]] + without_relaunch_flag(tokens.drop_first(), kind)
    }
}

/// Removing the flags from a list with one more token at the end.
proof fn lemma_without_relaunch_flag_push(tokens: Seq<Seq<char>>, token: Seq<char>, kind: RelaunchKind)
    ensures
        without_relaunch_flag(tokens.push(token), kind) == without_relaunch_flag(tokens, kind) + (
        if is_relaunch_flag(kind, token) {
            Seq::<Seq<char>>::empty()
        } else {
            seq![token]
        }),
    decreases tokens.len(),
{
    if tokens.len() == 0 {
        assert(tokens.push(token).drop_first() =~= Seq::<Seq<char>>::empty());
        assert(without_relaunch_flag(tokens.push(token).drop_first(), kind) =~= Seq::<
            Seq<char>,
        >::empty());
    } else {
        assert(tokens.push(token).drop_first() =~= tokens.drop_first().push(token));
        lemma_without_relaunch_flag_push(tokens.drop_first(), token, kind);
        assert(tokens.push(token)[0] == tokens[0]);
        if is_relaunch_flag(kind, tokens[0]) {
        } else {
            assert(seq![tokens[0]] + without_relaunch_flag(tokens.drop_first(), kind) + (
            if is_relaunch_flag(kind, token) {
                Seq::<Seq<char>>::empty()
            } else {
                seq![token]
            }) =~= seq![tokens[0]] + (without_relaunch_flag(tokens.drop_first(), kind) + (
            if is_relaunch_flag(kind, token) {
                Seq::<Seq<char>>::empty()
            } else {
                seq![token]
            })));
        }
    }
}

/// Whether `token` is the short or the long flag of this re-launch kind.
fn is_relaunch_flag_token(kind: RelaunchKind, token: &str) -> (matches: bool)
    ensures
        matches == is_relaunch_flag(kind, token@),
{
    match kind {
        RelaunchKind::NewTerminalWindow => text_equals(token, "-nt") || text_equals(
            token,
            "--new-terminal",
        ),
        RelaunchKind::TmuxVerticalSplit => text_equals(token, "-tv") || text_equals(
            token,
            "--tmux-split-vertical",
        ),
        RelaunchKind::TmuxHorizontalSplit => text_equals(token, "-th") || text_equals(
            token,
            "--tmux-split-horizontal",
        ),
    }
}

/// The arguments of the re-launched child: every token after the program
/// name except the short and long flags of this re-launch kind, in order.
pub fn build_child_argument_vector_for_relaunch(
    raw_argument_vector: &[String],
    relaunch_kind: RelaunchKind,
) -> (child_arguments: Vec<String>)
    ensures
        string_views(child_arguments@) == without_relaunch_flag(
            after_program(string_views(raw_argument_vector@)),
            relaunch_kind,
        ),
{
    let ghost tokens = string_views(raw_argument_vector@);
    let argument_count = raw_argument_vector.len();
    let mut child_arguments: Vec<String> = Vec::new();
    let start: usize = if argument_count == 0 {
        0
    } else {
        1
    };
    let mut i: usize = start;
    assert(tokens.subrange(start as int, start as int) =~= Seq::<Seq<char>>::empty());
    while i < argument_count
        invariant
            argument_count == raw_argument_vector@.len(),
            tokens == string_views(raw_argument_vector@),
            start <= i <= argument_count,
            string_views(child_arguments@) == without_relaunch_flag(
                tokens.subrange(start as int, i as int),
                relaunch_kind,
            ),
        decreases argument_count - i,
    {
        let token = &raw_argument_vector[i];
        proof {
            assert(tokens.subrange(start as int, i as int + 1) =~= tokens.subrange(
                start as int,
                i as int,
            ).push(token@));
            lemma_without_relaunch_flag_push(
                tokens.subrange(start as int, i as int),
                token@,
                relaunch_kind,
            );
        }
        if !is_relaunch_flag_token(relaunch_kind, token.as_str()) {
            let ghost before = child_arguments@;
            child_arguments.push(token.clone());
            assert(string_views(child_arguments@) =~= string_views(before) + seq![token@]);
        } else {
            assert(string_views(child_arguments@) =~= string_views(child_arguments@) + Seq::<
                Seq<char>,
            >::empty());
        }
        i = i + 1;
    }
    assert(after_program(tokens) =~= tokens.subrange(start as int, argument_count as int));
    child_arguments
}

/// The re-launch kind that a launch mode asks for, if any.
pub fn relaunch_kind_for_mode(mode: LaunchModeSelection) -> (kind: Option<RelaunchKind>)
    ensures
        match kind {
            Some(k) => relaunch_mode(k) == mode,
            None => mode == LaunchModeSelection::PrintHelp || mode
                == LaunchModeSelection::PrintVersion || mode
                == LaunchModeSelection::RunInlineInCurrentTerminal,
        },
{
    match mode {
        LaunchModeSelection::RelaunchInNewTerminalWindow => Some(RelaunchKind::NewTerminalWindow),
        LaunchModeSelection::RelaunchInTmuxVerticalSplit => Some(RelaunchKind::TmuxVerticalSplit),
        LaunchModeSelection::RelaunchInTmuxHorizontalSplit => Some(
            RelaunchKind::TmuxHorizontalSplit,
        ),
        _ => None,
    }
}

/// Where a re-launch of this kind opens the child on this platform.
pub fn launch_target_for_relaunch(relaunch_kind: RelaunchKind, platform: TargetPlatform) -> (target: LaunchTarget)
    ensures
        target == match relaunch_kind {
            RelaunchKind::NewTerminalWindow => LaunchTarget::NewTerminal(platform),
            RelaunchKind::TmuxVerticalSplit => LaunchTarget::TmuxVerticalSplit,
            RelaunchKind::TmuxHorizontalSplit => LaunchTarget::TmuxHorizontalSplit,
        },
{
    match relaunch_kind {
        RelaunchKind::NewTerminalWindow => LaunchTarget::NewTerminal(platform),
        RelaunchKind::TmuxVerticalSplit => LaunchTarget::TmuxVerticalSplit,
        RelaunchKind::TmuxHorizontalSplit => LaunchTarget::TmuxHorizontalSplit,
    }
}

/// The exit code after a re-launch: success when the child was launched,
/// the launch-failure code otherwise.
pub fn exit_code_for_launch_result(launch_result: &Result<(), LaunchSplitTermError>) -> (code: u8)
    ensures
        code == match launch_result {
            Ok(_) => EXIT_CODE_SUCCESS,
            Err(_) => EXIT_CODE_LAUNCH_FAILURE,
        },
{
    match launch_result {
        Ok(()) => EXIT_CODE_SUCCESS,
        Err(_) => EXIT_CODE_LAUNCH_FAILURE,
    }
}

} // verus!
