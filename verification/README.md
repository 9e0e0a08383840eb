# memo_chess_tui

The decision logic of a terminal chess front end, verified with Verus.

- `src/command_line.rs` reads the command line (launch-mode flags,
  `--demo-test`, the four value-taking input flags), resolves the inputs of a
  run, checks a re-launch before it happens, and builds the argument list of
  a re-launched child.
- `src/command_line_laws.rs` proves properties that span those functions:
  a re-launched child reads its parent's inputs and runs inline, two
  launch-mode flags are refused, `--demo-test` composes with the rest of a
  command line, and an empty command line asks for the help text.
- `src/launch_split_term.rs` plans how a child is opened in a new terminal
  window or tmux pane: the processes to try, in order, and the step function
  that says what to do after each spawn attempt.
- `src/text.rs` holds small string helpers.
- `app/` is the program around the library: it prints, spawns processes and
  runs the game engine.
