//! Command-line handling and launch planning for a terminal chess front end.
//!
//! The library decides everything that the program does before it touches
//! the operating system: how the command line is read, which inputs a run
//! needs, which arguments a re-launched child receives, and which processes
//! are tried, in which order, to open a new terminal window or tmux pane.
//! Spawning those processes is left to the caller.
pub mod text;
pub mod launch_split_term;
pub mod command_line;
pub mod command_line_laws;
pub mod launch_laws;
pub mod command_line_flag_laws;
