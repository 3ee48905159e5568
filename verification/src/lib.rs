//! A coding agent for the command line, as a library of decisions.
//!
//! The library holds what the agent decides: whether a tool may run
//! (`policy`, `rules`, `matcher`, `paths`), what a tool run comes to
//! (`executor`, `diff`), and how an instruction becomes an answer one step
//! at a time (`orchestrator`, `agent`, `toolcall`). Around these stand the
//! settings (`config`), the models (`llm`), the servers that offer more
//! tools (`mcp`), the sessions (`session`), the streams that arrive in
//! pieces (`stream`), the command line (`cli`, `output`) and the state and
//! the rows of the terminal interface (`tui`).
//!
//! Nothing here reads a file, opens a connection or draws on a terminal.
//! Apart from the clock and the random name of a new session, every
//! function takes plain values and hands plain values back, and says in
//! its contract what they are.

pub mod agent;
pub mod cli;
pub mod config;
pub mod diff;
pub mod executor;
pub mod llm;
pub mod matcher;
pub mod mcp;
pub mod orchestrator;
pub mod output;
pub mod paths;
pub mod policy;
pub mod rules;
pub mod session;
pub mod stream;
pub mod text;
pub mod toolcall;
pub mod tools;
pub mod tui;
