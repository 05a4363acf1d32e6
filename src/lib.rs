//! Running an external tool with both of its output streams drained at once:
//! the per-stream drain state machine, the assembly of the captured result,
//! the trace line that names the command, the layout of copies into a
//! package directory, and the naming of high-density icons.

pub mod drain;
pub mod command;
pub mod outcome;
pub mod copy;
pub mod icon;
