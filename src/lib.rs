//! Decision engine for an interactive, recursive remove command.
//!
//! The library never touches the filesystem or the terminal. It classifies
//! each entity offered for removal (accept, descend, decline, fail), phrases
//! the confirmation questions, and orders a depth-first, post-order walk with
//! an explicit stack. The caller performs the listing, prompting and deleting
//! that the library asks for.

pub mod dir;
pub mod file;
pub mod options;
pub mod status;
pub mod walk;
