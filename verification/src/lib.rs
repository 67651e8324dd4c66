//! Injecting environment variables into a running subprocess.
//!
//! A controlling process cannot normally change the environment of a child
//! that has already started. This library prepares a child launch so that a
//! small native agent is loaded into the child's address space at program
//! start; the agent listens on a per-session control socket and mutates the
//! child's environment on authenticated request. The modules here hold the
//! verified core: the wire protocol shared by both ends of the control
//! channel, the agent-side request parser, the retry policy that absorbs the
//! startup race, and the injector-side session logic.

pub mod agent;
pub mod injector;
pub mod protocol;
pub mod retry;
pub mod wire;
