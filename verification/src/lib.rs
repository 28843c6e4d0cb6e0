//! A backend-agnostic version-control operations core.
//!
//! The crate implements the decision logic of a unified version-control
//! layer over two backends: a distributed one (status, pull, push, commit,
//! diff, clone, auth test) and a centralized one (status, update, commit,
//! diff, add, revert, checkout, auth test).  Each operation is a stateless,
//! synchronous unit of work.  All filesystem, process and network effects
//! are performed by an unverified host around the crate; the host hands the
//! core plain values (command outcomes, raw tool output, directory probes)
//! and the core decides what they mean and what happens next.

pub mod text;
pub mod outcome;
pub mod process;
pub mod classify;
pub mod locator;
pub mod credentials;
pub mod status;
pub mod engine_git;
pub mod engine_svn;
