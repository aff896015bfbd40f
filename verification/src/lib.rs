//! The engine of a single-host job queue manager.
//!
//! Jobs are command lines that clients submit to a daemon, which runs them
//! one after the other. This library holds what the daemon and its client
//! decide, with a contract on every function:
//!
//! - [`job_queue`]: the queue and its operations, stated over the
//!   mathematical model of [`model`];
//! - [`preserved`] and [`laws`]: the proofs that every operation keeps the
//!   invariant of the queue, and what follows from it;
//! - [`dispatch`]: what each request of a client does to the queue and how
//!   it is answered; [`protocol`]: the requests and the answers;
//! - [`runner`]: which job is launched next and as what command, and what
//!   the end of its process makes of the queue;
//! - [`state`] and [`daemon`]: what the daemon starts with;
//! - [`cliopts`] and [`clicommands`]: the options of the program and the
//!   client's reading of the answers;
//! - [`text`]: the words of a command line and the decimal form of numbers;
//! - [`trusted`]: what is taken on trust from std and from other crates.
//!
//! Sockets, files, processes, signals and the clock's users around them are
//! left to the program that uses the library.

pub mod clicommands;
pub mod cliopts;
pub mod daemon;
pub mod dispatch;
pub mod job_queue;
pub mod laws;
pub mod model;
pub mod preserved;
pub mod protocol;
pub mod runner;
pub mod state;
pub mod text;
pub mod trusted;
