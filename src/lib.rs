//! Process watching: the decisions behind watching a process by id, by name,
//! or by running a command, and the notifications sent around a watch.
//!
//! The library holds the logic only. Querying the process table, sleeping
//! between polls, spawning children and posting notifications are done by
//! the caller, which hands the library what it observed and carries out the
//! steps the library returns.
pub mod command;
pub mod name_watch;
pub mod notify;
pub mod pid_watch;
pub mod session;
pub mod text;
