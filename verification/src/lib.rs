//! Supervision of long-running units of work: a task runs either on a worker
//! thread or in a forked child process and streams progress, errors and its
//! final result over a typed channel to registered observers.
pub mod message;
pub mod stream;
pub mod digits;
pub mod error;
pub mod codec;
pub mod listener;
pub mod sender;
pub mod receiver;
pub mod channel;
pub mod job;
pub mod executor;
pub mod monitor;
pub mod cli;
