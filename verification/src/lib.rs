//! The control logic of a TCP/UDP relay: what to bind and how often to try,
//! what to do with every connection, which workers to run, and when to reload
//! or stop.
//!
//! Nothing here touches a socket, a file or a signal. Each long-running task is
//! a machine that is told what happened and answers what to do next; the
//! program around the library performs the action and reports back.

pub mod endpoint;
pub mod life;
pub mod report;
pub mod retry;
pub mod rounds;
pub mod startup;
pub mod supervisor;
pub mod tcp;
pub mod tcp_life;
pub mod udp;
pub mod workers;
