//! Automation of captive-portal logins, verified.
//!
//! The library holds the decision logic of an autoconnect run: supervising a
//! browser-driver process (argument building and port discovery), choosing a
//! submit element among candidate selectors, classifying connectivity probes,
//! and the orchestrator state machine that sequences those steps and
//! guarantees that a started driver process is always stopped. All I/O (the
//! process itself, the automation protocol, HTTP probes) lives outside the
//! library; callers perform each requested action and feed the result back as
//! an event.

pub mod digits;
pub mod laws;
pub mod orchestrator;
pub mod poller;
pub mod session;
pub mod supervisor;
