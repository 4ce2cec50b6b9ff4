//! Protocol core of a smart-HTTP bridge for git: pkt-line framing, service
//! resolution, repository location and the request state machines that
//! decide which subprocess to run and what to answer.

pub mod admin;
pub mod detail;
pub mod exchange;
pub mod locator;
pub mod models;
pub mod pktline;
pub mod reply;
pub mod service;
