//! A dynamic-DNS client's decisions, without its I/O.
//!
//! The library keeps one DNS "A" record equal to the machine's public IP
//! address. It decides what to ask the outside world next and what to make of
//! each answer; the caller performs the requests and hands the answers back.

use vstd::prelude::*;

pub mod aliyun_cli;
pub mod attempt;
pub mod cmd_args;
pub mod ping;
pub mod reconcile;
pub mod update_loop;

pub use cmd_args::CmdArgs;

verus! {

/// The period, in milliseconds, of the update loop and of the keepalive ping.
pub const PERIOD_MILLIS: u64 = 60000;

} // verus!
