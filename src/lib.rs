//! Control-plane library for a supervised core process: a client that plans
//! typed IPC calls and unwraps their reply envelopes, and the decision machine
//! that bootstraps the supervising service.

use vstd::prelude::*;

pub mod client;
pub mod bootstrap;
pub mod envelope;


verus! {

} // verus!
