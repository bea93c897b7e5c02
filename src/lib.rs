//! Control plane of a function-execution host: pools of reusable instances
//! behind an admission limit, a per-app instance registry, and the decisions
//! of the protocol run with external worker processes.

use vstd::prelude::*;

pub mod ctx_map;
pub mod instance;
pub mod lru;
pub mod manager;
pub mod master;
pub mod pool;
pub mod proto;
pub mod rpc;

verus! {

} // verus!
