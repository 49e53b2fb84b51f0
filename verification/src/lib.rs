use vstd::prelude::*;

pub mod artifact;
pub mod audit;
pub mod catalog;
pub mod catalog_build;
pub mod digits;
pub mod edit;
pub mod executor;
pub mod export;
pub mod formats;
pub mod game_info;
pub mod lock_exec;
pub mod lock_plan;
pub mod lock_state;
pub mod panel;
pub mod locker;
pub mod properties;
pub mod scan;
pub mod scroll;
pub mod stat;
pub mod text;
pub mod traversal;
pub mod window_info;
pub mod worker;

verus! {
} // verus!
