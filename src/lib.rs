//! Concurrent website reachability checking: the decisions of the check
//! engine (argument handling, retry policy, job dispatch, result collection
//! and report rows), each stated and proved.
pub mod collector;
pub mod config;
pub mod dispatch;
pub mod record;
pub mod report;
pub mod retry;
pub mod text;
