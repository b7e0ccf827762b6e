//! A cron job manager: the verified core that keeps the jobs of a node and
//! decides, on each tick of the scheduler, how a job's status moves on.
pub mod actions;
pub mod handler;
pub mod job;
pub mod laws;
pub mod manager;
