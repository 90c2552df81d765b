//! Scheduling and execution engine of a backup manager: items with a cron
//! schedule, the session that fires them, the planning of a backup run, and
//! the synchroniser that files finished backups under their item.

pub mod backup;
pub mod data;
pub mod entity;
pub mod il8n;
pub mod job;
pub mod log;
pub mod schedule;
pub mod setting;
pub mod statis;
pub mod text;
