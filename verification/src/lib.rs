//! A process-supervision core: a lifecycle state machine for supervised
//! child processes, a manager that schedules restarts under a backoff
//! policy, stat-history bookkeeping, and a resampler that converts
//! irregular stat series into fixed-width display bins.

pub mod config;
pub mod event;
pub mod proc;
pub mod resample;
pub mod ui;
mod text;
