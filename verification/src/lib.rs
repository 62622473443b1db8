//! Device-communication core of a diagnostic front end for household
//! appliances: the data exchanged between a consumer and a background
//! worker, the worker's single-flight state machine, the consumer's
//! view-model and its tiered polling scheduler.

pub mod actions;
pub mod consumer;
pub mod flags;
pub mod format;
pub mod handle;
pub mod messages;
pub mod scheduler;
pub mod staging;
pub mod storage;
pub mod traces;
pub mod types;
pub mod worker;
