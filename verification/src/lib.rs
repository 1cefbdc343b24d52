//! Orchestration core for a multi-service web backend: a structured,
//! rotating logging pipeline and a scheduler-and-server lifecycle
//! coordinator.

use vstd::prelude::*;

pub mod severity;
pub mod timefmt;
pub mod logfmt;
pub mod sink;
pub mod lifecycle;
pub mod scheduler;
pub mod cors;

pub use severity::Severity;
pub use timefmt::Timestamp;
pub use logfmt::{LogRecord, RemapRule, RemapTable};
pub use sink::{LogSink, SinkAction, SinkConfig};
pub use lifecycle::{Coordinator, LifecycleState, Phase, StartupStage};
pub use scheduler::{JobDescriptor, JobState, Scheduler, SchedulerError};
pub use cors::{CorsDecision, CorsPolicy};

verus! {

} // verus!
