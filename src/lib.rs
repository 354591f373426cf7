//! Decision core of a distributed query scheduler's resource-offer cycle.
//!
//! A cycle turns a `ReviveOffers` trigger into task launches: it reads the
//! executors' free task slots, lets a scheduling policy assign tasks, works
//! out how many slots the policy consumed on each executor, and dispatches the
//! task lists in executor order. The registry, the policy and the network
//! clients are collaborators that the caller drives; the functions here decide
//! what to ask of them next and what to record afterwards.

pub mod capacity;
pub mod cycle;
pub mod dispatch;
pub mod event;

pub use capacity::{ExecutorCapacity, ExecutorDelta};
pub use cycle::{Assignment, OfferCycle, OfferPlan, SchedulerServerEventAction, REVIVE_BACKOFF_MILLIS};
pub use dispatch::{DispatchStep, TaskDispatch};
pub use event::{SchedulerError, SchedulerServerEvent};
