//! An in-memory job dispatch service: clients submit jobs tagged with a
//! priority class, a worker pool claims them for execution in priority order
//! (FIFO within a class), and the claimant reports completion. The store of
//! job records, the two priority lanes and the lifecycle state machine they
//! enforce are verified.

pub mod dispatch;
pub mod map;
pub mod models;
pub mod queue;
