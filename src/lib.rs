//! The event-consumption core of a traffic-control packet filter loader.
//!
//! A kernel program writes text messages to one event channel per
//! processing unit. This library holds the consumer's logic: the table of
//! channels and their tokens (`registry`), which drained buffers hold frames
//! (`drain`), how frames become log records (`record`), and the loop's
//! decisions as a state machine (`driver`). Opening channels, waiting on
//! them, reading ring buffers and logging are left to the caller.
use vstd::prelude::*;

pub mod drain;
pub mod driver;
pub mod record;
pub mod registry;

verus! {

} // verus!
