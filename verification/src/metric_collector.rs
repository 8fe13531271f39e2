//! The output side of one poll cycle: anything that can turn a telemetry
//! record into published messages.

use vstd::prelude::*;

use crate::telemetry::HMSStateResponse;

verus! {

/// A publish strategy: maps one telemetry record to zero or more published
/// topic/payload pairs and forwards them to its client.
pub trait MetricCollector {
    fn publish(&mut self, hms_state: &HMSStateResponse)
        requires
            hms_state.wf(),
    ;
}

} // verus!
