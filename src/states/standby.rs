//! The standby state
use vstd::prelude::*;

use super::{Ready, Standby};
use crate::ll::{RegOp, CMD_READY};

verus! {

impl<PF> Standby<PF> {
    /// Wake up the device and go back to ready mode: dispatch the READY command.
    pub fn wake_up(self) -> (r: (Ready<PF>, RegOp))
        ensures
            r.0.spec_digital_frequency() == self.spec_digital_frequency(),
            r.1 == (RegOp::Command { command: CMD_READY }),
    {
        (Ready::new(self.digital_frequency), RegOp::Command { command: CMD_READY })
    }
}

} // verus!
