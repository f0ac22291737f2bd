//! ECUReset, service `0x11`.

use crate::client::{command_bytes, SentFrame, UdsClient};
use crate::codes::ServiceId;
use crate::error::{DiagError, DiagErrorView};
use crate::pci::{PciByte, PciType};
use crate::socket_can::CanSocketTx;
use vstd::prelude::*;

verus! {

/// The service identifier of ECUReset.
pub const ECU_RESET: u8 = 0x11;

/// The first of the reset targets.
pub const FIRST_RESET_TARGET: u8 = 0x40;

/// The last of the reset targets.
pub const LAST_RESET_TARGET: u8 = 0x47;

/// Whether `sub_id` names one of the eight reset targets.
pub open spec fn is_reset_target(sub_id: u8) -> bool {
    FIRST_RESET_TARGET <= sub_id <= LAST_RESET_TARGET
}

impl<T: CanSocketTx> UdsClient<T> {
    /// Requests a reset of the target `sub_id`: a single frame of size 2
    /// with the service identifier and the target. A `sub_id` that names no
    /// target is refused and nothing is sent.
    pub fn uds_reset_ecu(&mut self, sub_id: u8) -> (r: Result<(), DiagError>)
        ensures
            final(self).spec_id() == old(self).spec_id(),
            is_reset_target(sub_id) ==> {
                &&& final(self).handed() == old(self).handed().push(
                    SentFrame {
                        id: old(self).spec_id(),
                        data: command_bytes(0x02, ECU_RESET, seq![sub_id]),
                    },
                )
                &&& r is Err ==> r->Err_0@ == DiagErrorView::ChannelError
            },
            !is_reset_target(sub_id) ==> {
                &&& final(self).handed() == old(self).handed()
                &&& r is Err
                &&& r->Err_0@ == DiagErrorView::ParameterInvalid
            },
    {
        if sub_id < FIRST_RESET_TARGET || sub_id > LAST_RESET_TARGET {
            return Err(DiagError::ParameterInvalid);
        }
        let pci_byte = PciByte::new(PciType::SingleFrame, 2);
        assert(2u8 & 0x0F == 2u8) by (bit_vector);
        let args: [u8; 1] = [sub_id];
        assert(args@ =~= seq![sub_id]);
        self.send_command(pci_byte.as_byte(), ServiceId::ecu_reset().byte(), args.as_slice())
    }
}

} // verus!
