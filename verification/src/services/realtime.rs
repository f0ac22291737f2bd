//! ReadDataByPeriodicIdentifier, service `0x2A`: the ECU sends a data
//! record again and again at a chosen rate, as a segmented message.

use crate::client::{command_bytes, outcome_view, SentFrame, UdsClient};
use crate::codes::ServiceId;
use crate::error::{DiagError, DiagErrorView};
use crate::frame::UdsFrame;
use crate::pci::{PciByte, PciType};
use crate::response::Response;
use crate::socket_can::CanSocketTx;
use crate::transport::{
    begin, flow_control_view, MultiFrameReceiver, ReceiveStep, ReceiveStepView,
};
use vstd::prelude::*;
use vstd::std_specs::convert::FromSpecImpl;

verus! {

/// The service identifier of ReadDataByPeriodicIdentifier.
pub const READ_DATA_BY_PERIODIC_IDENTIFIER: u8 = 0x2A;

/// The periodic data identifier that is read.
pub const PERIODIC_DATA_ID: u8 = 0xB0;

/// At which rate the ECU sends, or that it stops.
#[derive(Debug, Clone, Copy, PartialEq, Eq, Structural)]
pub enum RealTimeType {
    /// Every 30 seconds; `0x01`.
    SlowRate,
    /// Every 5 seconds; `0x02`.
    MediumRate,
    /// Every 100 milliseconds; `0x03`.
    FastRate,
    /// Stop sending; `0x04`.
    Stop,
}

impl RealTimeType {
    /// The transmission mode byte.
    pub open spec fn code(self) -> u8 {
        match self {
            RealTimeType::SlowRate => 0x01,
            RealTimeType::MediumRate => 0x02,
            RealTimeType::FastRate => 0x03,
            RealTimeType::Stop => 0x04,
        }
    }

    /// The rate that the low eight bits of `value` name, if they name one.
    pub open spec fn of_i32(value: i32) -> Option<RealTimeType> {
        if value & 0xFF == 0x01 {
            Some(RealTimeType::SlowRate)
        } else if value & 0xFF == 0x02 {
            Some(RealTimeType::MediumRate)
        } else if value & 0xFF == 0x03 {
            Some(RealTimeType::FastRate)
        } else if value & 0xFF == 0x04 {
            Some(RealTimeType::Stop)
        } else {
            None
        }
    }

    /// The rate that the low eight bits of `value` name, if they name one.
    pub fn try_from_i32(value: i32) -> (r: Result<Self, ()>)
        ensures
            r is Ok == Self::of_i32(value) is Some,
            r matches Ok(rate) ==> Self::of_i32(value) == Some(rate),
    {
        let low: i32 = value & 0xFF;
        if low == 0x01 {
            Ok(RealTimeType::SlowRate)
        } else if low == 0x02 {
            Ok(RealTimeType::MediumRate)
        } else if low == 0x03 {
            Ok(RealTimeType::FastRate)
        } else if low == 0x04 {
            Ok(RealTimeType::Stop)
        } else {
            Err(())
        }
    }
}

impl From<RealTimeType> for u8 {
    fn from(rt_type: RealTimeType) -> (r: u8) {
        match rt_type {
            RealTimeType::SlowRate => 0x01,
            RealTimeType::MediumRate => 0x02,
            RealTimeType::FastRate => 0x03,
            RealTimeType::Stop => 0x04,
        }
    }
}

impl FromSpecImpl<RealTimeType> for u8 {
    open spec fn obeys_from_spec() -> bool {
        true
    }

    open spec fn from_spec(rt_type: RealTimeType) -> u8 {
        rt_type.code()
    }
}

/// The request for a rate on the wire: a single frame of size 3 with the
/// service identifier, the transmission mode and the data identifier.
pub open spec fn periodic_request(rate: RealTimeType) -> Seq<u8> {
    command_bytes(0x03, READ_DATA_BY_PERIODIC_IDENTIFIER, seq![rate.code(), PERIODIC_DATA_ID])
}

impl<T: CanSocketTx> UdsClient<T> {
    /// Sends the request for `rate`.
    fn request_periodic(&mut self, rate: RealTimeType) -> (r: Result<(), DiagError>)
        ensures
            final(self).spec_id() == old(self).spec_id(),
            final(self).handed() == old(self).handed().push(
                SentFrame { id: old(self).spec_id(), data: periodic_request(rate) },
            ),
            r is Err ==> r->Err_0@ == DiagErrorView::ChannelError,
    {
        let pci_byte = PciByte::new(PciType::SingleFrame, 3);
        assert(3u8 & 0x0F == 3u8) by (bit_vector);
        let mode: u8 = u8::from(rate);
        let args: [u8; 2] = [mode, PERIODIC_DATA_ID];
        assert(args@ =~= seq![rate.code(), PERIODIC_DATA_ID]);
        self.send_command(
            pci_byte.as_byte(),
            ServiceId::read_data_by_periodic_identifier().byte(),
            args.as_slice(),
        )
    }

    /// Requests the periodic data at the slow rate.
    pub fn uds_real_time_data_slow(&mut self) -> (r: Result<(), DiagError>)
        ensures
            final(self).spec_id() == old(self).spec_id(),
            final(self).handed() == old(self).handed().push(
                SentFrame {
                    id: old(self).spec_id(),
                    data: periodic_request(RealTimeType::SlowRate),
                },
            ),
            r is Err ==> r->Err_0@ == DiagErrorView::ChannelError,
    {
        self.request_periodic(RealTimeType::SlowRate)
    }

    /// Requests the periodic data at the medium rate.
    pub fn uds_real_time_data_medium(&mut self) -> (r: Result<(), DiagError>)
        ensures
            final(self).spec_id() == old(self).spec_id(),
            final(self).handed() == old(self).handed().push(
                SentFrame {
                    id: old(self).spec_id(),
                    data: periodic_request(RealTimeType::MediumRate),
                },
            ),
            r is Err ==> r->Err_0@ == DiagErrorView::ChannelError,
    {
        self.request_periodic(RealTimeType::MediumRate)
    }

    /// Requests the periodic data at the fast rate.
    pub fn uds_real_time_data_fast(&mut self) -> (r: Result<(), DiagError>)
        ensures
            final(self).spec_id() == old(self).spec_id(),
            final(self).handed() == old(self).handed().push(
                SentFrame {
                    id: old(self).spec_id(),
                    data: periodic_request(RealTimeType::FastRate),
                },
            ),
            r is Err ==> r->Err_0@ == DiagErrorView::ChannelError,
    {
        self.request_periodic(RealTimeType::FastRate)
    }

    /// Asks the ECU to stop sending the periodic data.
    pub fn uds_real_time_data_stop(&mut self) -> (r: Result<(), DiagError>)
        ensures
            final(self).spec_id() == old(self).spec_id(),
            final(self).handed() == old(self).handed().push(
                SentFrame { id: old(self).spec_id(), data: periodic_request(RealTimeType::Stop) },
            ),
            r is Err ==> r->Err_0@ == DiagErrorView::ChannelError,
    {
        self.request_periodic(RealTimeType::Stop)
    }

    /// Begins to receive the periodic data with the answer to the request.
    /// A first frame is answered with a flow control frame and starts the
    /// receiver; any other frame is a wrong message and nothing is sent.
    pub fn real_time_data_begin(&mut self, response: UdsFrame) -> (r: Result<
        MultiFrameReceiver,
        DiagError,
    >)
        ensures
            final(self).spec_id() == old(self).spec_id(),
            begin(response@) matches Ok(state) ==> {
                &&& final(self).handed() == old(self).handed().push(
                    SentFrame { id: old(self).spec_id(), data: flow_control_view().encode() },
                )
                &&& r matches Ok(receiver) ==> receiver@ == state
                &&& r matches Err(e) ==> e@ == DiagErrorView::ChannelError
            },
            begin(response@) matches Err(refusal) ==> {
                &&& final(self).handed() == old(self).handed()
                &&& r matches Err(e)
                &&& e@ == refusal
            },
    {
        let receiver = MultiFrameReceiver::start(&response)?;
        self.send_frame(UdsFrame::FlowControl(MultiFrameReceiver::flow_control()))?;
        Ok(receiver)
    }

    /// Takes in one response while receiving the periodic data. Returns the
    /// outcome where the transfer is over, and nothing where the caller has
    /// to wait for the next response.
    ///
    /// A new first frame is answered with a flow control frame; where that
    /// cannot be sent, the transfer is over with a channel error.
    pub fn real_time_data_process(
        &mut self,
        receiver: &mut MultiFrameReceiver,
        response: &Response,
    ) -> (r: Option<Result<(), DiagError>>)
        ensures
            final(self).spec_id() == old(self).spec_id(),
            match old(receiver)@.step(response@) {
                ReceiveStepView::Continue(next) => {
                    &&& final(self).handed() == old(self).handed()
                    &&& final(receiver)@ == next
                    &&& r is None
                },
                ReceiveStepView::Restart(next) => {
                    &&& final(self).handed() == old(self).handed().push(
                        SentFrame { id: old(self).spec_id(), data: flow_control_view().encode() },
                    )
                    &&& final(receiver)@ == next
                    &&& r matches Some(res) ==> outcome_view(res) == Err::<(), DiagErrorView>(
                        DiagErrorView::ChannelError,
                    )
                },
                ReceiveStepView::Done(outcome) => {
                    &&& final(self).handed() == old(self).handed()
                    &&& final(receiver)@ == old(receiver)@
                    &&& r matches Some(res)
                    &&& outcome_view(res) == outcome
                },
            },
    {
        match receiver.on_response(response) {
            ReceiveStep::Continue => None,
            ReceiveStep::SendFlowControl => {
                match self.send_frame(UdsFrame::FlowControl(MultiFrameReceiver::flow_control())) {
                    Ok(()) => None,
                    Err(e) => Some(Err(e)),
                }
            },
            ReceiveStep::Done(outcome) => Some(outcome),
        }
    }
}

} // verus!
