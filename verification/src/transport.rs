//! The receiving half of a segmented transfer: a first frame announces the
//! length, consecutive frames bring the rest in numbered order.
//!
//! The machine only decides. Whoever runs it waits for each response, hands
//! it in, and sends a flow control frame when the machine asks for one.

use crate::error::{DiagError, DiagErrorView};
use crate::frame::{
    FirstFrameView, FlowControlFrameView, FrameView, UdsFirstFrame, UdsFlowControlFrame, UdsFrame,
};
use crate::response::{Response, ResponseView};
use vstd::prelude::*;

verus! {

/// The flag of a flow control frame that lets the sender continue.
pub const FLOW_CONTINUE: u8 = 0x00;

/// The block size that asks for no further flow control.
pub const BLOCK_SIZE_UNLIMITED: u8 = 0x00;

/// The separation time that the receiver asks for.
pub const SEPARATION_TIME: u8 = 0x7F;

/// The sequence number that follows `prev`: one more, and 0 after 15.
pub open spec fn next_seq(prev: u8) -> u8 {
    if prev == 15 {
        0u8
    } else {
        (prev + 1) as u8
    }
}

/// The flow control frame with which the receiver answers a first frame:
/// continue, no block limit, separation time `0x7F`, no padding.
pub open spec fn flow_control_view() -> FlowControlFrameView {
    FlowControlFrameView {
        flag: FLOW_CONTINUE,
        block_size: BLOCK_SIZE_UNLIMITED,
        separation_time: SEPARATION_TIME,
        padding: Seq::empty(),
    }
}

/// What a [`MultiFrameReceiver`] holds.
pub ghost struct ReceiverView {
    /// The bytes that are still owed: the announced length less all payload
    /// received. Negative where more has come than was announced.
    pub remaining: int,
    /// The sequence number of the last consecutive frame, 0 after a first
    /// frame.
    pub prev_seq: u8,
}

/// What the receiver does with one response.
pub ghost enum ReceiveStepView {
    /// It goes on waiting, in the given state.
    Continue(ReceiverView),
    /// A new first frame has come: it sends a flow control frame and goes on
    /// waiting, in the given state.
    Restart(ReceiverView),
    /// The transfer is over, well or not.
    Done(Result<(), DiagErrorView>),
}

impl ReceiverView {
    /// The state after a first frame.
    pub open spec fn start(first: FirstFrameView) -> ReceiverView {
        ReceiverView { remaining: first.size - first.payload.len(), prev_seq: 0 }
    }

    /// What the receiver does with `response`.
    ///
    /// A consecutive frame is counted, and has to carry the next sequence
    /// number. A first frame starts a new stream. Any other frame is passed
    /// over. An error ends the transfer: well where nothing is owed and
    /// nothing has come in excess.
    pub open spec fn step(self, response: ResponseView) -> ReceiveStepView {
        match response {
            ResponseView::Frame(FrameView::Consecutive(c)) => {
                if c.seq_num == next_seq(self.prev_seq) {
                    ReceiveStepView::Continue(
                        ReceiverView {
                            remaining: self.remaining - c.payload.len(),
                            prev_seq: c.seq_num,
                        },
                    )
                } else {
                    ReceiveStepView::Done(Err(DiagErrorView::InvalidResponseLength))
                }
            },
            ResponseView::Frame(FrameView::First(f)) => ReceiveStepView::Restart(
                ReceiverView::start(f),
            ),
            ResponseView::Frame(_) => ReceiveStepView::Continue(self),
            ResponseView::Error(_) => ReceiveStepView::Done(
                if self.remaining == 0 {
                    Ok(())
                } else {
                    Err(DiagErrorView::InvalidResponseLength)
                },
            ),
        }
    }
}

/// The service identifier that a frame carries, if its kind has one.
pub open spec fn carried_service(frame: FrameView) -> Option<u8> {
    match frame {
        FrameView::Single(f) => Some(f.sid),
        FrameView::First(f) => Some(f.sid),
        _ => None,
    }
}

/// How a transfer begins with the answer to the request: a first frame
/// starts the receiver, anything else is a wrong message.
pub open spec fn begin(frame: FrameView) -> Result<ReceiverView, DiagErrorView> {
    match frame {
        FrameView::First(f) => Ok(ReceiverView::start(f)),
        _ => Err(DiagErrorView::WrongMessage { want: None, received: carried_service(frame) }),
    }
}

/// The state of a segmented transfer on the receiving side.
pub struct MultiFrameReceiver {
    remaining: Option<usize>,
    prev_seq: u8,
    owed: Ghost<int>,
}

impl View for MultiFrameReceiver {
    type V = ReceiverView;

    closed spec fn view(&self) -> ReceiverView {
        ReceiverView { remaining: self.owed@, prev_seq: self.prev_seq }
    }
}

/// What the caller has to do after handing a response to the receiver.
#[derive(Debug, PartialEq)]
pub enum ReceiveStep {
    /// Wait for the next response.
    Continue,
    /// Send a flow control frame, then wait for the next response.
    SendFlowControl,
    /// Stop: the transfer is over with this outcome.
    Done(Result<(), DiagError>),
}

/// The bytes still owed after `len` more have come, where `None` stands for
/// an excess.
fn take_off(remaining: Option<usize>, len: usize) -> (r: Option<usize>)
    ensures
        r == match remaining {
            Some(owed) => if len <= owed {
                Some((owed - len) as usize)
            } else {
                None
            },
            None => None,
        },
{
    match remaining {
        Some(owed) => if len <= owed {
            Some(owed - len)
        } else {
            None
        },
        None => None,
    }
}

impl MultiFrameReceiver {
    #[verifier::type_invariant]
    spec fn inv(self) -> bool {
        &&& self.prev_seq < 16
        &&& self.remaining matches Some(owed) ==> self.owed@ == owed
        &&& self.remaining is None ==> self.owed@ < 0
    }

    /// The flow control frame with which the receiver answers a first
    /// frame.
    pub fn flow_control() -> (r: UdsFlowControlFrame)
        ensures
            r@ == flow_control_view(),
    {
        UdsFlowControlFrame {
            flag: FLOW_CONTINUE,
            block_size: BLOCK_SIZE_UNLIMITED,
            separation_time: SEPARATION_TIME,
            padding: Vec::new(),
        }
    }

    /// The receiver after the first frame `first`.
    fn after_first(first: &UdsFirstFrame) -> (r: Self)
        ensures
            r@ == ReceiverView::start(first@),
    {
        MultiFrameReceiver {
            remaining: take_off(Some(first.size as usize), first.payload.len()),
            prev_seq: 0,
            owed: Ghost(first.size - first.payload.len()),
        }
    }

    /// Begins a transfer with the answer to the request. Only a first frame
    /// begins one; any other frame is a wrong message.
    pub fn start(response: &UdsFrame) -> (r: Result<Self, DiagError>)
        ensures
            r is Ok == begin(response@) is Ok,
            r matches Ok(receiver) ==> begin(response@) == Ok::<ReceiverView, DiagErrorView>(
                receiver@,
            ),
            r matches Err(e) ==> begin(response@) == Err::<ReceiverView, DiagErrorView>(e@),
    {
        match response {
            UdsFrame::First(first) => Ok(Self::after_first(first)),
            UdsFrame::Single(single) => Err(
                DiagError::WrongMessage { want: None, received: Some(single.sid) },
            ),
            _ => Err(DiagError::WrongMessage { want: None, received: None }),
        }
    }

    /// The bytes that are still owed; nothing where more has come than was
    /// announced.
    pub fn remaining(&self) -> (r: Option<usize>)
        ensures
            self@.remaining >= 0 ==> r == Some(self@.remaining as usize),
            self@.remaining < 0 ==> r is None,
    {
        proof {
            use_type_invariant(self);
        }
        self.remaining
    }

    /// The sequence number of the last consecutive frame, 0 after a first
    /// frame.
    pub fn prev_seq(&self) -> (r: u8)
        ensures
            r == self@.prev_seq,
            r < 16,
    {
        proof {
            use_type_invariant(self);
        }
        self.prev_seq
    }

    /// Takes one response in and says what to do next.
    pub fn on_response(&mut self, response: &Response) -> (r: ReceiveStep)
        ensures
            match old(self)@.step(response@) {
                ReceiveStepView::Continue(next) => r == ReceiveStep::Continue && final(self)@
                    == next,
                ReceiveStepView::Restart(next) => r == ReceiveStep::SendFlowControl && final(self)@
                    == next,
                ReceiveStepView::Done(outcome) => {
                    &&& final(self)@ == old(self)@
                    &&& r matches ReceiveStep::Done(res)
                    &&& crate::client::outcome_view(res) == outcome
                },
            },
    {
        proof {
            use_type_invariant(&*self);
        }
        match response {
            Response::Frame(UdsFrame::Consecutive(frame)) => {
                let expected: u8 = if self.prev_seq == 15 {
                    0
                } else {
                    self.prev_seq + 1
                };
                if frame.seq_num != expected {
                    return ReceiveStep::Done(Err(DiagError::InvalidResponseLength));
                }
                let remaining = take_off(self.remaining, frame.payload.len());
                let ghost owed = self.owed@ - frame.payload.len();
                *self = MultiFrameReceiver { remaining, prev_seq: frame.seq_num, owed: Ghost(owed) };
                ReceiveStep::Continue
            },
            Response::Frame(UdsFrame::First(first)) => {
                *self = Self::after_first(first);
                ReceiveStep::SendFlowControl
            },
            Response::Frame(_) => ReceiveStep::Continue,
            Response::Error(_) => {
                let done = match self.remaining {
                    Some(0) => Ok(()),
                    _ => Err(DiagError::InvalidResponseLength),
                };
                ReceiveStep::Done(done)
            },
        }
    }
}

} // verus!
