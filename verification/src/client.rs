//! The client: a transmit channel bound to a request identifier.

use crate::error::{DiagError, DiagErrorView};
use crate::frame::UdsFrame;
use crate::response::{view_of, Response, ResponseSlot};
use crate::socket_can::{extended_id, CanSocketTx, MAX_EXTENDED_ID};
use vstd::prelude::*;

verus! {

/// One frame as the client hands it to its channel.
pub ghost struct SentFrame {
    /// The identifier it goes under.
    pub id: u32,
    /// Its payload.
    pub data: Seq<u8>,
}

/// A diagnostic client. It owns the transmit half of a CAN adapter and
/// sends every request under one extended identifier.
pub struct UdsClient<T: CanSocketTx> {
    channel: T,
    id: u32,
    handed: Ghost<Seq<SentFrame>>,
}

/// What a request of a service identifier and its arguments looks like on
/// the wire: the PCI byte, the service identifier, the arguments.
pub open spec fn command_bytes(pci: u8, cmd: u8, args: Seq<u8>) -> Seq<u8> {
    seq![pci, cmd] + args
}

/// What the client makes of its channel's answer: success stays success,
/// and every failure is a channel error.
pub open spec fn transmit_outcome(sent: Result<(), DiagError>) -> Result<(), DiagErrorView> {
    match sent {
        Ok(()) => Ok(()),
        Err(_) => Err(DiagErrorView::ChannelError),
    }
}

/// The view of a result that carries nothing on success.
pub open spec fn outcome_view(r: Result<(), DiagError>) -> Result<(), DiagErrorView> {
    match r {
        Ok(()) => Ok(()),
        Err(e) => Err(e@),
    }
}

/// What the client makes of its channel's answer: success stays success,
/// and every failure is reported as a channel error.
pub fn report_transmit(sent: Result<(), DiagError>) -> (r: Result<(), DiagError>)
    ensures
        outcome_view(r) == transmit_outcome(sent),
{
    match sent {
        Ok(()) => Ok(()),
        Err(_) => Err(DiagError::ChannelError),
    }
}

impl<T: CanSocketTx> UdsClient<T> {
    /// The request identifier.
    pub closed spec fn spec_id(&self) -> u32 {
        self.id
    }

    /// Every frame that the client has handed to its channel, oldest first,
    /// whether or not the channel could send it.
    pub closed spec fn handed(&self) -> Seq<SentFrame> {
        self.handed@
    }

    /// The channel.
    pub closed spec fn spec_channel(&self) -> T {
        self.channel
    }

    /// A client that sends over `channel` under the 29-bit identifier `id`.
    pub fn new(channel: T, id: u32) -> (r: Self)
        requires
            id <= MAX_EXTENDED_ID,
        ensures
            r.spec_id() == id,
            r.spec_channel() == channel,
            r.handed() == Seq::<SentFrame>::empty(),
    {
        match extended_id(id) {
            Some(id) => Self { channel, id, handed: Ghost(Seq::empty()) },
            None => vstd::pervasive::unreached(),
        }
    }

    /// The request identifier.
    #[verifier::when_used_as_spec(spec_id)]
    pub fn id(&self) -> (r: u32)
        ensures
            r == self.spec_id(),
    {
        self.id
    }

    /// The channel.
    pub fn channel(&self) -> (r: &T)
        ensures
            *r == self.spec_channel(),
    {
        &self.channel
    }

    /// Gives the channel back.
    pub fn into_channel(self) -> (r: T)
        ensures
            r == self.spec_channel(),
    {
        self.channel
    }

    /// Hands `data` to the channel as one frame under the client's
    /// identifier. A failure of the channel is reported as a channel error.
    pub fn send_raw(&mut self, data: &[u8]) -> (r: Result<(), DiagError>)
        ensures
            final(self).spec_id() == old(self).spec_id(),
            final(self).handed() == old(self).handed().push(
                SentFrame { id: old(self).spec_id(), data: data@ },
            ),
            r is Err ==> r->Err_0@ == DiagErrorView::ChannelError,
    {
        let sent = self.channel.transmit(self.id, data);
        proof {
            self.handed@ = self.handed@.push(SentFrame { id: self.id, data: data@ });
        }
        report_transmit(sent)
    }

    /// Sends a request: the PCI byte, the service identifier `cmd` and the
    /// arguments, as one frame.
    pub fn send_command(&mut self, pci: u8, cmd: u8, args: &[u8]) -> (r: Result<(), DiagError>)
        ensures
            final(self).spec_id() == old(self).spec_id(),
            final(self).handed() == old(self).handed().push(
                SentFrame { id: old(self).spec_id(), data: command_bytes(pci, cmd, args@) },
            ),
            r is Err ==> r->Err_0@ == DiagErrorView::ChannelError,
    {
        let mut data: Vec<u8> = Vec::new();
        data.push(pci);
        data.push(cmd);
        let mut i: usize = 0;
        while i < args.len()
            invariant
                i <= args.len(),
                data@ == command_bytes(pci, cmd, args@.take(i as int)),
            decreases args.len() - i,
        {
            data.push(args[i]);
            i += 1;
        }
        assert(args@.take(args.len() as int) == args@);
        self.send_raw(data.as_slice())
    }

    /// Encodes `frame` and sends it. A frame that cannot be encoded is
    /// refused as a wrong message and nothing is handed to the channel.
    pub fn send_frame(&mut self, frame: UdsFrame) -> (r: Result<(), DiagError>)
        ensures
            final(self).spec_id() == old(self).spec_id(),
            frame@.encode() matches Ok(bytes) ==> {
                &&& final(self).handed() == old(self).handed().push(
                    SentFrame { id: old(self).spec_id(), data: bytes },
                )
                &&& r is Err ==> r->Err_0@ == DiagErrorView::ChannelError
            },
            frame@.encode() is Err ==> {
                &&& final(self).handed() == old(self).handed()
                &&& r is Err
                &&& r->Err_0@ == DiagErrorView::WrongMessage { want: None, received: None }
            },
    {
        match frame.to_vec() {
            Ok(data) => self.send_raw(data.as_slice()),
            Err(_) => Err(DiagError::WrongMessage { want: None, received: None }),
        }
    }

    /// One visit to the response slot while waiting for an answer: see
    /// [`ResponseSlot::wait_for_response`].
    pub fn receive(
        &mut self,
        slot: &mut ResponseSlot,
        stash: &mut Option<Response>,
        timed_out: bool,
    ) -> (r: Option<Response>)
        ensures
            final(self).spec_id() == old(self).spec_id(),
            final(self).handed() == old(self).handed(),
            final(slot)@ == old(slot)@.wait_step(view_of(*old(stash)), timed_out).slot,
            view_of(*final(stash)) == old(slot)@.wait_step(view_of(*old(stash)), timed_out).stash,
            view_of(r) == old(slot)@.wait_step(view_of(*old(stash)), timed_out).result,
    {
        slot.wait_for_response(stash, timed_out)
    }
}

} // verus!
