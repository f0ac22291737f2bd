//! The response slot: the one place where the receiving side leaves what
//! arrived and the requesting side picks it up.
//!
//! The slot itself never blocks. Whoever waits suspends by its own means (a
//! condition variable, an async notification, a timer) and comes back to the
//! slot each time it is woken or its timer runs out.

use crate::codes::RESPONSE_PENDING;
use crate::error::{DiagError, DiagErrorView};
use crate::frame::{decode, FrameError, FrameView, UdsFrame};
use vstd::prelude::*;

verus! {

/// What the ECU answered, or why there is no answer.
#[derive(Debug, PartialEq)]
pub enum Response {
    /// A frame arrived.
    Frame(UdsFrame),
    /// The request failed.
    Error(DiagError),
}

/// What a [`Response`] holds.
pub ghost enum ResponseView {
    Frame(FrameView),
    Error(DiagErrorView),
}

impl View for Response {
    type V = ResponseView;

    open spec fn view(&self) -> ResponseView {
        match self {
            Response::Frame(f) => ResponseView::Frame(f@),
            Response::Error(e) => ResponseView::Error(e@),
        }
    }
}

impl ResponseView {
    /// Whether the ECU has only deferred its answer: a negative response
    /// with the code RequestCorrectlyReceivedResponsePending.
    pub open spec fn is_pending(self) -> bool {
        self matches ResponseView::Error(DiagErrorView::ECUError { code, .. }) && code
            == RESPONSE_PENDING
    }

    /// The frame, or the error in its place.
    pub open spec fn into_result(self) -> Result<FrameView, DiagErrorView> {
        match self {
            ResponseView::Frame(f) => Ok(f),
            ResponseView::Error(e) => Err(e),
        }
    }
}

/// The response that the bytes of one CAN payload stand for. A frame stands
/// for itself, except the negative response, which is the ECU's error; bytes
/// that are no frame are a frame error.
pub open spec fn response_of(data: Seq<u8>) -> ResponseView {
    response_of_decoded(decode(data))
}

/// The response that a decoded payload stands for.
pub open spec fn response_of_decoded(decoded: Result<FrameView, FrameError>) -> ResponseView {
    match decoded {
        Ok(FrameView::NegativeResp(n)) => ResponseView::Error(
            DiagErrorView::ECUError { code: n.nrc, rsid: n.rsid, def: None },
        ),
        Ok(f) => ResponseView::Frame(f),
        Err(e) => ResponseView::Error(DiagErrorView::FrameError { error: e }),
    }
}

impl Clone for Response {
    fn clone(&self) -> (r: Self)
        ensures
            r@ == self@,
    {
        match self {
            Response::Frame(f) => Response::Frame(f.clone()),
            Response::Error(e) => Response::Error(e.clone()),
        }
    }
}

impl Response {
    /// The response that the bytes of one CAN payload stand for.
    pub fn from_vec(data: Vec<u8>) -> (r: Self)
        ensures
            r@ == response_of(data@),
    {
        Self::from_decoded(UdsFrame::from_vec(data))
    }

    /// The response that a decoded payload stands for: a frame stands for
    /// itself, except the negative response, which is the ECU's error; a
    /// payload that is no frame is a frame error.
    pub fn from_decoded(decoded: Result<UdsFrame, FrameError>) -> (r: Self)
        ensures
            r@ == response_of_decoded(
                match decoded {
                    Ok(f) => Ok(f@),
                    Err(e) => Err(e),
                },
            ),
    {
        match decoded {
            Ok(UdsFrame::NegativeResp(n)) => Response::Error(
                DiagError::ECUError { code: n.nrc, rsid: n.rsid, def: None },
            ),
            Ok(frame) => Response::Frame(frame),
            Err(error) => Response::Error(DiagError::FrameError { error }),
        }
    }

    /// Whether the ECU has only deferred its answer.
    pub fn is_pending(&self) -> (r: bool)
        ensures
            r == self@.is_pending(),
    {
        match self {
            Response::Error(DiagError::ECUError { code, .. }) => code.is_pending(),
            _ => false,
        }
    }

    /// The frame, or the error in its place.
    pub fn into_result(self) -> (r: Result<UdsFrame, DiagError>)
        ensures
            r is Ok == self@ is Frame,
            r matches Ok(f) ==> self@ == ResponseView::Frame(f@),
            r matches Err(e) ==> self@ == ResponseView::Error(e@),
    {
        match self {
            Response::Frame(frame) => Ok(frame),
            Response::Error(e) => Err(e),
        }
    }
}

/// The time a waiter allows for a response where none is configured, in
/// milliseconds.
pub const DEFAULT_TIMEOUT_MS: u64 = 1000;

/// A cell for the latest response with a wake signal and the time that a
/// waiter allows.
pub struct ResponseSlot {
    current: Response,
    notified: bool,
    timeout_ms: u64,
}

/// What a [`ResponseSlot`] holds.
pub ghost struct SlotView {
    /// The latest response.
    pub current: ResponseView,
    /// Whether a response has arrived that no waiter has taken yet.
    pub notified: bool,
    /// The time a waiter allows, in milliseconds.
    pub timeout_ms: u64,
}

/// What one visit of a waiter to the slot leaves behind and yields.
pub ghost struct WaitStep {
    /// The slot after the visit.
    pub slot: SlotView,
    /// The deferred answer that the waiter keeps.
    pub stash: Option<ResponseView>,
    /// The response to return, or nothing where the waiter goes on waiting.
    pub result: Option<ResponseView>,
}

impl SlotView {
    /// A slot that nothing has arrived in.
    pub open spec fn fresh(timeout_ms: Option<u64>) -> SlotView {
        SlotView {
            current: ResponseView::Error(DiagErrorView::NotSupported),
            notified: false,
            timeout_ms: match timeout_ms {
                Some(t) => t,
                None => DEFAULT_TIMEOUT_MS,
            },
        }
    }

    /// The slot after the bytes of one CAN payload have arrived: it holds
    /// their response, whatever it held, and the wake signal is set.
    pub open spec fn updated(self, data: Seq<u8>) -> SlotView {
        SlotView { current: response_of(data), notified: true, ..self }
    }

    /// The slot after a waiter has taken the wake signal.
    pub open spec fn taken(self) -> SlotView {
        SlotView { notified: false, ..self }
    }

    /// One visit of a waiter that keeps the deferred answer `stash`.
    ///
    /// Where the wake signal is set, the waiter takes it and reads the
    /// current response: a deferred answer is kept and the wait goes on, any
    /// other response is returned. Where it is not set and the time has run
    /// out, the waiter returns the deferred answer it kept, or a timeout
    /// where it kept none. Otherwise it goes on waiting.
    pub open spec fn wait_step(self, stash: Option<ResponseView>, timed_out: bool) -> WaitStep {
        if self.notified {
            if self.current.is_pending() {
                WaitStep { slot: self.taken(), stash: Some(self.current), result: None }
            } else {
                WaitStep { slot: self.taken(), stash, result: Some(self.current) }
            }
        } else if timed_out {
            WaitStep {
                slot: self,
                stash: None,
                result: Some(
                    match stash {
                        Some(kept) => kept,
                        None => ResponseView::Error(DiagErrorView::Timeout),
                    },
                ),
            }
        } else {
            WaitStep { slot: self, stash, result: None }
        }
    }
}

/// Maps the view of an optional response.
pub open spec fn view_of(r: Option<Response>) -> Option<ResponseView> {
    match r {
        Some(resp) => Some(resp@),
        None => None,
    }
}

impl View for ResponseSlot {
    type V = SlotView;

    closed spec fn view(&self) -> SlotView {
        SlotView { current: self.current@, notified: self.notified, timeout_ms: self.timeout_ms }
    }
}

impl Default for ResponseSlot {
    fn default() -> (r: Self)
        ensures
            r@ == SlotView::fresh(None),
    {
        Self::new(None)
    }
}

impl ResponseSlot {
    /// A slot that nothing has arrived in. A waiter allows `timeout_ms`
    /// milliseconds, or 1000 where none is given.
    pub fn new(timeout_ms: Option<u64>) -> (r: Self)
        ensures
            r@ == SlotView::fresh(timeout_ms),
    {
        Self {
            current: Response::Error(DiagError::NotSupported),
            notified: false,
            timeout_ms: match timeout_ms {
                Some(t) => t,
                None => DEFAULT_TIMEOUT_MS,
            },
        }
    }

    /// The time a waiter allows, in milliseconds.
    pub fn timeout_ms(&self) -> (r: u64)
        ensures
            r == self@.timeout_ms,
    {
        self.timeout_ms
    }

    /// Whether a response has arrived that no waiter has taken yet.
    pub fn is_notified(&self) -> (r: bool)
        ensures
            r == self@.notified,
    {
        self.notified
    }

    /// Stores the response that the bytes of one CAN payload stand for, in
    /// place of whatever was there, and sets the wake signal.
    pub fn update_response(&mut self, new_data: Vec<u8>)
        ensures
            final(self)@ == old(self)@.updated(new_data@),
    {
        self.current = Response::from_vec(new_data);
        self.notified = true;
    }

    /// Takes the wake signal and returns the current response, whatever it
    /// is. Returns nothing where no response has arrived since the signal
    /// was last taken: the caller has to wait for its wake.
    pub fn get(&mut self) -> (r: Option<Response>)
        ensures
            final(self)@ == old(self)@.taken(),
            view_of(r) == if old(self)@.notified {
                Some(old(self)@.current)
            } else {
                None
            },
    {
        if self.notified {
            self.notified = false;
            Some(self.current.clone())
        } else {
            None
        }
    }

    /// One visit of a waiter, made when it was woken or when its time ran
    /// out (`timed_out`). `stash` is the deferred answer that the waiter
    /// keeps between visits; a new wait starts with none.
    ///
    /// Returns the response that ends the wait, or nothing where the waiter
    /// has to suspend again, allowing the full time anew.
    pub fn wait_for_response(&mut self, stash: &mut Option<Response>, timed_out: bool) -> (r:
        Option<Response>)
        ensures
            final(self)@ == old(self)@.wait_step(view_of(*old(stash)), timed_out).slot,
            view_of(*final(stash)) == old(self)@.wait_step(view_of(*old(stash)), timed_out).stash,
            view_of(r) == old(self)@.wait_step(view_of(*old(stash)), timed_out).result,
    {
        if self.notified {
            self.notified = false;
            let seen = self.current.clone();
            if seen.is_pending() {
                *stash = Some(seen);
                None
            } else {
                Some(seen)
            }
        } else if timed_out {
            match stash.take() {
                Some(kept) => Some(kept),
                None => Some(Response::Error(DiagError::Timeout)),
            }
        } else {
            None
        }
    }
}

} // verus!
