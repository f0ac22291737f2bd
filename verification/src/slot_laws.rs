//! What holds of the response slot over several arrivals and visits.

use crate::codes::{is_response_code, is_service_id, NEGATIVE_RESPONSE, RESPONSE_PENDING};
use crate::error::DiagErrorView;
use crate::response::{response_of, ResponseView, SlotView};
use vstd::prelude::*;

verus! {

/// The last update wins. Of two arrivals that no waiter came between, the
/// slot keeps the second alone, and the next visit of a waiter observes it:
/// it is returned, or kept as the deferred answer where it is one.
pub proof fn lemma_last_update_wins(
    slot: SlotView,
    x: Seq<u8>,
    y: Seq<u8>,
    stash: Option<ResponseView>,
    timed_out: bool,
)
    ensures
        slot.updated(x).updated(y) == slot.updated(y),
        !response_of(y).is_pending() ==> slot.updated(x).updated(y).wait_step(
            stash,
            timed_out,
        ).result == Some(response_of(y)),
        response_of(y).is_pending() ==> slot.updated(x).updated(y).wait_step(
            stash,
            timed_out,
        ).stash == Some(response_of(y)),
{
}

/// A deferred answer is never returned while the time lasts: the waiter
/// keeps it, in place of any it kept before, and goes on waiting.
pub proof fn lemma_deferred_is_kept(
    slot: SlotView,
    p: Seq<u8>,
    stash: Option<ResponseView>,
    timed_out: bool,
)
    requires
        response_of(p).is_pending(),
    ensures
        slot.updated(p).wait_step(stash, timed_out).result is None,
        slot.updated(p).wait_step(stash, timed_out).stash == Some(response_of(p)),
        !slot.updated(p).wait_step(stash, timed_out).slot.notified,
{
}

/// Any response that is no deferred answer ends the wait at once, whatever
/// the waiter kept.
pub proof fn lemma_answer_is_returned(
    slot: SlotView,
    v: Seq<u8>,
    stash: Option<ResponseView>,
    timed_out: bool,
)
    requires
        !response_of(v).is_pending(),
    ensures
        slot.updated(v).wait_step(stash, timed_out).result == Some(response_of(v)),
{
}

/// Pending retry, first half. Where a deferred answer arrives and then any
/// other response before the time runs out, the wait returns that response:
/// not the deferred answer and not a timeout.
pub proof fn lemma_pending_then_answer(slot: SlotView, p: Seq<u8>, v: Seq<u8>)
    requires
        response_of(p).is_pending(),
        !response_of(v).is_pending(),
    ensures
        ({
            let first = slot.updated(p).wait_step(None, false);
            let second = first.slot.updated(v).wait_step(first.stash, false);
            &&& first.result is None
            &&& second.result == Some(response_of(v))
            &&& second.result != Some(response_of(p))
            &&& second.result != Some(ResponseView::Error(DiagErrorView::Timeout))
        }),
{
}

/// Pending retry, second half. Where only a deferred answer arrives and the
/// time runs out, the wait returns the deferred answer, not a timeout.
pub proof fn lemma_pending_then_timeout(slot: SlotView, p: Seq<u8>)
    requires
        response_of(p).is_pending(),
    ensures
        ({
            let first = slot.updated(p).wait_step(None, false);
            let second = first.slot.wait_step(first.stash, true);
            &&& first.result is None
            &&& second.result == Some(response_of(p))
            &&& second.result != Some(ResponseView::Error(DiagErrorView::Timeout))
        }),
{
}

/// Where nothing arrives and the time runs out, the wait returns a timeout.
pub proof fn lemma_timeout_without_answer(slot: SlotView)
    requires
        !slot.notified,
    ensures
        slot.wait_step(None, true).result == Some(ResponseView::Error(DiagErrorView::Timeout)),
        slot.wait_step(None, false).result is None,
{
}

/// The bytes of a deferred answer: a single-frame layout with `0x7F` for
/// the service identifier, a service that the tables know, and the code
/// `0x78`, which the tables know.
pub proof fn lemma_pending_bytes(data: Seq<u8>)
    requires
        data.len() >= 4,
        data[0] >> 4 == 0,
        data[1] == NEGATIVE_RESPONSE,
        is_service_id(data[2]),
        data[3] == RESPONSE_PENDING,
        is_response_code(RESPONSE_PENDING),
    ensures
        response_of(data).is_pending(),
        response_of(data) == ResponseView::Error(
            DiagErrorView::ECUError { code: RESPONSE_PENDING, rsid: data[2], def: None },
        ),
{
}

} // verus!
