//! What holds of a whole segmented transfer on the receiving side.

use crate::error::DiagErrorView;
use crate::frame::{ConsecutiveFrameView, FirstFrameView, FrameView};
use crate::response::ResponseView;
use crate::transport::{next_seq, ReceiveStepView, ReceiverView};
use vstd::prelude::*;

verus! {

/// The outcome of handing `responses` to the receiver one by one, starting
/// in `state`: what the first step that ends the transfer yields, or nothing
/// where none of them ends it.
pub open spec fn run(state: ReceiverView, responses: Seq<ResponseView>) -> Option<
    Result<(), DiagErrorView>,
>
    decreases responses.len(),
{
    if responses.len() == 0 {
        None
    } else {
        match state.step(responses[0]) {
            ReceiveStepView::Done(outcome) => Some(outcome),
            ReceiveStepView::Continue(next) => run(next, responses.skip(1)),
            ReceiveStepView::Restart(next) => run(next, responses.skip(1)),
        }
    }
}

/// All payload bytes of the consecutive frames together.
pub open spec fn total_len(frames: Seq<ConsecutiveFrameView>) -> int
    decreases frames.len(),
{
    if frames.len() == 0 {
        0
    } else {
        frames[0].payload.len() + total_len(frames.skip(1))
    }
}

/// Whether the frames are numbered in order after `prev`: each carries the
/// number after that of the one before it, and 0 comes after 15.
pub open spec fn in_sequence(prev: u8, frames: Seq<ConsecutiveFrameView>) -> bool
    decreases frames.len(),
{
    frames.len() == 0 || (frames[0].seq_num == next_seq(prev) && in_sequence(
        frames[0].seq_num,
        frames.skip(1),
    ))
}

/// The responses of a stream: the consecutive frames in their order, then
/// the error that ends the waiting (in practice the timeout of the slot).
pub open spec fn stream(frames: Seq<ConsecutiveFrameView>, end: DiagErrorView) -> Seq<
    ResponseView,
> {
    Seq::new(
        frames.len() + 1,
        |i: int|
            if i < frames.len() {
                ResponseView::Frame(FrameView::Consecutive(frames[i]))
            } else {
                ResponseView::Error(end)
            },
    )
}

/// The verdict on a stream that is received in a given state: well where
/// the frames are in sequence and bring exactly what is owed, and an invalid
/// response length otherwise.
pub open spec fn verdict(state: ReceiverView, frames: Seq<ConsecutiveFrameView>) -> Result<
    (),
    DiagErrorView,
> {
    if in_sequence(state.prev_seq, frames) && state.remaining == total_len(frames) {
        Ok(())
    } else {
        Err(DiagErrorView::InvalidResponseLength)
    }
}

/// From any state, the receiver's outcome on a stream is the verdict.
pub proof fn lemma_run_stream(
    state: ReceiverView,
    frames: Seq<ConsecutiveFrameView>,
    end: DiagErrorView,
)
    ensures
        run(state, stream(frames, end)) == Some(verdict(state, frames)),
    decreases frames.len(),
{
    let responses = stream(frames, end);
    if frames.len() == 0 {
        assert(responses[0] == ResponseView::Error(end));
    } else {
        let c = frames[0];
        assert(responses[0] == ResponseView::Frame(FrameView::Consecutive(c)));
        assert(responses.skip(1) =~= stream(frames.skip(1), end));
        if c.seq_num == next_seq(state.prev_seq) {
            let next = ReceiverView {
                remaining: state.remaining - c.payload.len(),
                prev_seq: c.seq_num,
            };
            lemma_run_stream(next, frames.skip(1), end);
        }
    }
}

/// Sequence discipline. After a first frame the receiver accepts a stream
/// of consecutive frames if and only if they are numbered in order from 1
/// and bring exactly the bytes that the first frame left owed. Every other
/// stream yields an invalid response length.
pub proof fn lemma_sequence_discipline(
    first: FirstFrameView,
    frames: Seq<ConsecutiveFrameView>,
    end: DiagErrorView,
)
    ensures
        run(ReceiverView::start(first), stream(frames, end)) == Some(Ok::<(), DiagErrorView>(()))
            <==> in_sequence(0, frames) && first.size == first.payload.len() + total_len(frames),
        run(ReceiverView::start(first), stream(frames, end)) != Some(Ok::<(), DiagErrorView>(()))
            ==> run(ReceiverView::start(first), stream(frames, end)) == Some(
            Err::<(), DiagErrorView>(DiagErrorView::InvalidResponseLength),
        ),
{
    lemma_run_stream(ReceiverView::start(first), frames, end);
}

/// Size accounting. Where the receiver accepts a first frame and the
/// consecutive frames after it, the announced size is the payload of the
/// first frame and of all consecutive frames together.
pub proof fn lemma_size_accounting(
    first: FirstFrameView,
    frames: Seq<ConsecutiveFrameView>,
    end: DiagErrorView,
)
    requires
        run(ReceiverView::start(first), stream(frames, end)) == Some(Ok::<(), DiagErrorView>(())),
    ensures
        first.size == first.payload.len() + total_len(frames),
{
    lemma_sequence_discipline(first, frames, end);
}

/// Counting on from the number after `prev` is counting one further from
/// `prev`.
proof fn lemma_wheel(prev: u8, i: int)
    requires
        prev < 16,
        0 <= i,
    ensures
        (next_seq(prev) + i + 1) % 16 == (prev + (i + 1) + 1) % 16,
{
    if prev == 15 {
        assert((0 + i + 1) % 16 == (16 + i + 1) % 16);
    }
}

/// Frames in sequence carry the numbers that follow `prev` on a wheel of
/// sixteen: the frame at index `i` carries `(prev + i + 1) mod 16`.
pub proof fn lemma_in_sequence_numbers(prev: u8, frames: Seq<ConsecutiveFrameView>)
    requires
        prev < 16,
    ensures
        in_sequence(prev, frames) <==> forall|i: int|
            0 <= i < frames.len() ==> (#[trigger] frames[i]).seq_num == (prev + i + 1) % 16,
    decreases frames.len(),
{
    if frames.len() > 0 {
        let rest = frames.skip(1);
        let n = frames[0].seq_num;
        assert(next_seq(prev) == (prev + 1) % 16);
        if n == next_seq(prev) {
            lemma_in_sequence_numbers(n, rest);
            if in_sequence(prev, frames) {
                assert forall|i: int| 0 <= i < frames.len() implies (#[trigger] frames[i]).seq_num
                    == (prev + i + 1) % 16 by {
                    if i > 0 {
                        assert(frames[i] == rest[i - 1]);
                        lemma_wheel(prev, i - 1);
                    }
                }
            }
            if forall|i: int|
                0 <= i < frames.len() ==> (#[trigger] frames[i]).seq_num == (prev + i + 1) % 16 {
                assert forall|i: int| 0 <= i < rest.len() implies (#[trigger] rest[i]).seq_num == (n
                    + i + 1) % 16 by {
                    assert(rest[i] == frames[i + 1]);
                    lemma_wheel(prev, i);
                }
            }
        } else {
            assert(frames[0].seq_num != (prev + 0 + 1) % 16);
        }
    }
}

/// A frame that is neither first nor consecutive changes nothing, and a new
/// first frame starts the count afresh whatever came before.
pub proof fn lemma_other_frames(state: ReceiverView, frame: FrameView, rest: Seq<ResponseView>)
    ensures
        !(frame is First) && !(frame is Consecutive) ==> run(
            state,
            seq![ResponseView::Frame(frame)] + rest,
        ) == run(state, rest),
        frame matches FrameView::First(f) ==> run(state, seq![ResponseView::Frame(frame)] + rest)
            == run(ReceiverView::start(f), rest),
{
    let responses = seq![ResponseView::Frame(frame)] + rest;
    assert(responses[0] == ResponseView::Frame(frame));
    assert(responses.skip(1) =~= rest);
}

} // verus!
