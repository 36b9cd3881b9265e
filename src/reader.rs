use vstd::prelude::*;
use crate::frame::{RawFrame, ReadPacketResult};

verus! {

/// Life cycle of the frame reader that feeds a session.
#[derive(PartialEq, Eq, Structural)]
pub enum ReaderState {
    Idle,
    Reading,
    Terminated,
}

/// What happened to the reader since its last step.
pub enum ReaderEvent {
    /// A read from the capture handle: the frame, or `None` when the read
    /// failed (handle closed, OS error).
    Read(Option<RawFrame>),
    /// Handing the last message to the consumer failed; the description says why.
    SendFailed(String),
}

/// The state after `ev` in state `st`, and the message to send, if any.
/// Only a reading reader reacts; a send failure yields the one error
/// message, and both failures end the reader.
pub open spec fn reader_step(st: ReaderState, ev: ReaderEvent) -> (ReaderState, Option<ReadPacketResult>) {
    if st != ReaderState::Reading {
        (st, None)
    } else {
        match ev {
            ReaderEvent::Read(Some(f)) => (ReaderState::Reading, Some(ReadPacketResult::Success(f))),
            ReaderEvent::Read(None) => (ReaderState::Terminated, None),
            ReaderEvent::SendFailed(d) => (ReaderState::Terminated, Some(ReadPacketResult::Error(d))),
        }
    }
}

/// The messages a reader in state `st` sends over the events `evs`, in order.
pub open spec fn reader_run(st: ReaderState, evs: Seq<ReaderEvent>) -> Seq<ReadPacketResult>
    decreases evs.len(),
{
    if evs.len() == 0 {
        Seq::empty()
    } else {
        let (next, out) = reader_step(st, evs[0]);
        let head: Seq<ReadPacketResult> = match out {
            Some(m) => seq![m],
            None => Seq::empty(),
        };
        head + reader_run(next, evs.subrange(1, evs.len() as int))
    }
}

/// The producer side of a session: pulls frames from a capture handle and
/// forwards them, one message per frame.
pub struct FrameReader {
    pub state: ReaderState,
}

impl FrameReader {
    pub fn new() -> (r: FrameReader)
        ensures
            r.state == ReaderState::Idle,
    {
        FrameReader { state: ReaderState::Idle }
    }

    /// Starts reading; a reader that already started is left as it is.
    pub fn start(&mut self)
        ensures
            old(self).state == ReaderState::Idle ==> final(self).state == ReaderState::Reading,
            old(self).state != ReaderState::Idle ==> final(self).state == old(self).state,
    {
        if let ReaderState::Idle = self.state {
            self.state = ReaderState::Reading;
        }
    }

    pub fn is_terminated(&self) -> (r: bool)
        ensures
            r == (self.state == ReaderState::Terminated),
    {
        match self.state {
            ReaderState::Terminated => true,
            _ => false,
        }
    }

    /// Takes one step: returns the message to send, if any.
    pub fn on_event(&mut self, ev: ReaderEvent) -> (r: Option<ReadPacketResult>)
        ensures
            (final(self).state, r) == reader_step(old(self).state, ev),
    {
        match self.state {
            ReaderState::Reading => {
                match ev {
                    ReaderEvent::Read(Some(f)) => Some(ReadPacketResult::Success(f)),
                    ReaderEvent::Read(None) => {
                        self.state = ReaderState::Terminated;
                        None
                    },
                    ReaderEvent::SendFailed(d) => {
                        self.state = ReaderState::Terminated;
                        Some(ReadPacketResult::Error(d))
                    },
                }
            },
            _ => None,
        }
    }
}

proof fn lemma_terminated_sends_nothing(evs: Seq<ReaderEvent>)
    ensures
        reader_run(ReaderState::Terminated, evs) == Seq::<ReadPacketResult>::empty(),
    decreases evs.len(),
{
    if evs.len() > 0 {
        lemma_terminated_sends_nothing(evs.subrange(1, evs.len() as int));
    }
}

/// Whatever happens to a reader, at most one of the messages it sends is an
/// error, and that one is the last.
pub proof fn reader_error_is_last(st: ReaderState, evs: Seq<ReaderEvent>)
    ensures
        forall|j: int|
            0 <= j < reader_run(st, evs).len() && (#[trigger] reader_run(st, evs)[j]) is Error
                ==> j == reader_run(st, evs).len() - 1,
    decreases evs.len(),
{
    if evs.len() > 0 {
        let (next, out) = reader_step(st, evs[0]);
        let tail = evs.subrange(1, evs.len() as int);
        reader_error_is_last(next, tail);
        let rest = reader_run(next, tail);
        let whole = reader_run(st, evs);
        if out matches Some(ReadPacketResult::Error(_)) {
            lemma_terminated_sends_nothing(tail);
            assert(whole =~= seq![out->Some_0]);
        } else if out is Some {
            assert(whole =~= seq![out->Some_0] + rest);
            assert forall|j: int| 0 <= j < whole.len() && (#[trigger] whole[j]) is Error implies j
                == whole.len() - 1 by {
                assert(j > 0);
                assert(whole[j] == rest[j - 1]);
            }
        } else {
            assert(whole =~= rest);
        }
    }
}

} // verus!
