use vstd::prelude::*;
use crate::frame::{RawFrame, ReadPacketResult};

verus! {

/// Why a session stopped consuming messages.
pub enum SessionEnd {
    /// A bounded session recorded as many frames as it was asked for.
    LimitReached,
    /// The frame reader sent its final error message.
    ProducerError(String),
    /// The channel closed without a final message.
    Disconnected,
}

/// What the consumer does with one received message.
pub enum SessionAction {
    /// Append the frame to the destination, then decode and log it.
    Record(RawFrame),
    /// Decode and log the frame only.
    Display(RawFrame),
    /// Stop the consumption loop; `Session::ended` says why.
    Stop,
}

/// The consumer side of one capture run.
///
/// `limit` is `Some(l)` for a bounded capture-to-file session and `None` for
/// an unbounded live session. `ended` becomes `Some` exactly once, when the
/// consumption loop must exit.
pub struct Session {
    pub limit: Option<usize>,
    pub processed: usize,
    pub ended: Option<SessionEnd>,
}

/// The session that results from `s` receiving `ev` (`None` stands for a
/// disconnected channel), and the action the consumer takes for it.
pub open spec fn step(s: Session, ev: Option<ReadPacketResult>) -> (Session, SessionAction) {
    match ev {
        None => (
            Session { limit: s.limit, processed: s.processed, ended: Some(SessionEnd::Disconnected) },
            SessionAction::Stop,
        ),
        Some(ReadPacketResult::Error(e)) => (
            Session { limit: s.limit, processed: s.processed, ended: Some(SessionEnd::ProducerError(e)) },
            SessionAction::Stop,
        ),
        Some(ReadPacketResult::Success(f)) => match s.limit {
            Some(l) => (
                Session {
                    limit: s.limit,
                    processed: (s.processed + 1) as usize,
                    ended: if s.processed + 1 >= l { Some(SessionEnd::LimitReached) } else { None },
                },
                SessionAction::Record(f),
            ),
            None => (
                Session {
                    limit: s.limit,
                    processed: if s.processed < usize::MAX { (s.processed + 1) as usize } else { s.processed },
                    ended: None,
                },
                SessionAction::Display(f),
            ),
        },
    }
}

/// Runs a session over a finite sequence of received messages, stopping at
/// the first one after which the session has ended. Returns the final session
/// and one action per message that was consumed.
pub open spec fn consume(s: Session, evs: Seq<Option<ReadPacketResult>>) -> (Session, Seq<SessionAction>)
    decreases evs.len(),
{
    if s.ended is Some || evs.len() == 0 {
        (s, Seq::empty())
    } else {
        let (t, a) = step(s, evs[0]);
        let (u, rest) = consume(t, evs.subrange(1, evs.len() as int));
        (u, seq![a] + rest)
    }
}

/// The frames carried by the `Success` messages of `evs`, in order.
pub open spec fn frames_of(evs: Seq<Option<ReadPacketResult>>) -> Seq<RawFrame>
    decreases evs.len(),
{
    if evs.len() == 0 {
        Seq::empty()
    } else {
        let head: Seq<RawFrame> = match evs[0] {
            Some(ReadPacketResult::Success(f)) => seq![f],
            _ => Seq::empty(),
        };
        head + frames_of(evs.subrange(1, evs.len() as int))
    }
}

/// The frames appended to the destination by `acts`, in order.
pub open spec fn recorded(acts: Seq<SessionAction>) -> Seq<RawFrame>
    decreases acts.len(),
{
    if acts.len() == 0 {
        Seq::empty()
    } else {
        let head: Seq<RawFrame> = match acts[0] {
            SessionAction::Record(f) => seq![f],
            _ => Seq::empty(),
        };
        head + recorded(acts.subrange(1, acts.len() as int))
    }
}

/// The frames handed to the decoder by `acts`, in order.
pub open spec fn handled(acts: Seq<SessionAction>) -> Seq<RawFrame>
    decreases acts.len(),
{
    if acts.len() == 0 {
        Seq::empty()
    } else {
        let head: Seq<RawFrame> = match acts[0] {
            SessionAction::Record(f) => seq![f],
            SessionAction::Display(f) => seq![f],
            SessionAction::Stop => Seq::empty(),
        };
        head + handled(acts.subrange(1, acts.len() as int))
    }
}

/// `frames` as a sequence of `Success` messages.
pub open spec fn successes(frames: Seq<RawFrame>) -> Seq<Option<ReadPacketResult>> {
    frames.map_values(|f: RawFrame| Some(ReadPacketResult::Success(f)))
}

proof fn lemma_recorded_cons(a: SessionAction, rest: Seq<SessionAction>)
    ensures
        recorded(seq![a] + rest) == recorded(seq![a]) + recorded(rest),
        handled(seq![a] + rest) == handled(seq![a]) + handled(rest),
{
    let whole = seq![a] + rest;
    assert(whole.subrange(1, whole.len() as int) =~= rest);
    assert(seq![a].subrange(1, 1) =~= Seq::<SessionAction>::empty());
    reveal_with_fuel(recorded, 2);
    reveal_with_fuel(handled, 2);
    assert(recorded(seq![a]) =~= recorded(seq![a]) + recorded(Seq::<SessionAction>::empty()));
    assert(handled(seq![a]) =~= handled(seq![a]) + handled(Seq::<SessionAction>::empty()));
}

proof fn lemma_frames_of_take(evs: Seq<Option<ReadPacketResult>>, n: int)
    requires
        1 <= n <= evs.len(),
    ensures
        frames_of(evs.take(n)) == frames_of(evs.take(1)) + frames_of(
            evs.subrange(1, evs.len() as int).take(n - 1),
        ),
{
    let t = evs.take(n);
    assert(t.subrange(1, t.len() as int) =~= evs.subrange(1, evs.len() as int).take(n - 1));
    let one = evs.take(1);
    assert(one.subrange(1, 1) =~= Seq::<Option<ReadPacketResult>>::empty());
    assert(one[0] == t[0]);
    reveal_with_fuel(frames_of, 2);
    assert(frames_of(one) =~= frames_of(one) + frames_of(Seq::<Option<ReadPacketResult>>::empty()));
}

/// The consumer hands frames to the decoder in exactly the order in which the
/// reader sent them: what it handled is the sequence of frames of the
/// messages it consumed, whatever the session's policy.
pub proof fn consumer_preserves_order(s: Session, evs: Seq<Option<ReadPacketResult>>)
    ensures
        consume(s, evs).1.len() <= evs.len(),
        handled(consume(s, evs).1) == frames_of(evs.take(consume(s, evs).1.len() as int)),
    decreases evs.len(),
{
    if s.ended is Some || evs.len() == 0 {
        assert(evs.take(0) =~= Seq::<Option<ReadPacketResult>>::empty());
    } else {
        let (t, a) = step(s, evs[0]);
        let tail = evs.subrange(1, evs.len() as int);
        consumer_preserves_order(t, tail);
        let rest = consume(t, tail).1;
        lemma_recorded_cons(a, rest);
        lemma_frames_of_take(evs, 1 + rest.len() as int);
        let one = evs.take(1);
        assert(one.subrange(1, 1) =~= Seq::<Option<ReadPacketResult>>::empty());
        reveal_with_fuel(handled, 2);
        reveal_with_fuel(frames_of, 2);
        assert(handled(seq![a]) =~= frames_of(one));
    }
}

proof fn lemma_bounded_run(s: Session, frames: Seq<RawFrame>)
    requires
        s.limit is Some,
        s.ended is None,
        s.processed < s.limit->Some_0,
        frames.len() >= s.limit->Some_0 - s.processed,
    ensures
        ({
            let (u, acts) = consume(s, successes(frames));
            &&& recorded(acts) == frames.take(s.limit->Some_0 - s.processed)
            &&& acts.len() == s.limit->Some_0 - s.processed
            &&& u.processed == s.limit->Some_0
            &&& u.ended == Some(SessionEnd::LimitReached)
        }),
    decreases s.limit->Some_0 - s.processed,
{
    let l = s.limit->Some_0;
    let evs = successes(frames);
    let (t, a) = step(s, evs[0]);
    let tail = evs.subrange(1, evs.len() as int);
    let ftail = frames.subrange(1, frames.len() as int);
    assert(tail =~= successes(ftail));
    assert(a == SessionAction::Record(frames[0]));
    reveal_with_fuel(recorded, 2);
    assert(recorded(seq![a]) =~= seq![frames[0]]) by {
        assert(seq![a].subrange(1, 1) =~= Seq::<SessionAction>::empty());
    }
    if s.processed + 1 >= l {
        assert(consume(t, tail).1 =~= Seq::<SessionAction>::empty());
        lemma_recorded_cons(a, consume(t, tail).1);
        assert(frames.take(1) =~= seq![frames[0]]);
        assert(recorded(Seq::<SessionAction>::empty()) =~= Seq::<RawFrame>::empty());
        assert(seq![frames[0]] + Seq::<RawFrame>::empty() =~= seq![frames[0]]);
    } else {
        lemma_bounded_run(t, ftail);
        let rest = consume(t, tail).1;
        lemma_recorded_cons(a, rest);
        assert(frames.take(l - s.processed) =~= seq![frames[0]] + ftail.take(l - t.processed));
    }
}

/// A bounded session with a limit of at least one, fed only frames and at
/// least as many as its limit, consumes exactly `limit` messages, records
/// the first `limit` frames in the order received, and then ends because its
/// limit was reached.
pub proof fn bounded_session_records_exactly_limit(limit: usize, frames: Seq<RawFrame>)
    requires
        limit >= 1,
        frames.len() >= limit,
    ensures
        ({
            let (u, acts) = consume(Session::bounded_spec(limit), successes(frames));
            &&& acts.len() == limit
            &&& recorded(acts) == frames.take(limit as int)
            &&& u.processed == limit
            &&& u.ended == Some(SessionEnd::LimitReached)
        }),
{
    lemma_bounded_run(Session::bounded_spec(limit), frames);
}

/// A bounded session with a limit of zero consumes no message at all and
/// records nothing.
pub proof fn zero_limit_session_consumes_nothing(evs: Seq<Option<ReadPacketResult>>)
    ensures
        consume(Session::bounded_spec(0), evs) == (Session::bounded_spec(0), Seq::<SessionAction>::empty()),
        recorded(consume(Session::bounded_spec(0), evs).1) == Seq::<RawFrame>::empty(),
{
    assert(recorded(Seq::<SessionAction>::empty()) =~= Seq::<RawFrame>::empty());
}

/// Once the reader's error message is received the session has ended: no
/// message after it is consumed, and if the session was still running when
/// it arrived, the error is the recorded reason for the end.
pub proof fn error_message_ends_session(s: Session, evs: Seq<Option<ReadPacketResult>>, i: int, e: String)
    requires
        0 <= i < evs.len(),
        evs[i] == Some(ReadPacketResult::Error(e)),
    ensures
        consume(s, evs).1.len() <= i + 1,
        consume(s, evs).0.ended is Some,
        consume(s, evs).1.len() == i + 1 ==> consume(s, evs).0.ended == Some(
            SessionEnd::ProducerError(e),
        ),
    decreases evs.len(),
{
    if s.ended is Some {
    } else {
        let (t, a) = step(s, evs[0]);
        let tail = evs.subrange(1, evs.len() as int);
        if i == 0 {
            assert(t.ended == Some(SessionEnd::ProducerError(e)));
        } else {
            assert(tail[i - 1] == evs[i]);
            error_message_ends_session(t, tail, i - 1, e);
        }
    }
}

impl Session {
    /// A bounded session never passes its limit, and one that is still
    /// running has not reached it.
    pub open spec fn wf(&self) -> bool {
        &&& (self.limit matches Some(l) ==> self.processed <= l)
        &&& (self.ended is None ==> (self.limit matches Some(l) ==> self.processed < l))
    }

    pub open spec fn bounded_spec(limit: usize) -> Session {
        Session {
            limit: Some(limit),
            processed: 0,
            ended: if limit == 0 { Some(SessionEnd::LimitReached) } else { None },
        }
    }

    pub open spec fn unbounded_spec() -> Session {
        Session { limit: None, processed: 0, ended: None }
    }

    /// A capture-to-file session that records `limit` frames. With a limit of
    /// zero it has ended before the first message.
    pub fn bounded(limit: usize) -> (r: Session)
        ensures
            r == Session::bounded_spec(limit),
            r.wf(),
    {
        Session {
            limit: Some(limit),
            processed: 0,
            ended: if limit == 0 { Some(SessionEnd::LimitReached) } else { None },
        }
    }

    /// A live session that runs until an error or a disconnection.
    pub fn unbounded() -> (r: Session)
        ensures
            r == Session::unbounded_spec(),
            r.wf(),
    {
        Session { limit: None, processed: 0, ended: None }
    }

    /// Whether the consumption loop must exit.
    pub fn is_finished(&self) -> (r: bool)
        ensures
            r == (self.ended is Some),
    {
        self.ended.is_some()
    }

    /// Consumes one received message (`None` when the channel has
    /// disconnected) and says what to do with it.
    pub fn on_message(&mut self, ev: Option<ReadPacketResult>) -> (a: SessionAction)
        requires
            old(self).wf(),
            old(self).ended is None,
        ensures
            (*final(self), a) == step(*old(self), ev),
            final(self).wf(),
    {
        match ev {
            None => {
                self.ended = Some(SessionEnd::Disconnected);
                SessionAction::Stop
            },
            Some(ReadPacketResult::Error(e)) => {
                self.ended = Some(SessionEnd::ProducerError(e));
                SessionAction::Stop
            },
            Some(ReadPacketResult::Success(f)) => {
                match self.limit {
                    Some(l) => {
                        self.processed = self.processed + 1;
                        if self.processed >= l {
                            self.ended = Some(SessionEnd::LimitReached);
                        }
                        SessionAction::Record(f)
                    },
                    None => {
                        if self.processed < usize::MAX {
                            self.processed = self.processed + 1;
                        }
                        SessionAction::Display(f)
                    },
                }
            },
        }
    }
}

} // verus!
