use sniff::frame::{RawFrame, ReadPacketResult};
use sniff::reader::{FrameReader, ReaderEvent};
use sniff::session::{Session, SessionAction, SessionEnd};

fn frame(tag: u8) -> RawFrame {
    RawFrame::new(1_700_000_000 + tag as i64, tag as i64, 60, vec![tag; 4])
}

fn ok(tag: u8) -> Option<ReadPacketResult> {
    Some(ReadPacketResult::Success(frame(tag)))
}

/// Feeds messages to a session until it ends; returns the frames recorded
/// or displayed, in order, and how many messages were consumed.
fn drive(session: &mut Session, msgs: Vec<Option<ReadPacketResult>>) -> (Vec<u8>, usize) {
    let mut tags = Vec::new();
    let mut consumed = 0;
    for m in msgs {
        if session.is_finished() {
            break;
        }
        consumed += 1;
        match session.on_message(m) {
            SessionAction::Record(f) | SessionAction::Display(f) => tags.push(f.data[0]),
            SessionAction::Stop => {}
        }
    }
    (tags, consumed)
}

#[test]
fn bounded_session_processes_exactly_limit_frames() {
    for limit in 1..5usize {
        let mut s = Session::bounded(limit);
        let msgs = (1..=8u8).map(ok).collect();
        let (tags, consumed) = drive(&mut s, msgs);
        assert_eq!(consumed, limit);
        assert_eq!(tags, (1..=limit as u8).collect::<Vec<_>>());
        assert_eq!(s.processed, limit);
        assert!(matches!(s.ended, Some(SessionEnd::LimitReached)));
    }
}

#[test]
fn bounded_session_records_rather_than_displays() {
    let mut s = Session::bounded(3);
    assert!(matches!(s.on_message(ok(7)), SessionAction::Record(f) if f.data == vec![7; 4]));
    let mut live = Session::unbounded();
    assert!(matches!(live.on_message(ok(7)), SessionAction::Display(_)));
}

#[test]
fn zero_limit_session_ends_immediately() {
    let mut s = Session::bounded(0);
    assert!(s.is_finished());
    let (tags, consumed) = drive(&mut s, vec![ok(1), ok(2)]);
    assert!(tags.is_empty());
    assert_eq!(consumed, 0);
    assert_eq!(s.processed, 0);
}

#[test]
fn frames_are_handled_in_send_order() {
    let mut s = Session::unbounded();
    let (tags, _) = drive(&mut s, vec![ok(1), ok(2), ok(3)]);
    assert_eq!(tags, vec![1, 2, 3]);
    assert!(!s.is_finished());
    assert_eq!(s.processed, 3);
}

#[test]
fn error_message_ends_consumption() {
    let mut s = Session::bounded(10);
    let msgs = vec![ok(1), Some(ReadPacketResult::Error("gone".to_string())), ok(2), ok(3)];
    let (tags, consumed) = drive(&mut s, msgs);
    assert_eq!(tags, vec![1]);
    assert_eq!(consumed, 2);
    assert!(matches!(s.ended, Some(SessionEnd::ProducerError(ref e)) if e == "gone"));
}

#[test]
fn error_message_ends_live_session() {
    let mut s = Session::unbounded();
    let (tags, consumed) =
        drive(&mut s, vec![Some(ReadPacketResult::Error("x".to_string())), ok(1)]);
    assert!(tags.is_empty());
    assert_eq!(consumed, 1);
}

#[test]
fn disconnection_ends_session() {
    let mut s = Session::unbounded();
    let (tags, consumed) = drive(&mut s, vec![ok(1), None, ok(2)]);
    assert_eq!(tags, vec![1]);
    assert_eq!(consumed, 2);
    assert!(matches!(s.ended, Some(SessionEnd::Disconnected)));
}

#[test]
fn reader_forwards_frames_until_read_fails() {
    let mut r = FrameReader::new();
    assert!(r.on_event(ReaderEvent::Read(Some(frame(1)))).is_none());
    r.start();
    assert!(matches!(
        r.on_event(ReaderEvent::Read(Some(frame(1)))),
        Some(ReadPacketResult::Success(f)) if f.data == vec![1; 4]
    ));
    assert!(!r.is_terminated());
    assert!(r.on_event(ReaderEvent::Read(None)).is_none());
    assert!(r.is_terminated());
    assert!(r.on_event(ReaderEvent::Read(Some(frame(2)))).is_none());
}

#[test]
fn reader_sends_one_error_after_send_failure() {
    let mut r = FrameReader::new();
    r.start();
    let m = r.on_event(ReaderEvent::SendFailed("receiver dropped".to_string()));
    assert!(matches!(m, Some(ReadPacketResult::Error(ref e)) if e == "receiver dropped"));
    assert!(r.is_terminated());
    assert!(r.on_event(ReaderEvent::SendFailed("again".to_string())).is_none());
    assert!(r.on_event(ReaderEvent::Read(Some(frame(3)))).is_none());
}

#[test]
fn raw_frame_captured_len() {
    let f = RawFrame::new(5, 6, 1500, vec![0u8; 64]);
    assert_eq!(f.captured_len(), 64);
    assert_eq!(f.len, 1500);
}
