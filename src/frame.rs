use vstd::prelude::*;

verus! {

/// One captured link-layer frame: when it was captured, how long it was on
/// the wire, and the bytes that were captured of it.
pub struct RawFrame {
    /// Seconds part of the capture timestamp.
    pub ts_sec: i64,
    /// Microseconds part of the capture timestamp.
    pub ts_usec: i64,
    /// Length of the frame on the wire, which may exceed the captured bytes.
    pub len: u32,
    /// The captured bytes.
    pub data: Vec<u8>,
}

impl RawFrame {
    pub fn new(ts_sec: i64, ts_usec: i64, len: u32, data: Vec<u8>) -> (r: RawFrame)
        ensures
            r.ts_sec == ts_sec,
            r.ts_usec == ts_usec,
            r.len == len,
            r.data@ == data@,
    {
        RawFrame { ts_sec, ts_usec, len, data }
    }

    /// Number of captured bytes.
    pub fn captured_len(&self) -> (r: usize)
        ensures
            r == self.data@.len(),
    {
        self.data.len()
    }
}

/// A message from the frame reader to the session: a frame, or the reader's
/// final word that it could not go on.
pub enum ReadPacketResult {
    Success(RawFrame),
    Error(String),
}

} // verus!
