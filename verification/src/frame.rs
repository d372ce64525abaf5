//! Frames on a stream: a length in four bytes, least significant first, and the
//! payload after it.

use vstd::prelude::*;

verus! {

/// The longest payload that is read.
pub const MAX_MSG_LEN: usize = 16_777_216;

/// Four bytes that hold `n`, least significant first.
pub open spec fn le32(n: int) -> Seq<u8> {
    seq![
        (n % 256) as u8,
        (n / 256 % 256) as u8,
        (n / 65_536 % 256) as u8,
        (n / 16_777_216 % 256) as u8,
    ]
}

/// The number that four bytes hold, least significant first.
pub open spec fn from_le32(b: Seq<u8>) -> int {
    b[0] + b[1] * 256 + b[2] * 65_536 + b[3] * 16_777_216
}

/// A payload with its length in front. The length is cut to 32 bits.
pub open spec fn frame_of(payload: Seq<u8>) -> Seq<u8> {
    le32(payload.len() as int) + payload
}

pub fn encode_frame(payload: &[u8]) -> (frame: Vec<u8>)
    requires
        payload@.len() + 4 <= usize::MAX,
    ensures
        frame@ == frame_of(payload@),
{
    let n: u64 = payload.len() as u64;
    let mut frame: Vec<u8> = Vec::new();
    frame.push((n % 256) as u8);
    frame.push((n / 256 % 256) as u8);
    frame.push((n / 65_536 % 256) as u8);
    frame.push((n / 16_777_216 % 256) as u8);
    frame.extend_from_slice(payload);
    assert(frame@ =~= frame_of(payload@));
    frame
}

/// What came of asking a stream for an exact number of bytes.
#[derive(Debug)]
pub enum ReadOutcome {
    /// The bytes.
    Filled(Vec<u8>),
    /// The stream ended before all of them came.
    FinishedEarly,
    /// The stream failed.
    Failed,
}

/// What to do after a read.
#[derive(Debug)]
pub enum FrameStep {
    /// Read as many bytes as the reader now wants.
    More,
    /// A payload is complete.
    Frame(Vec<u8>),
    /// The stream ended where a frame could have begun.
    Closed,
    /// The announced payload is longer than any that is read.
    TooLong(usize),
    /// The stream ended inside a payload of the given length.
    Truncated(usize),
    /// The stream failed.
    Failed,
}

/// Reads one frame after the other, a header and a payload at a time.
#[derive(Debug)]
pub struct FrameReader {
    payload_len: Option<usize>,
}

impl FrameReader {
    /// The length of the payload that comes next, once its header was read.
    pub closed spec fn pending(&self) -> Option<nat> {
        match self.payload_len {
            Some(n) => Some(n as nat),
            None => None,
        }
    }

    pub open spec fn wf(&self) -> bool {
        self.pending() matches Some(n) ==> n <= MAX_MSG_LEN
    }

    /// How many bytes have to be read next.
    pub open spec fn spec_wanted(&self) -> nat {
        match self.pending() {
            Some(n) => n,
            None => 4,
        }
    }

    /// A reader at the start of a frame.
    pub fn new() -> (r: Self)
        ensures
            r.wf(),
            r.pending() is None,
    {
        FrameReader { payload_len: None }
    }

    pub fn wanted(&self) -> (n: usize)
        ensures
            n == self.spec_wanted(),
    {
        match self.payload_len {
            Some(n) => n,
            None => 4,
        }
    }

    /// Takes what came of reading the wanted bytes. Whatever ends a frame leaves
    /// the reader at the start of the next.
    pub fn step(&mut self, outcome: ReadOutcome) -> (next: FrameStep)
        requires
            old(self).wf(),
            outcome matches ReadOutcome::Filled(b) ==> b@.len() == old(self).spec_wanted(),
        ensures
            final(self).wf(),
            match (old(self).pending(), outcome) {
                (None, ReadOutcome::Filled(b)) => {
                    let len = from_le32(b@);
                    if len <= MAX_MSG_LEN {
                        next is More && final(self).pending() == Some(len as nat)
                    } else {
                        next matches FrameStep::TooLong(n) && n == len && final(self).pending()
                            is None
                    }
                },
                (None, ReadOutcome::FinishedEarly) => next is Closed && final(self).pending()
                    is None,
                (Some(_), ReadOutcome::Filled(b)) => {
                    &&& next == FrameStep::Frame(b)
                    &&& final(self).pending() is None
                },
                (Some(len), ReadOutcome::FinishedEarly) => next matches FrameStep::Truncated(n)
                    && n == len && final(self).pending() is None,
                (_, ReadOutcome::Failed) => next is Failed && final(self).pending() is None,
            },
    {
        match self.payload_len {
            None => match outcome {
                ReadOutcome::Filled(b) => {
                    let len: usize = b[0] as usize + b[1] as usize * 256 + b[2] as usize * 65_536
                        + b[3] as usize * 16_777_216;
                    if len > MAX_MSG_LEN {
                        FrameStep::TooLong(len)
                    } else {
                        self.payload_len = Some(len);
                        FrameStep::More
                    }
                },
                ReadOutcome::FinishedEarly => FrameStep::Closed,
                ReadOutcome::Failed => FrameStep::Failed,
            },
            Some(len) => {
                self.payload_len = None;
                match outcome {
                    ReadOutcome::Filled(b) => FrameStep::Frame(b),
                    ReadOutcome::FinishedEarly => FrameStep::Truncated(len),
                    ReadOutcome::Failed => FrameStep::Failed,
                }
            },
        }
    }
}

/// Why a frame could not be read.
#[derive(Debug, Clone, Copy, PartialEq, Eq, Structural)]
pub enum FrameError {
    TooLong(usize),
    Truncated(usize),
}

/// What reading one frame from the start of `stream`, which ends there, gives.
pub open spec fn first_frame(stream: Seq<u8>) -> Result<Option<Seq<u8>>, FrameError> {
    if stream.len() < 4 {
        Ok(None)
    } else {
        let len = from_le32(stream);
        if len > MAX_MSG_LEN {
            Err(FrameError::TooLong(len as usize))
        } else if stream.len() - 4 < len {
            Err(FrameError::Truncated(len as usize))
        } else {
            Ok(Some(stream.subrange(4, 4 + len)))
        }
    }
}

/// `n` bytes of a stream that is held in memory, from `at` on.
fn read_exact(stream: &[u8], at: usize, n: usize) -> (outcome: ReadOutcome)
    requires
        at <= stream@.len(),
    ensures
        match outcome {
            ReadOutcome::Filled(b) => at + n <= stream@.len() && b@ == stream@.subrange(
                at as int,
                at + n,
            ),
            ReadOutcome::FinishedEarly => at + n > stream@.len(),
            ReadOutcome::Failed => false,
        },
{
    if n > stream.len() - at {
        ReadOutcome::FinishedEarly
    } else {
        ReadOutcome::Filled(
            vstd::slice::slice_to_vec(vstd::slice::slice_subrange(stream, at, at + n)),
        )
    }
}

/// Reads one frame from the start of a stream that is held in memory: its
/// payload, or nothing if the stream ends before a header is complete.
pub fn read_frame(stream: &[u8]) -> (r: Result<Option<Vec<u8>>, FrameError>)
    ensures
        match first_frame(stream@) {
            Ok(Some(payload)) => r matches Ok(Some(p)) && p@ == payload,
            Ok(None) => r matches Ok(None),
            Err(e) => r matches Err(f) && f == e,
        },
{
    let mut reader = FrameReader::new();
    let header = read_exact(stream, 0, reader.wanted());
    match reader.step(header) {
        FrameStep::TooLong(len) => Err(FrameError::TooLong(len)),
        FrameStep::More => {
            let payload = read_exact(stream, 4, reader.wanted());
            match reader.step(payload) {
                FrameStep::Frame(p) => Ok(Some(p)),
                FrameStep::Truncated(len) => Err(FrameError::Truncated(len)),
                _ => Ok(None),
            }
        },
        _ => Ok(None),
    }
}

/// Reading back a frame that was written gives its payload, whatever follows it
/// on the stream.
pub proof fn law_frame_round_trip(payload: Seq<u8>, rest: Seq<u8>)
    requires
        payload.len() <= MAX_MSG_LEN,
    ensures
        first_frame(frame_of(payload) + rest) == Ok::<Option<Seq<u8>>, FrameError>(Some(payload)),
{
    let n = payload.len() as int;
    let stream = frame_of(payload) + rest;
    assert(stream[0] == le32(n)[0]);
    assert(stream[1] == le32(n)[1]);
    assert(stream[2] == le32(n)[2]);
    assert(stream[3] == le32(n)[3]);
    assert(n == n % 256 + (n / 256 % 256) * 256 + (n / 65_536 % 256) * 65_536 + (n / 16_777_216
        % 256) * 16_777_216);
    assert(stream.subrange(4, 4 + n) =~= payload);
}

/// The four bytes in front of a payload are its length, least significant byte first, and
/// the payload follows.
pub proof fn law_the_length_stands_in_front(payload: Seq<u8>)
    requires
        payload.len() <= 0xffff_ffff,
    ensures
        frame_of(payload).len() == payload.len() + 4,
        frame_of(payload)[0] + 0x100 * frame_of(payload)[1] + 0x1_0000 * frame_of(payload)[2]
            + 0x100_0000 * frame_of(payload)[3] == payload.len(),
        frame_of(payload).skip(4) == payload,
{
    let n = payload.len() as int;
    assert(frame_of(payload)[0] == le32(n)[0]);
    assert(frame_of(payload)[1] == le32(n)[1]);
    assert(frame_of(payload)[2] == le32(n)[2]);
    assert(frame_of(payload)[3] == le32(n)[3]);
    assert(n == n % 256 + (n / 256 % 256) * 256 + (n / 65_536 % 256) * 65_536 + (n / 16_777_216
        % 256) * 16_777_216);
    assert(frame_of(payload).skip(4) =~= payload);
}

/// A stream that ends inside of a frame gives none: it counts as ended within the length,
/// and as truncated after it. A payload of more than 16 MiB is refused, however much of it
/// is there.
pub proof fn law_a_cut_frame_is_no_frame(payload: Seq<u8>, n: int)
    requires
        0 <= n < payload.len() + 4,
        payload.len() <= 0xffff_ffff,
    ensures
        n < 4 ==> first_frame(frame_of(payload).take(n)) == Ok::<Option<Seq<u8>>, FrameError>(None),
        n >= 4 && payload.len() <= 16 * 1024 * 1024 ==> first_frame(frame_of(payload).take(n))
            == Err::<Option<Seq<u8>>, FrameError>(FrameError::Truncated(payload.len() as usize)),
        n >= 4 && payload.len() > 16 * 1024 * 1024 ==> first_frame(frame_of(payload).take(n))
            == Err::<Option<Seq<u8>>, FrameError>(FrameError::TooLong(payload.len() as usize)),
{
    law_the_length_stands_in_front(payload);
    let cut = frame_of(payload).take(n);
    if n >= 4 {
        assert(cut[0] == frame_of(payload)[0]);
        assert(cut[1] == frame_of(payload)[1]);
        assert(cut[2] == frame_of(payload)[2]);
        assert(cut[3] == frame_of(payload)[3]);
    }
}

} // verus!
