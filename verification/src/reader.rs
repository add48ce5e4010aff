//! Reading one frame from a stream, a piece at a time.
//!
//! The reader never touches the stream. It says how many bytes it wants
//! next; the driver reads exactly that many and hands them over. A frame is
//! thus read as its tag, its length if it is a data frame, and its payload,
//! and a length at or above the ceiling is refused before any payload is
//! asked for.

use crate::endian::{
    le_bytes, le_value, lemma_le_bytes_len, lemma_le_round_trip, lemma_le_value_bound,
    lemma_pow256_values, read_le,
};
use crate::frame::{
    parse_frame, Frame, FrameError, FrameView, Parse, PAYLOAD_CEILING, TAG_CONSUMER_READY,
    TAG_DATA, TAG_END, TAG_PRODUCER_READY,
};
use vstd::prelude::*;

verus! {

/// What became of the bytes handed to the reader.
#[derive(Debug, Clone, PartialEq, Eq)]
pub enum ReadStep {
    /// The frame is not complete; ask the reader how many bytes it wants.
    Continue,
    /// The frame is complete.
    Complete(Frame),
    /// The bytes form no frame.
    Failed(FrameError),
}

#[derive(Debug, Clone, Copy)]
enum Stage {
    Tag,
    Length,
    Payload(u32),
}

/// The state of reading one frame.
#[derive(Debug, Clone, Copy)]
pub struct FrameReader {
    stage: Stage,
}

/// How many bytes complete the next part of a frame of which `taken` has
/// been read: the tag, the length of a data frame, or its payload.
pub open spec fn bytes_wanted(taken: Seq<u8>) -> nat {
    if taken.len() == 0 {
        1
    } else if taken.len() < 5 {
        4
    } else {
        le_value(taken.subrange(1, 5))
    }
}

impl FrameReader {
    #[verifier::type_invariant]
    spec fn inv(self) -> bool {
        match self.stage {
            Stage::Payload(n) => 0 < n < PAYLOAD_CEILING,
            _ => true,
        }
    }

    /// The bytes of the current frame that the reader has taken in.
    pub closed spec fn taken(self) -> Seq<u8> {
        match self.stage {
            Stage::Tag => Seq::empty(),
            Stage::Length => seq![TAG_DATA],
            Stage::Payload(n) => seq![TAG_DATA] + le_bytes(n as nat, 4),
        }
    }

    /// A reader at the start of a frame.
    pub fn new() -> (reader: FrameReader)
        ensures
            reader.taken() == Seq::<u8>::empty(),
    {
        FrameReader { stage: Stage::Tag }
    }

    /// Forgets a frame that was begun, so that the next bytes are read as a
    /// tag.
    pub fn reset(&mut self)
        ensures
            final(self).taken() == Seq::<u8>::empty(),
    {
        self.stage = Stage::Tag;
    }

    /// How many bytes to read next. It is never as many as the ceiling.
    pub fn wanted(&self) -> (n: usize)
        ensures
            n == bytes_wanted(self.taken()),
            0 < n < PAYLOAD_CEILING,
    {
        proof {
            use_type_invariant(self);
        }
        match self.stage {
            Stage::Tag => 1,
            Stage::Length => 4,
            Stage::Payload(n) => {
                proof {
                    lemma_taken_payload(n);
                }
                n as usize
            },
        }
    }

    /// Takes in the bytes that were read.
    ///
    /// A chunk of any other length than the one wanted is a short read: the
    /// stream stopped inside a frame. Otherwise the bytes taken so far are
    /// judged as `parse_frame` judges them. After a complete or a failed
    /// frame the reader stands at the start of the next one.
    pub fn supply(&mut self, chunk: Vec<u8>) -> (step: ReadStep)
        ensures
            chunk@.len() != bytes_wanted(old(self).taken()) ==> step == ReadStep::Failed(
                FrameError::Truncated,
            ) && final(self).taken() == Seq::<u8>::empty(),
            chunk@.len() == bytes_wanted(old(self).taken()) ==> match parse_frame(
                old(self).taken() + chunk@,
            ) {
                Parse::Partial => step == ReadStep::Continue && final(self).taken() == old(
                    self,
                ).taken() + chunk@,
                Parse::Complete(frame, used) => (step matches ReadStep::Complete(f) && f@ == frame)
                    && used == (old(self).taken() + chunk@).len() && final(self).taken()
                    == Seq::<u8>::empty(),
                Parse::Refused(e) => step == ReadStep::Failed(e) && final(self).taken()
                    == Seq::<u8>::empty(),
            },
    {
        proof {
            use_type_invariant(&*self);
        }
        let ghost before: Seq<u8> = self.taken();
        let ghost all: Seq<u8> = before + chunk@;
        match self.stage {
            Stage::Tag => {
                if chunk.len() != 1 {
                    return ReadStep::Failed(FrameError::Truncated);
                }
                let tag: u8 = chunk[0];
                assert(all =~= chunk@);
                if tag == TAG_DATA {
                    self.stage = Stage::Length;
                    assert(self.taken() =~= all);
                    ReadStep::Continue
                } else if tag == TAG_END {
                    ReadStep::Complete(Frame::End)
                } else if tag == TAG_PRODUCER_READY {
                    ReadStep::Complete(Frame::ProducerReady)
                } else if tag == TAG_CONSUMER_READY {
                    ReadStep::Complete(Frame::ConsumerReady)
                } else {
                    ReadStep::Failed(FrameError::ProtocolViolation(tag))
                }
            },
            Stage::Length => {
                if chunk.len() != 4 {
                    self.stage = Stage::Tag;
                    return ReadStep::Failed(FrameError::Truncated);
                }
                let claimed: u64 = read_le(chunk.as_slice(), 0, 4);
                proof {
                    assert(chunk@.subrange(0, 4) =~= chunk@);
                    assert(all.subrange(1, 5) =~= chunk@);
                    lemma_le_value_bound(chunk@);
                    lemma_pow256_values();
                    crate::endian::lemma_le_bytes_of_value(chunk@);
                }
                if claimed >= PAYLOAD_CEILING as u64 {
                    self.stage = Stage::Tag;
                    ReadStep::Failed(FrameError::FrameCorrupt(claimed as u32))
                } else if claimed == 0 {
                    self.stage = Stage::Tag;
                    assert(all.subrange(5, 5) =~= Seq::<u8>::empty());
                    ReadStep::Complete(Frame::Data(Vec::new()))
                } else {
                    self.stage = Stage::Payload(claimed as u32);
                    assert(self.taken() =~= all);
                    ReadStep::Continue
                }
            },
            Stage::Payload(n) => {
                proof {
                    lemma_taken_payload(n);
                    lemma_le_bytes_len(n as nat, 4);
                }
                self.stage = Stage::Tag;
                if chunk.len() != n as usize {
                    return ReadStep::Failed(FrameError::Truncated);
                }
                assert(all.subrange(1, 5) =~= before.subrange(1, 5));
                assert(all.subrange(5, 5 + n as int) =~= chunk@);
                ReadStep::Complete(Frame::Data(chunk))
            },
        }
    }
}

/// In front of a payload of `n` bytes the reader has taken a header that
/// claims `n`.
proof fn lemma_taken_payload(n: u32)
    ensures
        ({
            let taken: Seq<u8> = seq![TAG_DATA] + le_bytes(n as nat, 4);
            &&& taken.len() == 5
            &&& le_value(taken.subrange(1, 5)) == n
        }),
{
    let taken: Seq<u8> = seq![TAG_DATA] + le_bytes(n as nat, 4);
    lemma_le_bytes_len(n as nat, 4);
    lemma_pow256_values();
    lemma_le_round_trip(n as nat, 4);
    assert(taken.subrange(1, 5) =~= le_bytes(n as nat, 4));
}

} // verus!
