//! Regrouping a byte-chunk sequence into size-bounded upload parts.
//!
//! `UploadParts` accumulates incoming chunks until the configured minimum
//! part size is reached, then emits one part holding everything accumulated
//! (parts are never clipped to the minimum). Part numbers are contiguous,
//! start at 1 and are never reused; the final part alone may be smaller than
//! the minimum. Target identifiers and encryption parameters of the upload
//! request are not held here: the caller copies them verbatim around each
//! emitted part's body and number.

use vstd::prelude::*;

verus! {

/// What the chunker computes for one upload part: its body and its part
/// number.
pub struct UploadPart {
    /// The part's bytes: everything accumulated since the previous part.
    pub body: Vec<u8>,
    /// The 1-based, strictly increasing part number.
    pub part_number: i64,
}

/// One event pulled from the upstream byte-chunk sequence.
pub enum UploadEvent {
    /// Upstream yielded a chunk of bytes.
    Chunk(Vec<u8>),
    /// Upstream reported end of input.
    End,
}

impl UploadEvent {
    /// The bytes an event carries: the chunk's bytes, or nothing at the end
    /// of input.
    pub open spec fn bytes(&self) -> Seq<u8> {
        match self {
            UploadEvent::Chunk(b) => b@,
            UploadEvent::End => Seq::<u8>::empty(),
        }
    }
}

/// What one demand on the chunker yields downstream.
pub enum UploadStep {
    /// A part ready for upload.
    Emitted(UploadPart),
    /// The event did not complete a part; pull the next upstream event.
    NeedInput,
    /// End of the part sequence; nothing will ever be emitted again.
    Done,
}

/// Chunk a byte sequence into parts for a part-oriented upload.
pub struct UploadParts {
    input: Vec<u8>,
    next_part_number: i64,
    finished: bool,
    minimum_part_size: usize,
}

impl UploadParts {
    /// The bytes accumulated and not yet emitted as a part.
    pub closed spec fn pending(&self) -> Seq<u8> {
        self.input@
    }

    /// The number the next emitted part will carry.
    pub closed spec fn next_number(&self) -> i64 {
        self.next_part_number
    }

    /// True once upstream has ended and the last part (if any) is out.
    pub closed spec fn is_finished(&self) -> bool {
        self.finished
    }

    /// The configured minimum part size.
    pub closed spec fn minimum(&self) -> usize {
        self.minimum_part_size
    }

    /// Create a chunker for the given minimum part size. Part numbers start
    /// at 1.
    pub fn new(minimum_part_size: usize) -> (r: Self)
        ensures
            r.pending() == Seq::<u8>::empty(),
            r.next_number() == 1,
            !r.is_finished(),
            r.minimum() == minimum_part_size,
    {
        UploadParts {
            input: Vec::new(),
            next_part_number: 1,
            finished: false,
            minimum_part_size,
        }
    }

    /// True once upstream has ended; after that, no demand will ever emit
    /// anything again.
    pub fn finished(&self) -> (r: bool)
        ensures
            r == self.is_finished(),
    {
        self.finished
    }

    /// The number the next emitted part will carry; 1-based and strictly
    /// increasing.
    pub fn next_part_number(&self) -> (r: i64)
        ensures
            r == self.next_number(),
    {
        self.next_part_number
    }

    /// Build one part from everything accumulated, give it the next part
    /// number, and clear the accumulator. Performs no check on whether any
    /// data is buffered.
    fn part_from_buffer(&mut self) -> (part: UploadPart)
        requires
            old(self).next_number() < i64::MAX,
        ensures
            part.body@ == old(self).pending(),
            part.part_number == old(self).next_number(),
            final(self).pending() == Seq::<u8>::empty(),
            final(self).next_number() == old(self).next_number() + 1,
            final(self).is_finished() == old(self).is_finished(),
            final(self).minimum() == old(self).minimum(),
    {
        let mut body: Vec<u8> = Vec::new();
        std::mem::swap(&mut body, &mut self.input);
        let part = UploadPart { body, part_number: self.next_part_number };
        self.next_part_number = self.next_part_number + 1;
        part
    }

    /// Append one chunk to the accumulator; if it now reaches the minimum,
    /// emit one part holding the entirety of it (never clipped to the
    /// minimum), else emit nothing and wait for more input.
    pub fn accept_input(&mut self, input: &[u8]) -> (r: Option<UploadPart>)
        requires
            old(self).next_number() < i64::MAX,
        ensures
            final(self).is_finished() == old(self).is_finished(),
            final(self).minimum() == old(self).minimum(),
            old(self).pending().len() + input@.len() >= old(self).minimum() ==> (r matches Some(p)
                && p.body@ == old(self).pending() + input@ && p.body@.len() >= old(self).minimum()
                && p.part_number == old(self).next_number() && final(self).pending()
                == Seq::<u8>::empty() && final(self).next_number() == old(self).next_number() + 1),
            old(self).pending().len() + input@.len() < old(self).minimum() ==> r is None
                && final(self).pending() == old(self).pending() + input@
                && final(self).next_number() == old(self).next_number(),
    {
        self.input.extend_from_slice(input);
        if self.input.len() >= self.minimum_part_size {
            Some(self.part_from_buffer())
        } else {
            None
        }
    }

    /// End of input: emit one final part from whatever is buffered (the last
    /// part has no minimum-size requirement), or nothing if the accumulator
    /// is empty, and mark the chunker finished either way.
    pub fn end_stream(&mut self) -> (r: Option<UploadPart>)
        requires
            old(self).next_number() < i64::MAX,
        ensures
            final(self).is_finished(),
            final(self).minimum() == old(self).minimum(),
            final(self).pending() == Seq::<u8>::empty(),
            old(self).pending().len() > 0 ==> (r matches Some(p) && p.body@ == old(self).pending()
                && p.part_number == old(self).next_number() && final(self).next_number() == old(self).next_number() + 1),
            old(self).pending().len() == 0 ==> r is None && final(self).next_number() == old(self).next_number(),
    {
        self.finished = true;
        if self.input.len() > 0 {
            Some(self.part_from_buffer())
        } else {
            None
        }
    }

    /// The pull-driven state machine: map one upstream event to the next
    /// downstream item. Once finished, every demand yields `Done` and the
    /// state does not change, whatever the event.
    pub fn step(&mut self, event: UploadEvent) -> (r: UploadStep)
        requires
            old(self).next_number() < i64::MAX,
        ensures
            old(self).is_finished() ==> r is Done && *final(self) == *old(self),
            !old(self).is_finished() && event is Chunk ==> {
                &&& old(self).pending().len() + event.bytes().len() >= old(self).minimum() ==> (
                r matches UploadStep::Emitted(p) && p.body@ == old(self).pending() + event.bytes()
                    && p.body@.len() >= old(self).minimum() && p.part_number == old(self).next_number() && final(self).pending() == Seq::<u8>::empty() && !final(self).is_finished())
                &&& old(self).pending().len() + event.bytes().len() < old(self).minimum() ==> (
                r is NeedInput && final(self).pending() == old(self).pending() + event.bytes()
                    && !final(self).is_finished())
            },
            !old(self).is_finished() && event is End ==> {
                &&& final(self).is_finished()
                &&& final(self).pending() == Seq::<u8>::empty()
                &&& old(self).pending().len() > 0 ==> (r matches UploadStep::Emitted(p)
                    && p.body@ == old(self).pending() && p.part_number == old(self).next_number())
                &&& old(self).pending().len() == 0 ==> r is Done
            },
    {
        if self.finished {
            return UploadStep::Done;
        }
        match event {
            UploadEvent::Chunk(b) => match self.accept_input(b.as_slice()) {
                Some(part) => UploadStep::Emitted(part),
                None => UploadStep::NeedInput,
            },
            UploadEvent::End => match self.end_stream() {
                Some(part) => UploadStep::Emitted(part),
                None => UploadStep::Done,
            },
        }
    }
}

} // verus!
