//! Incremental seekable-zstd compression.
//!
//! `Compress` owns a compression session and a `wrote_seek_table` flag that
//! becomes true exactly once, when the trailing seek table has been written.
//! `compress_input` feeds a whole buffer through the session, `end_stream`
//! drains it, and `step` is the pull-driven state machine: it maps one
//! upstream event to the next downstream item without ever touching the
//! session again once the seek table is out.

use vstd::prelude::*;

use crate::codec::{
    writer_compress_step, writer_emitted, writer_end_step, writer_fed, writer_new, writer_pending,
    CodecWriter,
};
use crate::error::Error;

verus! {

/// An incremental seekable-zstd compressor.
pub struct Compress {
    codec: CodecWriter,
    wrote_seek_table: bool,
}

/// One event pulled from the upstream byte-chunk sequence.
pub enum CompressEvent {
    /// Upstream yielded a chunk of input bytes.
    Chunk(Vec<u8>),
    /// Upstream reported end of input.
    End,
}

impl CompressEvent {
    /// The bytes an event carries: the chunk's bytes, or nothing at the end
    /// of input.
    pub open spec fn bytes(&self) -> Seq<u8> {
        match self {
            CompressEvent::Chunk(b) => b@,
            CompressEvent::End => Seq::<u8>::empty(),
        }
    }
}

/// What one demand on the compressor yields downstream.
pub enum CompressStep {
    /// A non-empty compressed chunk to emit.
    Emitted(Vec<u8>),
    /// The event produced no output; pull the next upstream event.
    NeedInput,
    /// End of the compressed sequence; nothing will ever be emitted again.
    Done,
    /// The codec failed; the failure is surfaced without marking the
    /// compressor finished.
    Failed(Error),
}

impl Compress {
    /// The input bytes fed to the compression session so far.
    pub closed spec fn fed(&self) -> Seq<u8> {
        writer_fed(self.codec)
    }

    /// The compressed bytes the session has handed back so far.
    pub closed spec fn emitted(&self) -> Seq<u8> {
        writer_emitted(self.codec)
    }

    /// True once the trailing seek table has been written.
    pub closed spec fn is_finished(&self) -> bool {
        self.wrote_seek_table
    }

    /// Create a compressor with the given level and frame size. When seeking
    /// in the result, frames are decompressed one by one, so the frame size
    /// should be similar to the chunks that will be read back.
    pub fn new(compression_level: usize, frame_size: usize) -> (r: Result<Self, Error>)
        ensures
            r matches Ok(c) ==> c.fed() == Seq::<u8>::empty() && c.emitted() == Seq::<u8>::empty()
                && !c.is_finished(),
            r matches Err(e) ==> e is ZstdSeekable,
    {
        match writer_new(compression_level, frame_size) {
            Ok(codec) => Ok(Compress { codec, wrote_seek_table: false }),
            Err(e) => Err(Error::ZstdSeekable(e)),
        }
    }

    /// True once the seek table has been written; after that, no demand will
    /// ever emit anything again.
    pub fn finished(&self) -> (r: bool)
        ensures
            r == self.is_finished(),
    {
        self.wrote_seek_table
    }

    /// Feed one input buffer through the session until all of it is
    /// consumed, returning the compressed bytes produced on the way (possibly
    /// none: the session buffers until a frame fills).
    pub fn compress_input(&mut self, input: &[u8]) -> (r: Result<Vec<u8>, Error>)
        ensures
            r matches Ok(out) ==> {
                &&& final(self).fed() == old(self).fed() + input@
                &&& final(self).emitted() == old(self).emitted() + out@
                &&& final(self).is_finished() == old(self).is_finished()
            },
            r matches Err(e) ==> e is ZstdSeekable && final(self).is_finished() == old(
                self,
            ).is_finished(),
    {
        let mut compressed: Vec<u8> = Vec::new();
        if input.len() == 0 {
            proof {
                assert(old(self).fed() + input@ =~= old(self).fed());
                assert(old(self).emitted() + compressed@ =~= old(self).emitted());
            }
            return Ok(compressed);
        }
        let mut used_total: usize = 0;
        while used_total < input.len()
            invariant
                used_total <= input@.len(),
                self.fed() == old(self).fed() + input@.subrange(0, used_total as int),
                self.emitted() == old(self).emitted() + compressed@,
                self.wrote_seek_table == old(self).wrote_seek_table,
            decreases input@.len() - used_total, writer_pending(self.codec),
        {
            match writer_compress_step(&mut self.codec, input, used_total) {
                Err(e) => {
                    return Err(Error::ZstdSeekable(e));
                },
                Ok((mut chunk, used)) => {
                    proof {
                        assert(input@.subrange(0, used_total as int) + input@.subrange(
                            used_total as int,
                            used_total + used,
                        ) =~= input@.subrange(0, used_total + used));
                        assert(old(self).fed() + input@.subrange(0, used_total as int)
                            + input@.subrange(used_total as int, used_total + used) =~= old(
                            self,
                        ).fed() + input@.subrange(0, used_total + used));
                        assert(old(self).emitted() + compressed@ + chunk@ =~= old(self).emitted()
                            + (compressed@ + chunk@));
                    }
                    compressed.append(&mut chunk);
                    used_total = used_total + used;
                },
            }
        }
        proof {
            assert(input@.subrange(0, used_total as int) =~= input@);
        }
        Ok(compressed)
    }

    /// Drain the session: flush it repeatedly until it reports no further
    /// output, accumulating everything produced, and mark the seek table as
    /// written. Only a fully successful drain sets the flag.
    pub fn end_stream(&mut self) -> (r: Result<Vec<u8>, Error>)
        ensures
            r matches Ok(out) ==> {
                &&& final(self).is_finished()
                &&& final(self).fed() == old(self).fed()
                &&& final(self).emitted() == old(self).emitted() + out@
            },
            r matches Err(e) ==> e is ZstdSeekable && final(self).is_finished() == old(
                self,
            ).is_finished(),
    {
        let mut compressed: Vec<u8> = Vec::new();
        let mut done = false;
        while !done
            invariant
                self.fed() == old(self).fed(),
                self.emitted() == old(self).emitted() + compressed@,
                self.wrote_seek_table == old(self).wrote_seek_table,
            decreases (if done { 0int } else { 1int }), writer_pending(self.codec),
        {
            match writer_end_step(&mut self.codec) {
                Err(e) => {
                    return Err(Error::ZstdSeekable(e));
                },
                Ok(mut chunk) => {
                    if chunk.len() == 0 {
                        done = true;
                        proof {
                            assert(self.emitted() + chunk@ =~= self.emitted());
                        }
                    } else {
                        proof {
                            assert(old(self).emitted() + compressed@ + chunk@ =~= old(
                                self,
                            ).emitted() + (compressed@ + chunk@));
                        }
                        compressed.append(&mut chunk);
                    }
                },
            }
        }
        self.wrote_seek_table = true;
        Ok(compressed)
    }

    /// The pull-driven state machine: map one upstream event to the next
    /// downstream item. Once finished, every demand yields `Done` and the
    /// state does not change, whatever the event; an error leaves the
    /// finished flag as it was.
    pub fn step(&mut self, event: CompressEvent) -> (r: CompressStep)
        ensures
            old(self).is_finished() ==> r is Done && *final(self) == *old(self),
            !old(self).is_finished() && event is End ==> {
                &&& r matches CompressStep::Emitted(out) ==> {
                    &&& out@.len() > 0
                    &&& final(self).is_finished()
                    &&& final(self).fed() == old(self).fed()
                    &&& final(self).emitted() == old(self).emitted() + out@
                }
                &&& r is Done ==> final(self).is_finished() && final(self).fed() == old(self).fed()
                    && final(self).emitted() == old(self).emitted()
                &&& r matches CompressStep::Failed(e) ==> e is ZstdSeekable && !final(self).is_finished()
                &&& !(r is NeedInput)
            },
            !old(self).is_finished() && event is Chunk ==> {
                &&& r matches CompressStep::Emitted(out) ==> {
                    &&& out@.len() > 0
                    &&& !final(self).is_finished()
                    &&& final(self).fed() == old(self).fed() + event.bytes()
                    &&& final(self).emitted() == old(self).emitted() + out@
                }
                &&& r is NeedInput ==> !final(self).is_finished() && final(self).fed() == old(self).fed() + event.bytes() && final(self).emitted() == old(self).emitted()
                &&& r matches CompressStep::Failed(e) ==> e is ZstdSeekable && !final(self).is_finished()
                &&& !(r is Done)
            },
    {
        if self.wrote_seek_table {
            return CompressStep::Done;
        }
        match event {
            CompressEvent::End => {
                match self.end_stream() {
                    Err(e) => CompressStep::Failed(e),
                    Ok(out) => {
                        if out.len() == 0 {
                            proof {
                                assert(self.emitted() =~= old(self).emitted() + out@);
                                assert(old(self).emitted() + out@ =~= old(self).emitted());
                            }
                            CompressStep::Done
                        } else {
                            CompressStep::Emitted(out)
                        }
                    },
                }
            },
            CompressEvent::Chunk(b) => {
                match self.compress_input(b.as_slice()) {
                    Err(e) => CompressStep::Failed(e),
                    Ok(out) => {
                        if out.len() == 0 {
                            proof {
                                assert(old(self).emitted() + out@ =~= old(self).emitted());
                            }
                            CompressStep::NeedInput
                        } else {
                            CompressStep::Emitted(out)
                        }
                    },
                }
            },
        }
    }
}

} // verus!
