//! Trusted boundary around the `zstd-seekable` codec.
//!
//! The codec sessions are opaque: what a session has consumed, what it has
//! handed back, and what it still buffers are named by uninterpreted spec
//! functions, and each wrapper states how one call moves those names.

use vstd::prelude::*;

verus! {

/// A seekable zstd compression session.
///
/// Wraps `zstd_seekable::SeekableCStream`; the session is opaque to the
/// verifier and is described only through `writer_fed`, `writer_emitted`
/// and `writer_pending`.
#[verifier::external_body]
pub struct CodecWriter {
    inner: zstd_seekable::SeekableCStream,
}

/// The input bytes the compression session has consumed so far.
pub uninterp spec fn writer_fed(w: CodecWriter) -> Seq<u8>;

/// The compressed bytes the compression session has handed back so far.
pub uninterp spec fn writer_emitted(w: CodecWriter) -> Seq<u8>;

/// A measure of what the compression session still buffers internally and
/// has yet to hand back; a flushing step that writes bytes shrinks it.
pub uninterp spec fn writer_pending(w: CodecWriter) -> nat;

/// Relies on `zstd_seekable::SeekableCStream::new`: a fresh session has
/// consumed no input and produced no output.
#[verifier::external_body]
pub(crate) fn writer_new(level: usize, frame_size: usize) -> (r: Result<CodecWriter, String>)
    ensures
        r matches Ok(w) ==> writer_fed(w) == Seq::<u8>::empty() && writer_emitted(w)
            == Seq::<u8>::empty(),
{
    match zstd_seekable::SeekableCStream::new(level, frame_size) {
        Ok(inner) => Ok(CodecWriter { inner }),
        Err(e) => Err(format!("{}", e)),
    }
}

/// Relies on `zstd_seekable::SeekableCStream::compress`: one step consumes a
/// prefix of the input and writes some compressed bytes. A step given a
/// non-empty input and an output buffer of `CStream::out_size` bytes either
/// consumes input, or fills the output while flushing internally buffered
/// data, which shrinks what the session still holds.
#[verifier::external_body]
pub(crate) fn writer_compress_step(w: &mut CodecWriter, input: &[u8], from: usize) -> (r: Result<
    (Vec<u8>, usize),
    String,
>)
    requires
        from < input@.len(),
    ensures
        r matches Ok(step) ==> {
            &&& step.1 <= input@.len() - from
            &&& writer_fed(*final(w)) == writer_fed(*old(w)) + input@.subrange(
                from as int,
                from + step.1,
            )
            &&& writer_emitted(*final(w)) == writer_emitted(*old(w)) + step.0@
            &&& step.1 > 0 || (step.0@.len() > 0 && writer_pending(*final(w)) < writer_pending(
                *old(w),
            ))
        },
{
    let mut out = vec![0u8; zstd_seekable::CStream::out_size()];
    match w.inner.compress(&mut out, &input[from..]) {
        Ok((out_pos, in_pos)) => {
            out.truncate(out_pos);
            Ok((out, in_pos))
        },
        Err(e) => Err(format!("{}", e)),
    }
}

/// Relies on `zstd_seekable::SeekableCStream::end_stream`: each step writes
/// some of what the session still has to flush (ending with the seek table),
/// shrinking it; a step that writes nothing means the flush is complete.
#[verifier::external_body]
pub(crate) fn writer_end_step(w: &mut CodecWriter) -> (r: Result<Vec<u8>, String>)
    ensures
        r matches Ok(out) ==> {
            &&& writer_fed(*final(w)) == writer_fed(*old(w))
            &&& writer_emitted(*final(w)) == writer_emitted(*old(w)) + out@
            &&& out@.len() > 0 ==> writer_pending(*final(w)) < writer_pending(*old(w))
        },
{
    let mut out = vec![0u8; zstd_seekable::CStream::out_size()];
    match w.inner.end_stream(&mut out) {
        Ok(n) => {
            out.truncate(n);
            Ok(out)
        },
        Err(e) => Err(format!("{}", e)),
    }
}

/// A seekable zstd decompression session over an in-memory compressed
/// object.
///
/// Wraps `zstd_seekable::Seekable`; the session is opaque to the verifier
/// and is described only through `reader_content` (the whole decompressed
/// data) and `reader_frames` (each frame's decompressed offset and size).
#[verifier::external_body]
pub struct CodecReader {
    inner: zstd_seekable::Seekable<'static, std::io::Cursor<Vec<u8>>>,
}

/// The whole decompressed content of the object a reader was opened on.
pub uninterp spec fn reader_content(r: CodecReader) -> Seq<u8>;

/// The frame index of the object: each frame's decompressed offset and
/// decompressed size, in frame order.
pub uninterp spec fn reader_frames(r: CodecReader) -> Seq<(u64, u64)>;

/// Relies on `zstd_seekable::Seekable::init`: opening parses the trailing
/// seek table. In the seekable format the frames are contiguous in
/// decompressed-offset space starting at zero, so the decompressed content
/// ends exactly where the last frame ends, and an object without frames has
/// no decompressed content.
#[verifier::external_body]
pub(crate) fn reader_open(compressed: Vec<u8>) -> (r: Result<CodecReader, String>)
    ensures
        r matches Ok(c) ==> {
            &&& reader_frames(c).len() == 0 ==> reader_content(c).len() == 0
            &&& reader_frames(c).len() > 0 ==> reader_content(c).len() == reader_frames(c)[
                reader_frames(c).len() - 1
            ].0 + reader_frames(c)[reader_frames(c).len() - 1].1
        },
{
    match zstd_seekable::Seekable::init(Box::new(std::io::Cursor::new(compressed))) {
        Ok(inner) => Ok(CodecReader { inner }),
        Err(e) => Err(format!("{}", e)),
    }
}

/// Relies on `zstd_seekable::Seekable::get_num_frames`.
#[verifier::external_body]
pub(crate) fn reader_num_frames(r: &CodecReader) -> (n: usize)
    ensures
        n == reader_frames(*r).len(),
{
    r.inner.get_num_frames()
}

/// Relies on `zstd_seekable::Seekable::get_frame_decompressed_offset`.
#[verifier::external_body]
pub(crate) fn reader_frame_offset(r: &CodecReader, i: usize) -> (off: u64)
    requires
        i < reader_frames(*r).len(),
    ensures
        off == reader_frames(*r)[i as int].0,
{
    r.inner.get_frame_decompressed_offset(i)
}

/// Relies on `zstd_seekable::Seekable::get_frame_decompressed_size`.
#[verifier::external_body]
pub(crate) fn reader_frame_size(r: &CodecReader, i: usize) -> (s: usize)
    requires
        i < reader_frames(*r).len(),
    ensures
        s == reader_frames(*r)[i as int].1,
{
    r.inner.get_frame_decompressed_size(i)
}

/// Relies on `zstd_seekable::Seekable::decompress`: decompressing from an
/// absolute decompressed offset yields the bytes of the content at that
/// offset; the output buffer must not reach past the end of the content.
/// The object itself is unchanged by the call.
#[verifier::external_body]
pub(crate) fn reader_decompress(r: &mut CodecReader, len: usize, offset: u64) -> (out: Result<
    Vec<u8>,
    String,
>)
    requires
        offset + len <= reader_content(*old(r)).len(),
    ensures
        reader_content(*final(r)) == reader_content(*old(r)),
        reader_frames(*final(r)) == reader_frames(*old(r)),
        out matches Ok(v) ==> v@.len() <= len && v@ == reader_content(*old(r)).subrange(
            offset as int,
            offset + v@.len(),
        ),
{
    let mut buf = vec![0u8; len];
    match r.inner.decompress(&mut buf, offset) {
        Ok(n) => {
            buf.truncate(n);
            Ok(buf)
        },
        Err(e) => Err(format!("{}", e)),
    }
}

} // verus!
