//! Random-access reading of a seekable-zstd compressed object.
//!
//! `SeekableDecompress` keeps a cursor in the decompressed data and computes
//! the total decompressed size once, from the last frame of the index. A
//! seek is pure bookkeeping and never touches the codec; a read clamps the
//! request to what logically remains and delegates to the codec.

use vstd::prelude::*;

use crate::codec::{
    reader_content, reader_decompress, reader_frame_offset, reader_frame_size, reader_frames,
    reader_num_frames, reader_open, CodecReader,
};
use crate::error::Error;
use crate::position::{resolve_seek, seek_target, SeekFrom};

verus! {

/// Where the frame index says the decompressed data ends: the last frame's
/// decompressed offset plus its decompressed size.
pub open spec fn frames_end(fs: Seq<(u64, u64)>) -> int
    recommends
        fs.len() > 0,
{
    fs[fs.len() - 1].0 + fs[fs.len() - 1].1
}

/// Compute the total decompressed size of an opened object from its frame
/// index. Fails with `NoFrames` exactly when the object has no frames, and
/// with `DataTooLarge` exactly when the end of the last frame does not fit
/// the working width.
pub fn object_size(seekable: &CodecReader) -> (r: Result<u64, Error>)
    ensures
        reader_frames(*seekable).len() == 0 ==> r == Err::<u64, Error>(Error::NoFrames),
        reader_frames(*seekable).len() > 0 && frames_end(reader_frames(*seekable)) > u64::MAX
            ==> r == Err::<u64, Error>(Error::DataTooLarge),
        reader_frames(*seekable).len() > 0 && frames_end(reader_frames(*seekable)) <= u64::MAX
            ==> (r matches Ok(s) && s == frames_end(reader_frames(*seekable))),
{
    let n = reader_num_frames(seekable);
    if n == 0 {
        return Err(Error::NoFrames);
    }
    let last_frame_start = reader_frame_offset(seekable, n - 1);
    let last_frame_size = reader_frame_size(seekable, n - 1);
    match last_frame_start.checked_add(last_frame_size as u64) {
        None => Err(Error::DataTooLarge),
        Some(s) => Ok(s),
    }
}

/// Seek and read within the decompressed view of a compressed object.
pub struct SeekableDecompress {
    seekable: CodecReader,
    decompressed_size: u64,
    decompressed_position: u64,
}

impl SeekableDecompress {
    /// The whole decompressed content of the object.
    pub closed spec fn content(&self) -> Seq<u8> {
        reader_content(self.seekable)
    }

    /// The total decompressed size, computed once at construction.
    pub closed spec fn size(&self) -> u64 {
        self.decompressed_size
    }

    /// The cursor in the decompressed data. It may lie past the end; reads
    /// there return no bytes.
    pub closed spec fn position(&self) -> u64 {
        self.decompressed_position
    }

    /// Well-formed: the stored size is the length of the decompressed
    /// content.
    pub closed spec fn wf(&self) -> bool {
        self.decompressed_size == reader_content(self.seekable).len()
    }

    /// Open a compressed object for seekable decompression. Fails with
    /// `NoFrames` if the object has no frames (the caller should fall back
    /// to regular decompression), with `DataTooLarge` if the decompressed
    /// end does not fit the working width, and passes codec errors through.
    pub fn new(compressed: Vec<u8>) -> (r: Result<Self, Error>)
        ensures
            r matches Ok(d) ==> d.wf() && d.position() == 0,
            r matches Err(e) ==> e is NoFrames || e is DataTooLarge || e is ZstdSeekable,
    {
        let seekable = match reader_open(compressed) {
            Err(e) => {
                return Err(Error::ZstdSeekable(e));
            },
            Ok(s) => s,
        };
        let decompressed_size = match object_size(&seekable) {
            Err(e) => {
                return Err(e);
            },
            Ok(s) => s,
        };
        Ok(SeekableDecompress { seekable, decompressed_size, decompressed_position: 0 })
    }

    /// Store a new cursor position. Seeking is pure bookkeeping: it never
    /// touches the codec and never fails for being past the end; it fails
    /// with `InvalidSeek` exactly when the end-relative or current-relative
    /// arithmetic leaves the working width.
    pub fn seek(&mut self, pos: SeekFrom) -> (r: Result<u64, Error>)
        ensures
            final(self).size() == old(self).size(),
            final(self).content() == old(self).content(),
            pos matches SeekFrom::Start(p) ==> r == Ok::<u64, Error>(p) && final(self).position()
                == p,
            pos matches SeekFrom::End(off) ==> match seek_target(old(self).size(), off) {
                Some(n) => r == Ok::<u64, Error>(n) && final(self).position() == n,
                None => r == Err::<u64, Error>(Error::InvalidSeek) && final(self).position()
                    == old(self).position(),
            },
            pos matches SeekFrom::Current(off) ==> match seek_target(
                old(self).position(),
                off,
            ) {
                Some(n) => r == Ok::<u64, Error>(n) && final(self).position() == n,
                None => r == Err::<u64, Error>(Error::InvalidSeek) && final(self).position()
                    == old(self).position(),
            },
            pos matches SeekFrom::End(off) && off == 0 ==> r == Ok::<u64, Error>(
                old(self).size(),
            ) && final(self).position() == old(self).size(),
    {
        match pos {
            SeekFrom::Start(p) => {
                self.decompressed_position = p;
                Ok(p)
            },
            SeekFrom::End(off) => match resolve_seek(self.decompressed_size, off) {
                Some(n) => {
                    self.decompressed_position = n;
                    Ok(n)
                },
                None => Err(Error::InvalidSeek),
            },
            SeekFrom::Current(off) => match resolve_seek(self.decompressed_position, off) {
                Some(n) => {
                    self.decompressed_position = n;
                    Ok(n)
                },
                None => Err(Error::InvalidSeek),
            },
        }
    }

    /// Read up to `want` decompressed bytes at the cursor. A cursor at or
    /// past the end yields no bytes and no error, without touching the
    /// codec; otherwise the request is clamped so the codec is never asked
    /// for more bytes than logically remain, and the cursor advances by
    /// exactly the bytes produced.
    pub fn read(&mut self, want: usize) -> (r: Result<Vec<u8>, Error>)
        requires
            old(self).wf(),
        ensures
            final(self).wf(),
            final(self).size() == old(self).size(),
            final(self).content() == old(self).content(),
            old(self).position() >= old(self).size() ==> (r matches Ok(v) && v@.len() == 0
                && final(self).position() == old(self).position()),
            old(self).position() < old(self).size() ==> (r matches Ok(v) ==> {
                &&& v@.len() <= want
                &&& old(self).position() + v@.len() <= old(self).size()
                &&& v@ == old(self).content().subrange(
                    old(self).position() as int,
                    old(self).position() + v@.len(),
                )
                &&& final(self).position() == old(self).position() + v@.len()
            }),
            r matches Err(e) ==> e is ZstdSeekable && final(self).position() == old(
                self,
            ).position(),
    {
        if self.decompressed_position >= self.decompressed_size {
            return Ok(Vec::new());
        }
        let data_left = self.decompressed_size - self.decompressed_position;
        let len: usize = if data_left < want as u64 {
            data_left as usize
        } else {
            want
        };
        if len == 0 {
            return Ok(Vec::new());
        }
        match reader_decompress(&mut self.seekable, len, self.decompressed_position) {
            Err(e) => Err(Error::ZstdSeekable(e)),
            Ok(v) => {
                self.decompressed_position = self.decompressed_position + v.len() as u64;
                Ok(v)
            },
        }
    }
}

} // verus!
