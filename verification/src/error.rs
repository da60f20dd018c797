use vstd::prelude::*;

verus! {

/// The errors this crate returns.
///
/// Construction-time errors (`NoFrames`, `FrameTooLarge`, `DataTooLarge`,
/// `ValidationError`) fail fast and are never retried internally. Per-call
/// errors are returned to the immediate caller for that call only.
/// `ZstdSeekable` carries the description of an error from the underlying
/// frame codec; `Remote` the description of a failed remote fetch.
#[derive(Debug, PartialEq, Eq)]
pub enum Error {
    /// The compressed object holds no frames; it is not seekable and the
    /// caller should fall back to whole-object decompression.
    NoFrames,
    /// A frame size does not fit the working integer width.
    FrameTooLarge,
    /// The end of the decompressed data lies past the working integer width.
    DataTooLarge,
    /// A seek resolved to a negative or overflowing position.
    InvalidSeek,
    /// The remote response carried no usable content length.
    ValidationError,
    /// A configured read deadline expired before the call completed.
    TimedOut,
    /// An error from the underlying frame codec, covering corrupt compressed
    /// data and invalid session parameters.
    ZstdSeekable(String),
    /// An error from the remote object store.
    Remote(String),
}

impl Error {
    /// A short, stable description of the error kind.
    pub fn describe(&self) -> (r: &'static str)
        ensures
            self is NoFrames ==> r@ == "no frames found in the stream; use regular decompression"@,
            self is DataTooLarge ==> r@ == "data larger than we can work with"@,
            self is InvalidSeek ==> r@ == "invalid seek to a negative or overflowing position"@,
    {
        match self {
            Error::NoFrames => "no frames found in the stream; use regular decompression",
            Error::FrameTooLarge => "encountered a frame larger than we can work with",
            Error::DataTooLarge => "data larger than we can work with",
            Error::InvalidSeek => "invalid seek to a negative or overflowing position",
            Error::ValidationError => "content length not set in response",
            Error::TimedOut => "read timed out",
            Error::ZstdSeekable(_) => "error from the seekable zstd codec",
            Error::Remote(_) => "error from the remote object store",
        }
    }
}

} // verus!
