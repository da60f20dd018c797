//! Random-access reading and incremental writing of data in the seekable
//! zstd frame format, including when the compressed bytes live in a remote
//! object store reachable only through ranged fetches.
//!
//! The compression and decompression sessions themselves are supplied by the
//! `zstd-seekable` crate and the remote fetches by `rusoto`; this crate
//! verifies the state machines around them: offset bookkeeping, clamping,
//! lazy body invalidation, part chunking, and exactly-once finalization.

mod codec;
mod compress;
mod decompress;
mod error;
mod position;
mod seekable_s3;
mod upload_s3;

pub use codec::{reader_content, reader_frames, CodecReader};
pub use codec::{writer_emitted, writer_fed, writer_pending, CodecWriter};
pub use compress::{Compress, CompressEvent, CompressStep};
pub use decompress::{frames_end, object_size, SeekableDecompress};
pub use error::Error;
pub use position::{resolve_seek, seek_target, SeekFrom};
pub use seekable_s3::{body_bytes, remote_object, validate_length, RemoteBody, RemoteClient, SeekableS3Object};
pub use seekable_s3::GetSeekableObject;
pub use upload_s3::{UploadEvent, UploadPart, UploadParts, UploadStep};
