//! A remote object in an S3-compatible store, read through lazy ranged
//! fetches as a random-access byte source.
//!
//! `SeekableS3Object` keeps a cursor in the compressed object, learns the
//! object's total length from one un-ranged fetch at construction, and opens
//! a ranged body (`bytes=N-`) lazily on the first read after a seek. Seeking
//! to the position an open body already implies keeps the body; seeking
//! anywhere else discards it, forcing a fresh fetch on the next read.
//!
//! The calls into `rusoto` and the blocking bridge into `tokio` are trusted;
//! everything stated of them assumes the remote object does not change while
//! this handle is open. The bridge must not be driven from a thread that is
//! itself running inside a `tokio` runtime.

use vstd::prelude::*;

use crate::error::Error;
use crate::position::{resolve_seek, seek_target, SeekFrom};
use rusoto_s3::S3;
use tokio::io::AsyncReadExt;

verus! {

/// The `rusoto` S3 client type, carried through opaquely.
#[verifier::external_type_specification]
#[verifier::external_body]
pub struct ExS3Client(rusoto_s3::S3Client);

/// The `rusoto` GetObject request template, carried through opaquely. The
/// caller-supplied template names the bucket and key; its byte-range is
/// managed here and never taken from the caller.
#[verifier::external_type_specification]
#[verifier::external_body]
pub struct ExGetObjectRequest(rusoto_s3::GetObjectRequest);

/// An S3 client bound to one object, together with the runtime that drives
/// its fetches. Opaque to the verifier; described only by `remote_object`.
#[verifier::external_body]
pub struct RemoteClient {
    client: rusoto_s3::S3Client,
    runtime: tokio::runtime::Runtime,
    req: rusoto_s3::GetObjectRequest,
}

/// An open, sequentially-consumable fetch body. Opaque to the verifier;
/// described only by `body_bytes`.
#[verifier::external_body]
pub struct RemoteBody {
    inner: std::pin::Pin<Box<dyn tokio::io::AsyncRead + Send>>,
}

/// The bytes of the remote object a client is bound to, assumed not to
/// change while the handle is open.
pub uninterp spec fn remote_object(c: RemoteClient) -> Seq<u8>;

/// The bytes an open body has yet to deliver.
pub uninterp spec fn body_bytes(b: RemoteBody) -> Seq<u8>;

/// Relies on `tokio::runtime::Builder`: bind a client and a request template
/// to a runtime of their own, with any caller-supplied byte-range stripped
/// so the first fetch reports the full object length.
#[verifier::external_body]
pub(crate) fn remote_client_new(
    client: rusoto_s3::S3Client,
    req: rusoto_s3::GetObjectRequest,
) -> (r: Result<RemoteClient, Error>)
    ensures
        r matches Err(e) ==> e is Remote,
{
    let mut req = req;
    req.range = None;
    match tokio::runtime::Builder::new_current_thread().enable_all().build() {
        Ok(runtime) => Ok(RemoteClient { client, runtime, req }),
        Err(e) => Err(Error::Remote(format!("{}", e))),
    }
}

/// Relies on `rusoto_s3::S3::get_object` without a range: the response's
/// `content_length` is the total length of the object and its body, when
/// present, delivers the whole object. A configured deadline bounds the
/// call, not the fetch behind it.
#[verifier::external_body]
pub(crate) fn remote_fetch_all(c: &RemoteClient, timeout_ms: Option<u64>) -> (r: Result<
    (Option<i64>, Option<RemoteBody>),
    Error,
>)
    ensures
        r matches Ok(out) ==> {
            &&& (out.0 matches Some(l) ==> (l >= 0 ==> l == remote_object(*c).len()))
            &&& (out.1 matches Some(b) ==> body_bytes(b) == remote_object(*c))
        },
        r matches Err(e) ==> e is TimedOut || e is Remote,
{
    let fut = c.client.get_object(c.req.clone());
    let out = match timeout_ms {
        None => c.runtime.block_on(fut),
        Some(ms) => {
            let _guard = c.runtime.enter();
            let deadline = tokio::time::timeout(core::time::Duration::from_millis(ms), fut);
            match c.runtime.block_on(deadline) { Ok(r) => r, Err(_) => return Err(Error::TimedOut) }
        },
    };
    match out {
        Ok(o) => Ok((o.content_length, o.body.map(|bs| RemoteBody { inner: Box::pin(bs.into_async_read()) }))),
        Err(e) => Err(Error::Remote(format!("{}", e))),
    }
}

/// Relies on `rusoto_s3::S3::get_object` with a range of the form
/// `bytes=N-`: the body, when present, delivers the object from byte `N` to
/// its end. The store rejects out-of-range requests, so `N` must lie within
/// the object.
#[verifier::external_body]
pub(crate) fn remote_fetch_from(c: &RemoteClient, position: u64, timeout_ms: Option<u64>) -> (r:
    Result<Option<RemoteBody>, Error>)
    requires
        position < remote_object(*c).len(),
    ensures
        r matches Ok(out) ==> (out matches Some(b) ==> body_bytes(b) == remote_object(*c).skip(
            position as int,
        )),
        r matches Err(e) ==> e is TimedOut || e is Remote,
{
    let mut req = c.req.clone();
    req.range = Some(format!("bytes={}-", position));
    let fut = c.client.get_object(req);
    let out = match timeout_ms {
        None => c.runtime.block_on(fut),
        Some(ms) => {
            let _guard = c.runtime.enter();
            let deadline = tokio::time::timeout(core::time::Duration::from_millis(ms), fut);
            match c.runtime.block_on(deadline) { Ok(r) => r, Err(_) => return Err(Error::TimedOut) }
        },
    };
    match out {
        Ok(o) => Ok(o.body.map(|bs| RemoteBody { inner: Box::pin(bs.into_async_read()) })),
        Err(e) => Err(Error::Remote(format!("{}", e))),
    }
}

/// Relies on `tokio::io::AsyncReadExt::read` driven to completion on the
/// client's runtime: a read hands back a prefix of what the body has yet to
/// deliver and consumes exactly that prefix. On expiry of a configured
/// deadline the call returns `TimedOut` without a guarantee that the fetch
/// behind it was canceled.
#[verifier::external_body]
pub(crate) fn remote_body_read(
    c: &RemoteClient,
    b: &mut RemoteBody,
    want: usize,
    timeout_ms: Option<u64>,
) -> (r: Result<Vec<u8>, Error>)
    ensures
        r matches Ok(v) ==> {
            &&& v@.len() <= want
            &&& v@.len() <= body_bytes(*old(b)).len()
            &&& v@ == body_bytes(*old(b)).subrange(0, v@.len() as int)
            &&& body_bytes(*final(b)) == body_bytes(*old(b)).skip(v@.len() as int)
        },
        r matches Err(e) ==> e is TimedOut || e is Remote,
{
    let mut buf = vec![0u8; want];
    let fut = b.inner.read(&mut buf);
    let out = match timeout_ms {
        None => c.runtime.block_on(fut),
        Some(ms) => {
            let _guard = c.runtime.enter();
            let deadline = tokio::time::timeout(core::time::Duration::from_millis(ms), fut);
            match c.runtime.block_on(deadline) { Ok(r) => r, Err(_) => return Err(Error::TimedOut) }
        },
    };
    match out {
        Ok(n) => { buf.truncate(n); Ok(buf) },
        Err(e) => Err(Error::Remote(format!("{}", e))),
    }
}

/// Validate the content length reported by the initial un-ranged response:
/// an absent or negative length is rejected.
pub fn validate_length(content_length: Option<i64>) -> (r: Result<u64, Error>)
    ensures
        content_length matches Some(l) ==> (l >= 0 ==> r == Ok::<u64, Error>(l as u64)),
        content_length matches Some(l) ==> (l < 0 ==> r == Err::<u64, Error>(
            Error::ValidationError,
        )),
        content_length is None ==> r == Err::<u64, Error>(Error::ValidationError),
{
    match content_length {
        None => Err(Error::ValidationError),
        Some(l) => {
            if l < 0 {
                Err(Error::ValidationError)
            } else {
                Ok(l as u64)
            }
        },
    }
}

/// A remote object read and sought like a local random-access byte source.
///
/// The seek and read methods move within the compressed object; its bytes
/// are fetched lazily, a range at a time. The blocking bridge into the
/// fetches must not be driven from a thread already running inside an
/// asynchronous runtime.
pub struct SeekableS3Object {
    remote: RemoteClient,
    body: Option<RemoteBody>,
    position: u64,
    length: u64,
    read_timeout_ms: Option<u64>,
}

impl SeekableS3Object {
    /// The bytes of the remote object.
    pub closed spec fn object(&self) -> Seq<u8> {
        remote_object(self.remote)
    }

    /// The cursor in the compressed object.
    pub closed spec fn position(&self) -> u64 {
        self.position
    }

    /// The object's total length, fixed at construction.
    pub closed spec fn length(&self) -> u64 {
        self.length
    }

    /// Whether a still-valid, sequentially-consumable fetch is open at the
    /// cursor.
    pub closed spec fn has_body(&self) -> bool {
        self.body is Some
    }

    /// The configured read deadline, in milliseconds.
    pub closed spec fn timeout(&self) -> Option<u64> {
        self.read_timeout_ms
    }

    /// Well-formed: the stored length is the object's length, and an open
    /// body delivers exactly the object from the cursor on.
    pub closed spec fn wf(&self) -> bool {
        &&& self.length == remote_object(self.remote).len()
        &&& (self.body matches Some(b) ==> self.position <= self.length && body_bytes(b)
            == remote_object(self.remote).skip(self.position as int))
    }

    /// Open a remote object: one un-ranged fetch learns its total length
    /// (any caller-supplied byte-range is stripped first so the reported
    /// length is the full object size) and leaves its body open at offset
    /// zero. Fails with `ValidationError` exactly when the response carries
    /// no usable length.
    pub fn new(
        client: rusoto_s3::S3Client,
        read_timeout_ms: Option<u64>,
        req: rusoto_s3::GetObjectRequest,
    ) -> (r: Result<Self, Error>)
        ensures
            r matches Ok(o) ==> o.wf() && o.position() == 0 && o.timeout() == read_timeout_ms,
            r matches Err(e) ==> e is TimedOut || e is Remote || e is ValidationError,
    {
        let remote = match remote_client_new(client, req) {
            Err(e) => {
                return Err(e);
            },
            Ok(c) => c,
        };
        let (content_length, body) = match remote_fetch_all(&remote, read_timeout_ms) {
            Err(e) => {
                return Err(e);
            },
            Ok(out) => out,
        };
        let length = match validate_length(content_length) {
            Err(e) => {
                return Err(e);
            },
            Ok(l) => l,
        };
        proof {
            assert(remote_object(remote).skip(0) =~= remote_object(remote));
        }
        Ok(SeekableS3Object { remote, body, position: 0, length, read_timeout_ms })
    }

    /// Set the read deadline; `None` disables it. In-flight state is
    /// untouched.
    pub fn set_read_timeout(&mut self, read_timeout_ms: Option<u64>)
        ensures
            final(self).timeout() == read_timeout_ms,
            final(self).position() == old(self).position(),
            final(self).length() == old(self).length(),
            final(self).object() == old(self).object(),
            final(self).has_body() == old(self).has_body(),
            old(self).wf() ==> final(self).wf(),
    {
        self.read_timeout_ms = read_timeout_ms;
    }

    /// Store the cursor. A position that actually changes discards the open
    /// body, so the next read fetches afresh; storing the position the body
    /// already implies keeps everything as it is.
    fn set_position(&mut self, new_position: u64)
        ensures
            final(self).position() == new_position,
            final(self).length() == old(self).length(),
            final(self).object() == old(self).object(),
            final(self).timeout() == old(self).timeout(),
            new_position == old(self).position() ==> *final(self) == *old(self),
            new_position != old(self).position() ==> !final(self).has_body(),
            old(self).wf() ==> final(self).wf(),
    {
        if self.position != new_position {
            self.position = new_position;
            self.body = None;
        }
    }

    /// Store a new cursor position. The arithmetic mirrors the decompressed
    /// cursor's: absolute positions are taken as they are, end-relative and
    /// current-relative ones are combined with checked arithmetic and fail
    /// with `InvalidSeek` exactly when they leave the working width. No
    /// fetch is ever issued here.
    pub fn seek(&mut self, pos: SeekFrom) -> (r: Result<u64, Error>)
        ensures
            final(self).length() == old(self).length(),
            final(self).object() == old(self).object(),
            final(self).timeout() == old(self).timeout(),
            old(self).wf() ==> final(self).wf(),
            pos matches SeekFrom::Start(p) ==> r == Ok::<u64, Error>(p) && final(self).position()
                == p && (p == old(self).position() ==> *final(self) == *old(self)) && (p != old(
                self,
            ).position() ==> !final(self).has_body()),
            pos matches SeekFrom::End(off) ==> match seek_target(old(self).length(), off) {
                Some(n) => r == Ok::<u64, Error>(n) && final(self).position() == n && (n == old(
                    self,
                ).position() ==> *final(self) == *old(self)) && (n != old(self).position()
                    ==> !final(self).has_body()),
                None => r == Err::<u64, Error>(Error::InvalidSeek) && *final(self) == *old(self),
            },
            pos matches SeekFrom::Current(off) ==> match seek_target(
                old(self).position(),
                off,
            ) {
                Some(n) => r == Ok::<u64, Error>(n) && final(self).position() == n && (n == old(
                    self,
                ).position() ==> *final(self) == *old(self)) && (n != old(self).position()
                    ==> !final(self).has_body()),
                None => r == Err::<u64, Error>(Error::InvalidSeek) && *final(self) == *old(self),
            },
    {
        match pos {
            SeekFrom::Start(p) => {
                self.set_position(p);
                Ok(p)
            },
            SeekFrom::End(off) => match resolve_seek(self.length, off) {
                Some(n) => {
                    self.set_position(n);
                    Ok(n)
                },
                None => Err(Error::InvalidSeek),
            },
            SeekFrom::Current(off) => match resolve_seek(self.position, off) {
                Some(n) => {
                    self.set_position(n);
                    Ok(n)
                },
                None => Err(Error::InvalidSeek),
            },
        }
    }

    /// Read up to `want` bytes at the cursor. A cursor at or past the end
    /// yields no bytes and no error without issuing any request (the store
    /// rejects out-of-range ranged fetches). Otherwise an already open body
    /// is consumed directly; only when none is open is a fresh ranged fetch
    /// issued, scoped from the cursor to the object's end. The cursor
    /// advances by exactly the bytes produced; a failed read discards the
    /// body and leaves the cursor, so the next read fetches afresh at the
    /// same position.
    pub fn read(&mut self, want: usize) -> (r: Result<Vec<u8>, Error>)
        requires
            old(self).wf(),
        ensures
            final(self).wf(),
            final(self).length() == old(self).length(),
            final(self).object() == old(self).object(),
            final(self).timeout() == old(self).timeout(),
            old(self).position() >= old(self).length() ==> (r matches Ok(v) && v@.len() == 0
                && *final(self) == *old(self)),
            old(self).position() < old(self).length() ==> (r matches Ok(v) ==> {
                &&& v@.len() <= want
                &&& old(self).position() + v@.len() <= old(self).length()
                &&& v@ == old(self).object().subrange(
                    old(self).position() as int,
                    old(self).position() + v@.len(),
                )
                &&& final(self).position() == old(self).position() + v@.len()
            }),
            r matches Err(e) ==> (e is TimedOut || e is Remote) && final(self).position() == old(
                self,
            ).position() && !final(self).has_body(),
    {
        if self.position >= self.length {
            return Ok(Vec::new());
        }
        if self.body.is_none() {
            match remote_fetch_from(&self.remote, self.position, self.read_timeout_ms) {
                Err(e) => {
                    return Err(e);
                },
                Ok(fetched) => {
                    self.body = fetched;
                },
            }
        }
        let read_result = match &mut self.body {
            Some(b) => remote_body_read(&self.remote, b, want, self.read_timeout_ms),
            None => Ok(Vec::new()),
        };
        match read_result {
            Err(e) => {
                self.body = None;
                Err(e)
            },
            Ok(v) => {
                proof {
                    assert(old(self).object().skip(old(self).position() as int).subrange(
                        0,
                        v@.len() as int,
                    ) =~= old(self).object().subrange(
                        old(self).position() as int,
                        old(self).position() + v@.len(),
                    ));
                    assert(old(self).object().skip(old(self).position() as int).skip(
                        v@.len() as int,
                    ) =~= old(self).object().skip(old(self).position() + v@.len()));
                }
                self.position = self.position + v.len() as u64;
                Ok(v)
            },
        }
    }
}

/// Fetch an object as a seekable byte source, in the style of the client's
/// own request methods.
pub trait GetSeekableObject: Sized {
    /// Open the requested object for seekable reading, with an optional
    /// read deadline in milliseconds.
    fn get_seekable_object(
        self,
        read_timeout_ms: Option<u64>,
        input: rusoto_s3::GetObjectRequest,
    ) -> (r: Result<SeekableS3Object, Error>)
        ensures
            r matches Ok(o) ==> o.wf() && o.position() == 0 && o.timeout() == read_timeout_ms,
    ;
}

impl GetSeekableObject for rusoto_s3::S3Client {
    fn get_seekable_object(
        self,
        read_timeout_ms: Option<u64>,
        input: rusoto_s3::GetObjectRequest,
    ) -> (r: Result<SeekableS3Object, Error>) {
        SeekableS3Object::new(self, read_timeout_ms, input)
    }
}

} // verus!
