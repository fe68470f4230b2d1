//! The fetcher: issue an HTTP GET, follow redirects, validate the response,
//! and expose the body as a sequential byte source plus an optional
//! total-size hint.
//!
//! The network calls go through ureq and are the trusted boundary of this
//! crate; everything around them — including the redirect loop — is
//! verified. ureq's own automatic redirect following is switched off: its
//! redirect path can panic on a Location that resolves to a URL without a
//! host, while a URL handed to a fresh request is rejected cleanly. So each
//! hop here is one redirect-free GET, and the Location header is joined and
//! re-requested in verified code.

use vstd::prelude::*;
use std::io::Read;
use crate::byte_io::ByteSource;
use crate::size_hint::ResponseMetadata;
use crate::size_hint::parse_size_hint;

verus! {

/// How many redirects one fetch follows before giving up, matching the
/// limit configured on ureq's default agent.
pub const REDIRECT_LIMIT: usize = 5;

/// ureq's HTTP response, carried opaquely between the trusted calls.
#[verifier::external_type_specification]
#[verifier::external_body]
pub struct ExResponse(ureq::Response);

/// Why no body stream was obtained.
#[derive(Clone, Copy, PartialEq, Eq, Structural, Debug)]
pub enum FetchError {
    /// The server answered with this non-success HTTP status.
    Status(u16),
    /// The connection itself failed (malformed URL, DNS, connect, or too
    /// many redirects) before a usable HTTP status was obtained.
    Transport,
}

/// Relies on ureq::Response::status: the status code of the response line.
pub assume_specification[ ureq::Response::status ](this: &ureq::Response) -> u16;

/// Relies on ureq::Agent::get followed by ureq::Request::call: one GET for
/// the URL with automatic redirects disabled, so any 3xx comes back as a
/// plain response and a URL without a host is rejected as an error before
/// connecting, never unwrapped. ureq hands back Error::Status exactly for
/// a received response whose status is at least 400, and Error::Transport
/// for every failure before that; the two error arms are mapped onto
/// [`FetchError`] one for one. One caveat remains inside ureq: while a
/// zero-length or fully buffered body is being returned to its connection
/// pool, ureq holds two acknowledged `expect` calls that can panic if an
/// operating-system call fails at that moment; no input can exclude that,
/// and it is accepted as part of this trusted boundary.
#[verifier::external_body]
fn http_get(url: &str) -> (r: Result<ureq::Response, FetchError>)
    ensures
        r matches Err(FetchError::Status(c)) ==> c >= 400,
{
    let agent = ureq::AgentBuilder::new().redirects(0).build();
    match agent.get(url).call() {
        Ok(resp) => Ok(resp),
        Err(ureq::Error::Status(code, _)) => Err(FetchError::Status(code)),
        Err(ureq::Error::Transport(_)) => Err(FetchError::Transport),
    }
}

/// Relies on ureq::Response::header: the value of the named header, looked
/// up case-insensitively, if the response carried it.
#[verifier::external_body]
fn header_value(resp: &ureq::Response, name: &str) -> (h: Option<String>) {
    match resp.header(name) {
        Some(v) => Some(v.to_string()),
        None => None,
    }
}

/// Relies on url::Url::parse and url::Url::join: the Location of a
/// redirect resolved against the URL it answered, absolute or relative,
/// rendered back to a string; `None` when either step fails.
#[verifier::external_body]
fn join_url(base: &str, location: &str) -> (r: Option<String>) {
    match url::Url::parse(base) {
        Ok(b) => match b.join(location) {
            Ok(joined) => Some(joined.to_string()),
            Err(_) => None,
        },
        Err(_) => None,
    }
}

/// The open response body: a live network byte stream. It holds the
/// connection until it is consumed or dropped, and what it will yield
/// depends on the network, so nothing is stated about coming bytes.
#[verifier::external_body]
pub struct BodyStream {
    inner: std::boxed::Box<dyn std::io::Read + Send + Sync>,
}

/// The bytes a [`BodyStream`] has handed out so far, in order.
pub uninterp spec fn body_stream_produced(s: BodyStream) -> Seq<u8>;

/// The [`BodyStream`] has reached its end and will hand out nothing more.
pub uninterp spec fn body_stream_at_end(s: BodyStream) -> bool;

/// Relies on ureq::Response::into_reader: the response body as a
/// sequential reader. A fresh stream has handed out nothing yet.
#[verifier::external_body]
fn into_body_stream(resp: ureq::Response) -> (s: BodyStream)
    ensures
        body_stream_produced(s) == Seq::<u8>::empty(),
{
    BodyStream { inner: resp.into_reader() }
}

impl BodyStream {
    /// Relies on std::io::Read::read: reads at most `max` bytes into a
    /// fresh buffer. A read of 0 bytes from ureq's body readers is
    /// terminal: the body (sized, chunked or until-close) is exhausted.
    /// Any io error is collapsed into `Err`.
    #[verifier::external_body]
    fn read_some(&mut self, max: usize) -> (r: Result<Vec<u8>, ()>)
        requires
            max >= 1,
        ensures
            match r {
                Ok(chunk) => chunk@.len() <= max && body_stream_produced(*final(self))
                    == body_stream_produced(*old(self)) + chunk@
                    && (chunk@.len() == 0 ==> body_stream_at_end(*final(self))),
                Err(_) => body_stream_produced(*final(self)) == body_stream_produced(*old(self)),
            },
    {
        let mut buf = vec![0u8; max];
        match self.inner.read(&mut buf) {
            Ok(n) => {
                buf.truncate(n);
                Ok(buf)
            },
            Err(_) => Err(()),
        }
    }
}

impl ByteSource for BodyStream {
    closed spec fn produced(&self) -> Seq<u8> {
        body_stream_produced(*self)
    }

    closed spec fn at_end(&self) -> bool {
        body_stream_at_end(*self)
    }

    fn read_chunk(&mut self, max: usize) -> (r: Result<Vec<u8>, ()>) {
        self.read_some(max)
    }
}

/// Issue a GET for `url`, following up to [`REDIRECT_LIMIT`] redirects,
/// and validate the final response.
///
/// On success: the still-unread body stream and the size hint derived from
/// the content-length header (absent or malformed degrades to no hint, per
/// [`parse_size_hint`]). Any non-success status is reported as
/// `FetchError::Status` carrying that exact code; a connection-level
/// failure, a redirect past the limit, or a Location that cannot be
/// resolved is `FetchError::Transport`. In both error cases no stream is
/// returned, so no byte is ever copied.
pub fn fetch(url: &str) -> (r: Result<(BodyStream, ResponseMetadata), FetchError>)
    ensures
        match r {
            Ok(p) => p.0.produced() == Seq::<u8>::empty(),
            Err(FetchError::Status(c)) => !(200 <= c <= 299),
            Err(FetchError::Transport) => true,
        },
{
    let mut redirected: Option<String> = None;
    let mut hops: usize = 0;
    loop
        invariant
            hops <= REDIRECT_LIMIT,
        decreases REDIRECT_LIMIT - hops,
    {
        let current: &str = match &redirected {
            Some(s) => s.as_str(),
            None => url,
        };
        let resp = match http_get(current) {
            Ok(resp) => resp,
            Err(e) => {
                return Err(e);
            },
        };
        let code = resp.status();
        if 200 <= code && code <= 299 {
            let header = header_value(&resp, "Content-Length");
            let meta = parse_size_hint(
                match &header {
                    Some(s) => Some(s.as_str()),
                    None => None,
                },
            );
            let stream = into_body_stream(resp);
            return Ok((stream, meta));
        }
        let follow = code == 301 || code == 302 || code == 303 || code == 307 || code == 308;
        if !follow {
            return Err(FetchError::Status(code));
        }
        if hops >= REDIRECT_LIMIT {
            return Err(FetchError::Transport);
        }
        let location = match header_value(&resp, "Location") {
            Some(l) => l,
            None => {
                return Err(FetchError::Status(code));
            },
        };
        let next = match join_url(current, location.as_str()) {
            Some(n) => n,
            None => {
                return Err(FetchError::Transport);
            },
        };
        redirected = Some(next);
        hops = hops + 1;
    }
}

} // verus!
