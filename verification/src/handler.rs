//! What happens to a request whose scope is cooling down.
//!
//! Counting is fixed; what to do with a request over the limit is not. The
//! limiter hands such a request to a [`RatelimitHandler`], which lets it pass
//! or answers it with a [`ResponseTemplate`]. [`TooManyRequests`] is the
//! handler for those who need no other.

use crate::bucket::Bucket;
use crate::headers::{
    header_map_entries, header_map_new, info_headers, info_written, limited_headers,
    limited_written, no_headers, HeaderMapFull,
};
use axum::http::header::{HeaderMap, HeaderValue};
use vstd::prelude::*;

verus! {

/// The status code of the answer that [`TooManyRequests`] gives.
pub const TOO_MANY_REQUESTS: u16 = 429;

/// The answer to a rejected request, as far as the limiter needs to know it:
/// a status code, headers, and a body of text.
#[derive(Debug)]
pub struct ResponseTemplate {
    /// The HTTP status code.
    pub status: u16,
    /// The headers of the answer.
    pub headers: HeaderMap<HeaderValue>,
    /// The body of the answer.
    pub body: String,
}

impl ResponseTemplate {
    /// Whether this is the plain answer that [`TooManyRequests`] gives:
    /// status 429, no headers, and the reason phrase for a body.
    pub open spec fn is_too_many_requests(self) -> bool {
        &&& self.status == TOO_MANY_REQUESTS
        &&& header_map_entries(self.headers) == no_headers()
        &&& self.body@ == "Too Many Requests"@
    }

    /// Makes the plain answer to a request over the limit.
    pub fn too_many_requests() -> (response: ResponseTemplate)
        ensures
            response.is_too_many_requests(),
    {
        ResponseTemplate {
            status: TOO_MANY_REQUESTS,
            headers: header_map_new(),
            body: String::from_str("Too Many Requests"),
        }
    }
}

/// What the limiter returns for a handler's decision: the decision itself,
/// but for the headers that are added to a rejection.
pub open spec fn answers(
    decided: Result<(), ResponseTemplate>,
    verdict: Result<(), ResponseTemplate>,
) -> bool {
    match decided {
        Ok(()) => verdict is Ok,
        Err(given) => (verdict matches Err(sent) && sent.status == given.status && sent.body
            == given.body),
    }
}

/// Whether `verdict` is `decided` with the standard headers of a rejection
/// written from `bucket`, as far as `written` says they were. Holds of every
/// decision that lets the request pass.
pub open spec fn answers_with_limited_headers(
    decided: Result<(), ResponseTemplate>,
    verdict: Result<(), ResponseTemplate>,
    bucket: Bucket,
    now: u64,
    unix_now: u64,
    written: Result<(), HeaderMapFull>,
) -> bool {
    match (decided, verdict) {
        (Err(given), Err(sent)) => limited_written(
            header_map_entries(given.headers),
            header_map_entries(sent.headers),
            bucket,
            now,
            unix_now,
            written,
        ),
        (Err(_), Ok(_)) => false,
        (Ok(_), _) => true,
    }
}

/// Decides about the requests of a scope that is cooling down.
///
/// `Req` is the request as the handler sees it; the limiter only passes it
/// through.
pub trait RatelimitHandler<Req> {
    /// What this handler promises of [`RatelimitHandler::handle_ratelimit`]:
    /// a relation between the bucket it is given (`before`), the bucket it
    /// leaves (`after`) and its verdict. A handler that promises nothing
    /// keeps this default.
    open spec fn decides(
        &self,
        request: &Req,
        before: Bucket,
        now: u64,
        after: Bucket,
        verdict: Result<(), ResponseTemplate>,
    ) -> bool {
        true
    }

    /// Whether this handler promises to write the standard headers, those
    /// of [`info_headers`] and [`limited_headers`]. A handler that promises
    /// nothing keeps this default, whatever it writes.
    open spec fn writes_standard_headers() -> bool {
        false
    }

    /// Decides about one request of a scope that is cooling down at `now`.
    ///
    /// `Ok(())` lets the request pass. `Err(response)` rejects it, and the
    /// response is what the client gets. The handler may change the bucket: the
    /// limiter keeps whatever it leaves there. The limiter calls this only
    /// while the bucket is cooling down.
    fn handle_ratelimit(&mut self, request: &Req, bucket: &mut Bucket, now: u64) -> (verdict:
        Result<(), ResponseTemplate>)
        requires
            old(bucket).cooling(now),
        ensures
            old(self).decides(request, *old(bucket), now, *final(bucket), verdict),
    ;

    /// Writes the headers that go on every response of a limiter that
    /// allows `rate` requests per window.
    ///
    /// Unless a handler has headers of its own, this is [`info_headers`]:
    /// it writes the allowance, and fails only on a map that is full.
    fn append_ratelimit_info_headers(&self, rate: u32, headers: &mut HeaderMap<HeaderValue>) -> (r:
        Result<(), HeaderMapFull>)
        ensures
            Self::writes_standard_headers() ==> info_written(
                header_map_entries(*old(headers)),
                header_map_entries(*final(headers)),
                rate,
                r,
            ),
        default_ensures
            info_written(
                header_map_entries(*old(headers)),
                header_map_entries(*final(headers)),
                rate,
                r,
            ),
    {
        info_headers(rate, headers)
    }

    /// Writes the headers that go on the answer to a rejected request, from
    /// the bucket as the decision left it.
    ///
    /// Unless a handler has headers of its own, this is [`limited_headers`]:
    /// it writes the count, the reset and the time to wait, and fails only on
    /// a map that is full.
    fn append_ratelimit_limited_headers(
        &self,
        bucket: &Bucket,
        now: u64,
        unix_now: u64,
        headers: &mut HeaderMap<HeaderValue>,
    ) -> (r: Result<(), HeaderMapFull>)
        ensures
            Self::writes_standard_headers() ==> limited_written(
                header_map_entries(*old(headers)),
                header_map_entries(*final(headers)),
                *bucket,
                now,
                unix_now,
                r,
            ),
        default_ensures
            limited_written(
                header_map_entries(*old(headers)),
                header_map_entries(*final(headers)),
                *bucket,
                now,
                unix_now,
                r,
            ),
    {
        limited_headers(bucket, now, unix_now, headers)
    }
}

/// The handler that rejects every request over the limit with the plain
/// answer of [`ResponseTemplate::too_many_requests`], and leaves the bucket
/// alone.
#[derive(Clone, Copy, Debug, Default)]
pub struct TooManyRequests;

impl<Req> RatelimitHandler<Req> for TooManyRequests {
    open spec fn decides(
        &self,
        request: &Req,
        before: Bucket,
        now: u64,
        after: Bucket,
        verdict: Result<(), ResponseTemplate>,
    ) -> bool {
        &&& after == before
        &&& (verdict matches Err(response) && response.is_too_many_requests())
    }

    open spec fn writes_standard_headers() -> bool {
        true
    }

    fn handle_ratelimit(&mut self, request: &Req, bucket: &mut Bucket, now: u64) -> (verdict:
        Result<(), ResponseTemplate>) {
        Err(ResponseTemplate::too_many_requests())
    }
}

/// What the limiter made of one request.
#[derive(Debug)]
pub struct Admission {
    /// `Ok(())` where the request proceeds; `Err(response)` where it is
    /// rejected, with the response to send in its place.
    pub verdict: Result<(), ResponseTemplate>,
    /// The bucket of the request's scope as the request left it.
    pub bucket: Bucket,
    /// Whether the headers of a rejection were written. `Ok(())` where
    /// there was nothing to write.
    pub annotated: Result<(), HeaderMapFull>,
}

impl Admission {
    /// Turns a handler's decision into the limiter's: a request that the
    /// handler lets pass proceeds; a response that the handler rejects with
    /// gets the handler's headers for a rejection, written from `bucket`, and
    /// is otherwise sent as it is. Of a handler that writes the standard
    /// headers, the headers of the response are known.
    pub fn conclude<Req, H: RatelimitHandler<Req>>(
        handler: &H,
        decided: Result<(), ResponseTemplate>,
        bucket: Bucket,
        now: u64,
        unix_now: u64,
    ) -> (outcome: Admission)
        ensures
            answers(decided, outcome.verdict),
            outcome.bucket == bucket,
            decided is Ok ==> outcome.annotated is Ok,
            H::writes_standard_headers() ==> answers_with_limited_headers(
                decided,
                outcome.verdict,
                bucket,
                now,
                unix_now,
                outcome.annotated,
            ),
    {
        match decided {
            Ok(()) => Admission { verdict: Ok(()), bucket, annotated: Ok(()) },
            Err(response) => {
                let mut response = response;
                let annotated = handler.append_ratelimit_limited_headers(
                    &bucket,
                    now,
                    unix_now,
                    &mut response.headers,
                );
                Admission { verdict: Err(response), bucket, annotated }
            },
        }
    }
}

} // verus!
