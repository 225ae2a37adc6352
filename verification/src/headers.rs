//! The rate-limit headers, and the header map they are written into.
//!
//! The map is `http`'s `HeaderMap`, reached through `axum`. Verus does not
//! look inside it: what it holds is named by [`header_map_entries`], and the
//! few calls into it are declared at the top of this file with the
//! behaviour that is taken on trust.

use crate::bucket::Bucket;
use crate::decimal::{
    decimal, decimal_text, is_digit, is_number_text, lemma_decimal_text_is_digits,
    lemma_seconds_text_is_number, seconds, seconds_text, NANOS_PER_SEC,
};
use axum::http::header::{HeaderMap, HeaderValue, InvalidHeaderValue, MaxSizeReached};
use vstd::prelude::*;
use vstd::string::StringSliceAdditionalSpecFns;

verus! {

/// `http::header::HeaderMap`, opaque to the verifier.
#[verifier::external_type_specification]
#[verifier::external_body]
#[verifier::reject_recursive_types(T)]
pub struct ExHeaderMap<T>(axum::http::header::HeaderMap<T>);

/// `http::header::HeaderValue`, opaque to the verifier.
#[verifier::external_type_specification]
#[verifier::external_body]
pub struct ExHeaderValue(axum::http::header::HeaderValue);

/// `http::header::InvalidHeaderValue`, the error of `HeaderValue::from_str`.
#[verifier::external_type_specification]
#[verifier::external_body]
pub struct ExInvalidHeaderValue(axum::http::header::InvalidHeaderValue);

/// `http::header::MaxSizeReached`, the error of `HeaderMap::try_insert`.
#[verifier::external_type_specification]
#[verifier::external_body]
pub struct ExMaxSizeReached(axum::http::header::MaxSizeReached);

/// The bytes of a header value, as `HeaderValue::as_bytes` gives them.
pub uninterp spec fn header_value_bytes(value: HeaderValue) -> Seq<u8>;

/// What a header map holds: for each header name in it, in lower case as
/// `HeaderName::as_str` gives it, the bytes of the values under that name,
/// in the order in which `HeaderMap::get_all` yields them.
pub uninterp spec fn header_map_entries(map: HeaderMap<HeaderValue>) -> Map<Seq<char>, Seq<Seq<u8>>>;

/// Whether `HeaderValue::from_str` accepts the byte `b`: anything but the
/// control characters, of which only the tab is accepted.
pub open spec fn is_value_byte(b: u8) -> bool {
    b >= 32 && b != 127 || b == 9
}

/// Whether `name` is a header name made of lower-case letters, digits and
/// hyphens only, of 1 to 64 characters.
pub open spec fn is_plain_name(name: Seq<char>) -> bool {
    &&& 1 <= name.len() <= 64
    &&& forall|i: int|
        0 <= i < name.len() ==> ('a' <= #[trigger] name[i] <= 'z' || '0' <= name[i] <= '9'
            || name[i] == '-')
}

/// The number of header names below which a map is sure to take one more.
pub const SURE_ROOM: usize = 1024;

/// Whether a map with these entries is sure to take `more` further names:
/// it holds fewer than [`SURE_ROOM`] names even with them.
pub open spec fn has_room(entries: Map<Seq<char>, Seq<Seq<u8>>>, more: nat) -> bool {
    entries.dom().finite() && entries.dom().len() + more <= SURE_ROOM
}

/// The entries of a header map that holds nothing.
pub open spec fn no_headers() -> Map<Seq<char>, Seq<Seq<u8>>> {
    Map::empty()
}

/// `HeaderMap::new`: a map that holds nothing.
#[verifier::external_body]
pub(crate) fn header_map_new() -> (made: HeaderMap<HeaderValue>)
    ensures
        header_map_entries(made) == no_headers(),
{
    HeaderMap::new()
}

/// `HeaderValue::from_str`: accepts `text` if and only if every byte of its
/// UTF-8 form is one that [`is_value_byte`] allows, and the value then holds
/// exactly those bytes.
#[verifier::external_body]
pub(crate) fn header_value_from_str(text: &str) -> (r: Result<HeaderValue, InvalidHeaderValue>)
    ensures
        r is Ok <==> forall|i: int|
            0 <= i < text.spec_bytes().len() ==> is_value_byte(#[trigger] text.spec_bytes()[i]),
        r matches Ok(value) ==> header_value_bytes(value) == text.spec_bytes(),
{
    HeaderValue::from_str(text)
}

/// `HeaderMap::try_insert` with a `&'static str` for the name.
///
/// The call panics on a string that is no header name; the names that
/// [`is_plain_name`] admits are header names, and the map keeps them as they
/// are written. On success `value` is the only value under `name`, whatever
/// was there before, every other name keeps its values, and the result is
/// the first of the values that `name` had, if it had any. The call fails
/// when the map cannot grow any further, and then the map holds what it held.
///
/// A map of fewer than [`SURE_ROOM`] names never fails. In `http` the call
/// fails in two places only. One is `try_grow`, asked for a table of more
/// than `MAX_SIZE` = 32768 slots; it is asked for twice the slots there are,
/// so there are more than 16384, and it is asked only when the names fill a
/// fifth of the slots (`LOAD_FACTOR_THRESHOLD`) or three quarters of them
/// (`usable_capacity`): more than 3276 names. The other is
/// `try_insert_entry`, at `MAX_SIZE` names.
#[verifier::external_body]
pub(crate) fn header_map_try_insert(
    map: &mut HeaderMap<HeaderValue>,
    name: &'static str,
    value: HeaderValue,
) -> (r: Result<Option<HeaderValue>, MaxSizeReached>)
    requires
        is_plain_name(name@),
    ensures
        r is Ok ==> header_map_entries(*final(map)) == header_map_entries(*old(map)).insert(
            name@,
            seq![header_value_bytes(value)],
        ),
        r matches Ok(Some(previous)) ==> (header_map_entries(*old(map)).contains_key(name@)
            && header_map_entries(*old(map))[name@].len() >= 1 && header_value_bytes(previous)
            == header_map_entries(*old(map))[name@][0]),
        r matches Ok(None) ==> !header_map_entries(*old(map)).contains_key(name@),
        r is Err ==> header_map_entries(*final(map)) == header_map_entries(*old(map)),
        has_room(header_map_entries(*old(map)), 1) ==> r is Ok,
{
    map.try_insert(name, value)
}

/// The header map is full: `http` lets a map grow to a fixed size and no
/// further.
#[derive(Clone, Copy, Debug, PartialEq, Eq, Structural)]
pub struct HeaderMapFull;

/// The bytes of `text`, one for each character. Meant for ASCII text.
pub open spec fn ascii_bytes(text: Seq<char>) -> Seq<u8> {
    Seq::new(text.len(), |i: int| text[i] as u8)
}

/// `entries` after `name` has been set to the single value `text`.
pub open spec fn with_header(
    entries: Map<Seq<char>, Seq<Seq<u8>>>,
    name: Seq<char>,
    text: Seq<char>,
) -> Map<Seq<char>, Seq<Seq<u8>>> {
    entries.insert(name, seq![ascii_bytes(text)])
}

/// Sets the header `name` to the number `text`, replacing what was under
/// that name and touching nothing else. Text of digits and points is always
/// a valid value, so only a full map can make this fail, and a map that has
/// room for one more name does not.
fn set_number_header(map: &mut HeaderMap<HeaderValue>, name: &'static str, text: &str) -> (r: Result<
    (),
    HeaderMapFull,
>)
    requires
        is_plain_name(name@),
        is_number_text(text@),
    ensures
        r is Ok ==> header_map_entries(*final(map)) == with_header(
            header_map_entries(*old(map)),
            name@,
            text@,
        ),
        r is Err ==> header_map_entries(*final(map)) == header_map_entries(*old(map)),
        has_room(header_map_entries(*old(map)), 1) ==> r is Ok,
{
    broadcast use vstd::string::is_ascii_spec_bytes;

    assert(vstd::string::is_ascii(text)) by {
        assert forall|i: int| 0 <= i < text@.len() implies '\0' <= #[trigger] text@[i]
            <= '\u{7f}' by {
            assert(is_digit(text@[i]) || text@[i] == '.');
        }
    }
    assert(text.spec_bytes() =~= ascii_bytes(text@));
    assert forall|i: int| 0 <= i < text.spec_bytes().len() implies is_value_byte(
        #[trigger] text.spec_bytes()[i],
    ) by {
        assert(is_digit(text@[i]) || text@[i] == '.');
    }
    let value = header_value_from_str(text).unwrap();
    match header_map_try_insert(map, name, value) {
        Ok(_) => Ok(()),
        Err(_) => Err(HeaderMapFull),
    }
}

/// The name of the header that carries the allowance.
pub open spec fn limit_name() -> Seq<char> {
    "x-ratelimit-limit"@
}

/// The name of the header that carries the requests remaining.
pub open spec fn remaining_name() -> Seq<char> {
    "x-ratelimit-remaining"@
}

/// The name of the header that carries the time at which the cooldown ends.
pub open spec fn reset_name() -> Seq<char> {
    "x-ratelimit-reset"@
}

/// The name of the header that carries the time to wait.
pub open spec fn retry_after_name() -> Seq<char> {
    "retry-after"@
}

/// The wall-clock second, counted from the Unix epoch, in which a cooldown
/// ends that has `wait` nanoseconds to go when the wall clock reads
/// `unix_now` nanoseconds.
pub open spec fn reset_second(unix_now: u64, wait: nat) -> nat {
    ((unix_now + wait) / (NANOS_PER_SEC as int)) as nat
}

/// `entries` with the header that every response carries: the allowance.
pub open spec fn with_info_headers(
    entries: Map<Seq<char>, Seq<Seq<u8>>>,
    rate: u32,
) -> Map<Seq<char>, Seq<Seq<u8>>> {
    with_header(entries, limit_name(), decimal_text(rate as nat))
}

/// `entries` with the requests remaining in `bucket`.
pub open spec fn with_remaining(
    entries: Map<Seq<char>, Seq<Seq<u8>>>,
    bucket: Bucket,
) -> Map<Seq<char>, Seq<Seq<u8>>> {
    with_header(entries, remaining_name(), decimal_text(bucket.0 as nat))
}

/// `entries` with the second in which the cooldown of `bucket` ends.
pub open spec fn with_reset(
    entries: Map<Seq<char>, Seq<Seq<u8>>>,
    bucket: Bucket,
    now: u64,
    unix_now: u64,
) -> Map<Seq<char>, Seq<Seq<u8>>> {
    with_header(entries, reset_name(), decimal_text(reset_second(unix_now, bucket.wait(now))))
}

/// `entries` with the seconds to wait until the cooldown of `bucket` ends.
pub open spec fn with_retry_after(
    entries: Map<Seq<char>, Seq<Seq<u8>>>,
    bucket: Bucket,
    now: u64,
) -> Map<Seq<char>, Seq<Seq<u8>>> {
    with_header(entries, retry_after_name(), seconds_text(bucket.wait(now)))
}

/// `entries` with the three headers that a rejected request is answered
/// with: the requests remaining, the second of the reset, the seconds to wait.
pub open spec fn with_limited_headers(
    entries: Map<Seq<char>, Seq<Seq<u8>>>,
    bucket: Bucket,
    now: u64,
    unix_now: u64,
) -> Map<Seq<char>, Seq<Seq<u8>>> {
    with_retry_after(with_reset(with_remaining(entries, bucket), bucket, now, unix_now), bucket, now)
}

/// What [`info_headers`] makes of a map: `after` is `before` with the info
/// headers where `written` is `Ok`, and `before` itself where it is not. A
/// map that has room for one more name gets them.
pub open spec fn info_written(
    before: Map<Seq<char>, Seq<Seq<u8>>>,
    after: Map<Seq<char>, Seq<Seq<u8>>>,
    rate: u32,
    written: Result<(), HeaderMapFull>,
) -> bool {
    &&& has_room(before, 1) ==> written is Ok
    &&& if written is Ok {
        after == with_info_headers(before, rate)
    } else {
        after == before
    }
}

/// What [`limited_headers`] makes of a map: `after` is `before` with the
/// three headers of a rejection where `written` is `Ok`; where it is not,
/// with those of them that were written before the map was full. A map that
/// has room for three more names gets all three.
pub open spec fn limited_written(
    before: Map<Seq<char>, Seq<Seq<u8>>>,
    after: Map<Seq<char>, Seq<Seq<u8>>>,
    bucket: Bucket,
    now: u64,
    unix_now: u64,
    written: Result<(), HeaderMapFull>,
) -> bool {
    &&& has_room(before, 3) ==> written is Ok
    &&& if written is Ok {
        after == with_limited_headers(before, bucket, now, unix_now)
    } else {
        ||| after == before
        ||| after == with_remaining(before, bucket)
        ||| after == with_reset(with_remaining(before, bucket), bucket, now, unix_now)
    }
}

proof fn lemma_names_are_plain()
    ensures
        is_plain_name(limit_name()),
        is_plain_name(remaining_name()),
        is_plain_name(reset_name()),
        is_plain_name(retry_after_name()),
{
    reveal_strlit("x-ratelimit-limit");
    reveal_strlit("x-ratelimit-remaining");
    reveal_strlit("x-ratelimit-reset");
    reveal_strlit("retry-after");
}

/// The four header names are four different names.
pub proof fn lemma_names_differ()
    ensures
        limit_name() != remaining_name(),
        limit_name() != reset_name(),
        limit_name() != retry_after_name(),
        remaining_name() != reset_name(),
        remaining_name() != retry_after_name(),
        reset_name() != retry_after_name(),
{
    reveal_strlit("x-ratelimit-limit");
    reveal_strlit("x-ratelimit-remaining");
    reveal_strlit("x-ratelimit-reset");
    reveal_strlit("retry-after");
    assert(limit_name().len() == 17 && remaining_name().len() == 21);
    assert(reset_name().len() == 17 && retry_after_name().len() == 11);
    assert(limit_name()[12] == 'l' && reset_name()[12] == 'r');
}

/// The info headers are the limit and nothing else.
///
/// After they are written the map holds the allowance in decimal under
/// `x-ratelimit-limit`, and under every other name what it held before: no
/// header is lost, and none of the headers of a rejection is added.
pub proof fn lemma_info_headers_are_the_limit(entries: Map<Seq<char>, Seq<Seq<u8>>>, rate: u32)
    ensures
        with_info_headers(entries, rate).contains_key(limit_name()),
        with_info_headers(entries, rate)[limit_name()] == seq![
            ascii_bytes(decimal_text(rate as nat)),
        ],
        forall|name: Seq<char>|
            name != limit_name() ==> (#[trigger] with_info_headers(entries, rate).contains_key(name)
                <==> entries.contains_key(name)),
        forall|name: Seq<char>|
            name != limit_name() && entries.contains_key(name) ==> #[trigger] with_info_headers(
                entries,
                rate,
            )[name] == entries[name],
{
}

/// The headers of a rejection are the remaining count, the reset and the
/// time to wait, and nothing else.
///
/// After they are written the map holds each of the three under its name,
/// and under every other name what it held before. The time to wait is
/// written with digits and at most a point: it is never negative.
pub proof fn lemma_limited_headers_are_three(
    entries: Map<Seq<char>, Seq<Seq<u8>>>,
    bucket: Bucket,
    now: u64,
    unix_now: u64,
)
    ensures
        with_limited_headers(entries, bucket, now, unix_now)[remaining_name()] == seq![
            ascii_bytes(decimal_text(bucket.0 as nat)),
        ],
        with_limited_headers(entries, bucket, now, unix_now)[reset_name()] == seq![
            ascii_bytes(decimal_text(reset_second(unix_now, bucket.wait(now)))),
        ],
        with_limited_headers(entries, bucket, now, unix_now)[retry_after_name()] == seq![
            ascii_bytes(seconds_text(bucket.wait(now))),
        ],
        is_number_text(seconds_text(bucket.wait(now))),
        forall|name: Seq<char>|
            #[trigger] with_limited_headers(entries, bucket, now, unix_now).contains_key(name) <==> (
            entries.contains_key(name) || name == remaining_name() || name == reset_name() || name
                == retry_after_name()),
        forall|name: Seq<char>|
            name != remaining_name() && name != reset_name() && name != retry_after_name()
                && entries.contains_key(name) ==> #[trigger] with_limited_headers(
                entries,
                bucket,
                now,
                unix_now,
            )[name] == entries[name],
{
    lemma_names_differ();
    lemma_seconds_text_is_number(bucket.wait(now));
}

/// Writes the header that goes on every response: `x-ratelimit-limit`, the
/// allowance `rate` in decimal.
///
/// Whatever the map held under that name is replaced; every other header
/// stays. A map of fewer than [`SURE_ROOM`] names always takes the header.
/// Where a larger map is full nothing is written, and the error says so.
pub fn info_headers(rate: u32, headers: &mut HeaderMap<HeaderValue>) -> (r: Result<
    (),
    HeaderMapFull,
>)
    ensures
        info_written(header_map_entries(*old(headers)), header_map_entries(*final(headers)), rate, r),
{
    let text = decimal(rate as u64);
    proof {
        lemma_names_are_plain();
        lemma_decimal_text_is_digits(rate as nat);
    }
    set_number_header(headers, "x-ratelimit-limit", text.as_str())
}

/// Writes the three headers that go on the answer to a rejected request.
///
/// `x-ratelimit-remaining` is the count in `bucket`. `x-ratelimit-reset` is
/// the second, counted from the Unix epoch, in which the cooldown ends, where
/// `unix_now` is the wall clock's reading in nanoseconds at the monotonic
/// instant `now`. `retry-after` is the time left until then in seconds, with
/// decimal places where it is no whole number; it is zero once the cooldown
/// has ended.
///
/// Each header replaces what the map held under its name; every other header
/// stays. They are written in that order. A map that stays below
/// [`SURE_ROOM`] names with them always takes all three. Where a larger map
/// fills up on the way the error says so, and the headers written before it
/// stay.
pub fn limited_headers(
    bucket: &Bucket,
    now: u64,
    unix_now: u64,
    headers: &mut HeaderMap<HeaderValue>,
) -> (r: Result<(), HeaderMapFull>)
    ensures
        limited_written(
            header_map_entries(*old(headers)),
            header_map_entries(*final(headers)),
            *bucket,
            now,
            unix_now,
            r,
        ),
{
    let wait = bucket.retry_after(now);
    let reset = unix_now / NANOS_PER_SEC + wait / NANOS_PER_SEC + (unix_now % NANOS_PER_SEC + wait
        % NANOS_PER_SEC) / NANOS_PER_SEC;
    assert(reset == reset_second(unix_now, bucket.wait(now)));
    let remaining_text = decimal(bucket.remaining() as u64);
    let reset_text = decimal(reset);
    let wait_text = seconds(wait);
    proof {
        lemma_names_are_plain();
        lemma_decimal_text_is_digits(bucket.0 as nat);
        lemma_decimal_text_is_digits(reset as nat);
        lemma_seconds_text_is_number(wait as nat);
    }
    match set_number_header(headers, "x-ratelimit-remaining", remaining_text.as_str()) {
        Ok(()) => {},
        Err(full) => {
            return Err(full);
        },
    }
    match set_number_header(headers, "x-ratelimit-reset", reset_text.as_str()) {
        Ok(()) => {},
        Err(full) => {
            return Err(full);
        },
    }
    set_number_header(headers, "retry-after", wait_text.as_str())
}

} // verus!
