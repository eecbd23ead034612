//! Instants and calendar days, held as plain integers.
//!
//! An instant is a whole number of seconds since 1970-01-01T00:00:00Z; a day is
//! a whole number of days since that date, counted in UTC. Day `d` covers the
//! half-open span `[d * 86400, (d + 1) * 86400)`.
use vstd::prelude::*;
use vstd::arithmetic::div_mod::lemma_fundamental_div_mod;
use vstd::arithmetic::div_mod::lemma_fundamental_div_mod_converse;
use vstd::string::StrSliceExecFns;
use chrono::DateTime;
use chrono::NaiveDateTime;
use chrono::SecondsFormat;

verus! {

pub const SECONDS_PER_DAY: i64 = 86_400;

/// The length of one tariff slot: half an hour.
pub const SECONDS_PER_SLOT: i64 = 1_800;

/// The number of half-hour slots in a day.
pub const SLOTS_PER_DAY: usize = 48;

/// The day that holds instant `t`.
pub open spec fn day_of(t: int) -> int {
    t / 86400
}

/// The first instant of day `d`.
pub open spec fn midnight(d: int) -> int {
    d * 86400
}

/// The start of the half-hour slot that holds `t`.
pub open spec fn slot_start(t: int) -> int {
    (t / 1800) * 1800
}

/// The half-hour slot of its day that holds `t`: `hour * 2 + minute / 30`.
pub open spec fn slot_of_day(t: int) -> int {
    (t % 86400) / 1800
}

/// `t / m` rounded toward negative infinity, for a positive `m`.
pub fn floor_div_wide(t: i128, m: i128) -> (r: i128)
    requires
        m > 0,
    ensures
        r == t as int / m as int,
        (r as int) * (m as int) <= t,
        t - (r as int) * (m as int) < m,
{
    let r = if t >= 0 {
        t / m
    } else {
        let a: i128 = -(t + 1);
        let q = a / m;
        proof {
            lemma_fundamental_div_mod(a as int, m as int);
            let rem = a as int % m as int;
            assert(t as int == (-(q as int) - 1) * m as int + (m as int - rem - 1)) by (nonlinear_arith)
                requires
                    a as int == m as int * q as int + rem,
                    t as int == -(a as int) - 1;
            lemma_fundamental_div_mod_converse(
                t as int,
                m as int,
                -(q as int) - 1,
                m as int - rem - 1,
            );
            assert((q as int) * (m as int) <= a as int) by (nonlinear_arith)
                requires
                    a as int == m as int * q as int + rem,
                    rem >= 0;
        }
        -q - 1
    };
    proof {
        lemma_fundamental_div_mod(t as int, m as int);
        let rem = t as int % m as int;
        assert((r as int) * (m as int) <= t && t - (r as int) * (m as int) < m) by (nonlinear_arith)
            requires
                t as int == m as int * r as int + rem,
                0 <= rem < m;
    }
    r
}

/// `t / m` rounded toward negative infinity, for a positive `m`.
pub fn floor_div(t: i64, m: i64) -> (r: i64)
    requires
        m > 0,
    ensures
        r == t as int / m as int,
        (r as int) * (m as int) <= t,
        t - (r as int) * (m as int) < m,
{
    let w = floor_div_wide(t as i128, m as i128);
    assert(t <= w <= 0 || 0 <= w <= t) by (nonlinear_arith)
        requires
            (w as int) * (m as int) <= t,
            t - (w as int) * (m as int) < m,
            m >= 1;
    w as i64
}

/// The day that holds instant `t`.
pub fn day_of_instant(t: i64) -> (d: i64)
    ensures
        d == day_of(t as int),
{
    floor_div(t, SECONDS_PER_DAY)
}

/// The start of the half-hour slot that holds `t`.
pub fn half_hour_floor(t: i64) -> (r: i64)
    requires
        t >= i64::MIN + SECONDS_PER_SLOT,
    ensures
        r == slot_start(t as int),
        r <= t < r + 1800,
{
    let q = floor_div(t, SECONDS_PER_SLOT);
    q * SECONDS_PER_SLOT
}

/// The half-hour slot of its day that holds `t`, in `0..48`.
pub fn slot_of_instant(t: i64) -> (r: usize)
    ensures
        r == slot_of_day(t as int),
        r < 48,
{
    let d = floor_div(t, SECONDS_PER_DAY);
    let within: i128 = t as i128 - d as i128 * SECONDS_PER_DAY as i128;
    proof {
        lemma_fundamental_div_mod(t as int, 86400);
        lemma_fundamental_div_mod_converse(t as int, 86400, d as int, within as int);
    }
    let s = within / (SECONDS_PER_SLOT as i128);
    assert(s < 48) by (nonlinear_arith)
        requires
            within < 86400,
            within >= 0,
            s == within / 1800;
    s as usize
}

/// What chrono's `DateTime::parse_from_rfc3339` reads from a text, as whole
/// seconds since the epoch, or `None` where it rejects the text.
pub uninterp spec fn rfc3339_seconds(s: Seq<char>) -> Option<i64>;

/// Relies on chrono::DateTime::parse_from_rfc3339, read as a UTC timestamp in
/// whole seconds; the result depends on the text alone.
#[verifier::external_body]
fn parse_rfc3339(s: &str) -> (r: Option<i64>)
    ensures
        r == rfc3339_seconds(s@),
{
    DateTime::parse_from_rfc3339(s).ok().map(|d| d.timestamp())
}

/// What chrono's `NaiveDateTime::parse_from_str` reads from a text with a
/// pattern, taken as UTC, in whole seconds since the epoch, or `None` where it
/// rejects the text.
pub uninterp spec fn naive_utc_seconds(s: Seq<char>, pattern: Seq<char>) -> Option<i64>;

/// Relies on chrono::NaiveDateTime::parse_from_str, read as a UTC timestamp in
/// whole seconds; the result depends on the text and the pattern alone.
#[verifier::external_body]
fn parse_naive_utc(s: &str, pattern: &str) -> (r: Option<i64>)
    ensures
        r == naive_utc_seconds(s@, pattern@),
{
    NaiveDateTime::parse_from_str(s, pattern).ok().map(|n| n.and_utc().timestamp())
}

/// What chrono writes for instant `t` with `to_rfc3339_opts(SecondsFormat::Secs, true)`,
/// as `2024-01-15T10:00:00Z`.
pub uninterp spec fn rfc3339_text(t: i64) -> Seq<char>;

/// Relies on chrono::DateTime::to_rfc3339_opts: an instant in whole seconds,
/// UTC, with a `Z`. An instant that chrono cannot represent gives the empty text.
#[verifier::external_body]
pub(crate) fn instant_text(t: i64) -> (r: String)
    ensures
        r@ == rfc3339_text(t),
{
    match DateTime::from_timestamp(t, 0) {
        Some(d) => d.to_rfc3339_opts(SecondsFormat::Secs, true),
        None => String::new(),
    }
}

/// What chrono writes for instant `t` with the pattern `%Y-%m-%d %H:%M`.
pub uninterp spec fn minute_label(t: i64) -> Seq<char>;

/// Relies on chrono::DateTime::format with `%Y-%m-%d %H:%M`, in UTC. An instant
/// that chrono cannot represent gives the empty text.
#[verifier::external_body]
pub(crate) fn minute_label_text(t: i64) -> (r: String)
    ensures
        r@ == minute_label(t),
{
    match DateTime::from_timestamp(t, 0) {
        Some(d) => d.format("%Y-%m-%d %H:%M").to_string(),
        None => String::new(),
    }
}

/// The instant that a timestamp text denotes: an RFC 3339 date and time, or
/// else a UTC time written `YYYY-MM-DDTHH:MM:SSZ` or `YYYY-MM-DDTHH:MMZ`.
pub open spec fn flexible_seconds(s: Seq<char>) -> Option<i64> {
    if rfc3339_seconds(s) is Some {
        rfc3339_seconds(s)
    } else if s.len() > 0 && s.last() == 'Z' {
        let body = s.drop_last();
        if naive_utc_seconds(body, "%Y-%m-%dT%H:%M:%S"@) is Some {
            naive_utc_seconds(body, "%Y-%m-%dT%H:%M:%S"@)
        } else {
            naive_utc_seconds(body, "%Y-%m-%dT%H:%M"@)
        }
    } else {
        None
    }
}

/// Reads a timestamp that may omit its seconds: the strict RFC 3339 form is
/// tried first, then the same form without an offset, with and without seconds.
pub fn parse_instant(s: &str) -> (r: Option<i64>)
    ensures
        r == flexible_seconds(s@),
{
    let strict = parse_rfc3339(s);
    if strict.is_some() {
        return strict;
    }
    let n = s.unicode_len();
    if n == 0 || s.get_char(n - 1) != 'Z' {
        return None;
    }
    let body = s.substring_char(0, n - 1);
    assert(body@ =~= s@.drop_last());
    let with_seconds = parse_naive_utc(body, "%Y-%m-%dT%H:%M:%S");
    if with_seconds.is_some() {
        return with_seconds;
    }
    parse_naive_utc(body, "%Y-%m-%dT%H:%M")
}

} // verus!
