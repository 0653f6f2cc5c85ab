//! Lengths of time.
//!
//! A `Duration` is opaque to the verifier. Its length in nanoseconds is named
//! here; the operations that the library needs are built from the parts that std
//! hands out, and proved over that length.

use std::time::Duration;

use vstd::prelude::*;

verus! {

/// The length of a duration in nanoseconds.
pub uninterp spec fn duration_nanos(d: Duration) -> nat;

/// `Duration::new`: that many seconds and nanoseconds.
pub assume_specification[ Duration::new ](secs: u64, nanos: u32) -> (d: Duration)
    requires
        nanos < 1_000_000_000,
    ensures
        duration_nanos(d) == secs * 1_000_000_000 + nanos,
;

/// `Duration::as_secs`: the whole seconds of a duration.
pub assume_specification[ Duration::as_secs ](d: &Duration) -> (secs: u64)
    ensures
        secs == duration_nanos(*d) / 1_000_000_000,
;

/// `Duration::subsec_nanos`: what a duration has beyond its whole seconds.
pub assume_specification[ Duration::subsec_nanos ](d: &Duration) -> (nanos: u32)
    ensures
        nanos == duration_nanos(*d) % 1_000_000_000,
;

/// How `Debug` prints a duration of that many nanoseconds, such as `30s`.
pub uninterp spec fn duration_debug(nanos: nat) -> Seq<char>;

/// Wraps the `Debug` form of `Duration`: it depends on the length alone, and is
/// named but not described.
#[verifier::external_body]
pub(crate) fn debug_text(d: &Duration) -> (r: String)
    ensures
        r@ == duration_debug(duration_nanos(*d)),
{
    format!("{d:?}")
}

/// A duration of whole seconds.
pub fn seconds(n: u64) -> (d: Duration)
    ensures
        duration_nanos(d) == n * 1_000_000_000,
{
    Duration::new(n, 0)
}

/// A duration of whole milliseconds.
pub fn milliseconds(n: u64) -> (d: Duration)
    ensures
        duration_nanos(d) == n * 1_000_000,
{
    Duration::new(n / 1000, (n % 1000) as u32 * 1_000_000)
}

/// Whether the duration spans no time.
pub fn is_zero(d: &Duration) -> (r: bool)
    ensures
        r == (duration_nanos(*d) == 0),
{
    d.as_secs() == 0 && d.subsec_nanos() == 0
}

/// The shorter of two durations.
pub fn shorter(a: Duration, b: Duration) -> (d: Duration)
    ensures
        duration_nanos(a) <= duration_nanos(b) ==> d == a,
        duration_nanos(b) < duration_nanos(a) ==> d == b,
{
    let (p, q) = (a.as_secs(), b.as_secs());
    if p < q || (p == q && a.subsec_nanos() <= b.subsec_nanos()) {
        a
    } else {
        b
    }
}

/// What is left of `a` after `b`; nothing when `b` is the longer one.
pub fn remaining_after(a: Duration, b: Duration) -> (d: Duration)
    ensures
        duration_nanos(d) == if duration_nanos(a) >= duration_nanos(b) {
            duration_nanos(a) - duration_nanos(b)
        } else {
            0
        },
{
    let (p, q) = (a.as_secs(), b.as_secs());
    let (m, n) = (a.subsec_nanos(), b.subsec_nanos());
    if p < q || (p == q && m < n) {
        Duration::new(0, 0)
    } else if m >= n {
        Duration::new(p - q, m - n)
    } else {
        Duration::new(p - q - 1, 1_000_000_000 - n + m)
    }
}

/// One `k`th of a duration, rounded down to a nanosecond.
pub fn fraction(d: Duration, k: u32) -> (r: Duration)
    requires
        0 < k,
    ensures
        duration_nanos(r) == duration_nanos(d) / k as nat,
{
    let secs: u64 = d.as_secs();
    let nanos: u64 = d.subsec_nanos() as u64;
    let q: u64 = secs / k as u64;
    let left: u64 = secs % k as u64;
    assert(left * 1_000_000_000 + nanos < k * 1_000_000_000) by (nonlinear_arith)
        requires
            left < k,
            nanos < 1_000_000_000,
    ;
    let rest: u64 = left * 1_000_000_000 + nanos;
    let n: u64 = rest / k as u64;
    assert(n < 1_000_000_000) by (nonlinear_arith)
        requires
            rest < k * 1_000_000_000,
            n == rest / k as u64,
            k > 0,
    ;
    proof {
        let total = duration_nanos(d) as int;
        let r = rest % k as u64;
        assert(secs == k * q + left) by (nonlinear_arith)
            requires
                q == secs / k as u64,
                left == secs % k as u64,
                k > 0,
        ;
        assert(rest == k * n + r) by (nonlinear_arith)
            requires
                n == rest / k as u64,
                r == rest % k as u64,
                k > 0,
        ;
        assert(total == secs * 1_000_000_000 + nanos);
        assert(total == k * (q * 1_000_000_000 + n) + r) by (nonlinear_arith)
            requires
                total == secs * 1_000_000_000 + nanos,
                secs == k * q + left,
                rest == left * 1_000_000_000 + nanos,
                rest == k * n + r,
        ;
        assert(total / k as int == q * 1_000_000_000 + n) by (nonlinear_arith)
            requires
                total == k * (q * 1_000_000_000 + n) + r,
                0 <= r < k,
        ;
    }
    Duration::new(q, n as u32)
}

} // verus!
