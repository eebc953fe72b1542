//! Arithmetic on [`Duration`], whose value is modelled as a number of nanoseconds.

use std::time::Duration;
use vstd::prelude::*;

verus! {

/// The length of a [`Duration`] in nanoseconds, as `Duration::as_nanos` reports it.
///
/// `std` keeps the fields of a `Duration` private, so this is the one thing that the
/// contracts know of such a value. The specifications of `Duration`'s methods below tie it to
/// what they take and return.
pub uninterp spec fn nanos(d: Duration) -> nat;

/// `Duration::from_secs`: a duration of exactly that many whole seconds.
pub assume_specification[ Duration::from_secs ](secs: u64) -> (d: Duration)
    ensures
        nanos(d) == secs * 1_000_000_000,
;

/// `Duration::new`: whole seconds plus nanoseconds, where a billion nanoseconds or more carry
/// over into the seconds. It panics where that carry overflows the seconds, so such
/// arguments are left out.
pub assume_specification[ Duration::new ](secs: u64, sub: u32) -> (d: Duration)
    requires
        secs + sub / 1_000_000_000 <= u64::MAX,
    ensures
        nanos(d) == secs * 1_000_000_000 + sub,
;

/// `Duration::as_secs`: the whole seconds, without the fractional part.
pub assume_specification[ Duration::as_secs ](d: &Duration) -> (secs: u64)
    ensures
        secs == nanos(*d) / 1_000_000_000,
;

/// `Duration::subsec_nanos`: the fractional part in nanoseconds, always less than a second.
pub assume_specification[ Duration::subsec_nanos ](d: &Duration) -> (sub: u32)
    ensures
        sub == nanos(*d) % 1_000_000_000,
;

/// `Duration`'s `clone`: the same duration again.
pub assume_specification[ <Duration as Clone>::clone ](d: &Duration) -> (copy: Duration)
    ensures
        copy == *d,
;

/// The length of `d` as a machine integer.
fn total_nanos(d: Duration) -> (total: u128)
    ensures
        total == nanos(d),
        total / 1_000_000_000 <= u64::MAX,
{
    let secs: u64 = d.as_secs();
    let sub: u32 = d.subsec_nanos();
    (secs as u128) * 1_000_000_000 + (sub as u128)
}

/// Whether `d` is strictly longer than `limit`.
pub fn exceeds(d: Duration, limit: Duration) -> (longer: bool)
    ensures
        longer == (nanos(d) > nanos(limit)),
{
    total_nanos(d) > total_nanos(limit)
}

/// Splits `d` into `parts` equal parts, rounding down to whole nanoseconds.
pub fn split(d: Duration, parts: u32) -> (part: Duration)
    requires
        parts != 0,
    ensures
        nanos(part) == nanos(d) / parts as nat,
{
    let total: u128 = total_nanos(d);
    let part: u128 = total / (parts as u128);
    proof {
        vstd::arithmetic::div_mod::lemma_div_basics_5(total as int, parts as int);
    }
    let secs: u64 = (part / 1_000_000_000) as u64;
    let sub: u32 = (part % 1_000_000_000) as u32;
    Duration::new(secs, sub)
}

} // verus!
