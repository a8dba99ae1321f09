use vstd::prelude::*;

verus! {

/// Milliseconds in one second.
pub const MILLIS_PER_SEC: i64 = 1000;

/// Nanoseconds in one millisecond.
pub const NANOS_PER_MILLI: i32 = 1000000;

/// The wall-clock reading `sec` seconds and `nsec` nanoseconds after the UNIX
/// epoch, in whole milliseconds.
pub open spec fn millis_of(sec: i64, nsec: i32) -> int {
    sec * 1000 + nsec / 1000000
}

/// `v` clamped into the range of `i64`.
pub open spec fn saturate_i64(v: int) -> i64 {
    if v > i64::MAX {
        i64::MAX
    } else if v < i64::MIN {
        i64::MIN
    } else {
        v as i64
    }
}

/// Relies on time::get_time: the current wall-clock time as seconds and a
/// nanosecond remainder, which `Timespec::new` keeps within one second.
#[verifier::external_body]
fn wall_clock() -> (r: (i64, i32))
    ensures
        0 <= r.1 < 1000000000,
{
    let t = time::get_time();
    (t.sec, t.nsec)
}

/// Whole milliseconds from a clock reading of `sec` seconds and `nsec`
/// nanoseconds (clamped at the ends of the `i64` range).
pub fn millis_from_parts(sec: i64, nsec: i32) -> (r: i64)
    requires
        0 <= nsec < 1000000000,
    ensures
        r == saturate_i64(millis_of(sec, nsec)),
{
    let m: i128 = (sec as i128) * (MILLIS_PER_SEC as i128) + ((nsec / NANOS_PER_MILLI) as i128);
    if m > i64::MAX as i128 {
        i64::MAX
    } else if m < i64::MIN as i128 {
        i64::MIN
    } else {
        m as i64
    }
}

/// The current wall-clock time in milliseconds since the UNIX epoch.
pub fn system_millis() -> (r: i64)
    ensures
        exists|sec: i64, nsec: i32| 0 <= nsec < 1000000000 && r == saturate_i64(#[trigger] millis_of(sec, nsec)),
{
    let (sec, nsec) = wall_clock();
    millis_from_parts(sec, nsec)
}

} // verus!
