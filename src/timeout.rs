//! The timeout value handed to the native layer.

use vstd::prelude::*;

verus! {

/// Whole milliseconds of a span of `secs` seconds and `subsec_millis` milliseconds.
pub open spec fn millis_of(secs: int, subsec_millis: int) -> int {
    secs * 1000 + subsec_millis
}

/// The millisecond count that the native layer receives for a span of `secs`
/// seconds and `subsec_millis` milliseconds; zero asks for no timeout. The native
/// layer takes a 32-bit unsigned count, so a longer span has none.
pub fn timeout_millis(secs: u64, subsec_millis: u32) -> (r: Option<u32>)
    ensures
        r == if millis_of(secs as int, subsec_millis as int) <= u32::MAX {
            Some(millis_of(secs as int, subsec_millis as int) as u32)
        } else {
            None::<u32>
        },
{
    assert(secs as int * 1000 <= 0xffff_ffff_ffff_ffffu64 as int * 1000) by (nonlinear_arith);
    let total: u128 = secs as u128 * 1000 + subsec_millis as u128;
    if total <= 0xffff_ffffu128 {
        Some(total as u32)
    } else {
        None
    }
}

/// The whole seconds of a span.
pub uninterp spec fn secs_of(d: core::time::Duration) -> u64;

/// The fractional part of a span, in whole milliseconds.
pub uninterp spec fn subsec_millis_of(d: core::time::Duration) -> u32;

/// The whole milliseconds of the span `d`, finer precision dropped.
pub open spec fn duration_millis_of(d: core::time::Duration) -> int {
    millis_of(secs_of(d) as int, subsec_millis_of(d) as int)
}

/// Relies on `Duration::as_secs`: the whole seconds of the span.
pub assume_specification[ core::time::Duration::as_secs ](d: &core::time::Duration) -> (r: u64)
    ensures
        r == secs_of(*d),
;

/// Relies on `Duration::subsec_millis`: the fractional part of the span in whole
/// milliseconds, which its documentation puts below one thousand.
pub assume_specification[ core::time::Duration::subsec_millis ](d: &core::time::Duration) -> (r: u32)
    ensures
        r == subsec_millis_of(*d),
        r < 1000,
;

/// The millisecond count that the native layer receives for `timeout`: whole
/// seconds times 1000 plus the whole milliseconds of the fraction, finer precision
/// dropped; none where that count does not fit the native 32-bit type.
pub fn duration_millis(timeout: core::time::Duration) -> (r: Option<u32>)
    ensures
        r == if duration_millis_of(timeout) <= u32::MAX {
            Some(duration_millis_of(timeout) as u32)
        } else {
            None::<u32>
        },
{
    let secs = timeout.as_secs();
    let ms = timeout.subsec_millis();
    timeout_millis(secs, ms)
}

} // verus!
