//! The external clock collaborator: the `time_boot_ms` stamp of capability
//! frames is derived from the system's boot time, which only the platform
//! can report. The platform call is trusted; the derivation of the stamp
//! from its raw value is verified for every value.

use vstd::prelude::*;

verus! {

/// Relies on `sys_info::boottime` for the raw microseconds field of the
/// platform's boot-time value; `None` where the platform call fails. The
/// value depends on the machine and the moment, so nothing is stated of
/// it.
#[verifier::external_body]
fn boottime_microseconds() -> (r: Option<i64>) {
    sys_info::boottime().ok().map(|t| t.tv_usec as i64)
}

/// Derives the millisecond stamp from a raw microseconds value: the
/// microseconds divided down to milliseconds and truncated to the 32-bit
/// field, and zero for a negative raw value.
pub fn time_boot_ms_from(microseconds: i64) -> (r: u32)
    ensures
        microseconds >= 0 ==> r == (microseconds as int / 1000) % 0x1_0000_0000,
        microseconds < 0 ==> r == 0,
{
    if microseconds >= 0 {
        let us: u64 = microseconds as u64;
        ((us / 1000) % 0x1_0000_0000) as u32
    } else {
        0
    }
}

/// Reads the platform clock and derives the millisecond stamp for a
/// capability frame; `None` where the platform cannot report a boot time.
pub fn current_time_boot_ms() -> (r: Option<u32>) {
    match boottime_microseconds() {
        Some(us) => Some(time_boot_ms_from(us)),
        None => None,
    }
}

} // verus!
