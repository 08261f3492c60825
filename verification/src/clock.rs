use vstd::prelude::*;

verus! {

#[verifier::external_type_specification]
#[verifier::external_body]
pub struct ExSystemTime(std::time::SystemTime);

/// `SystemTime::now`: a reading of the system clock. Nothing is stated of
/// it: it is the time.
#[verifier::external_body]
fn system_now() -> (t: std::time::SystemTime) {
    std::time::SystemTime::now()
}

/// `SystemTime::duration_since` the Unix epoch, `None` where the standard
/// library reports an error (a time before the epoch). Nothing is stated
/// of the duration.
#[verifier::external_body]
fn since_unix_epoch(t: std::time::SystemTime) -> (r: Option<core::time::Duration>) {
    t.duration_since(std::time::UNIX_EPOCH).ok()
}

/// `Duration::as_millis`. Nothing is stated: `Duration` is opaque here.
#[verifier::external_body]
fn duration_millis(d: &core::time::Duration) -> (r: u128) {
    d.as_millis()
}

/// `Duration::as_micros`. Nothing is stated: `Duration` is opaque here.
#[verifier::external_body]
fn duration_micros(d: &core::time::Duration) -> (r: u128) {
    d.as_micros()
}

/// `Duration::as_secs`. Nothing is stated: `Duration` is opaque here.
#[verifier::external_body]
fn duration_secs(d: &core::time::Duration) -> (r: u64) {
    d.as_secs()
}

/// `Duration::subsec_millis`, which its documentation bounds below 1000.
#[verifier::external_body]
fn duration_subsec_millis(d: &core::time::Duration) -> (r: u32)
    ensures
        r < 1000,
{
    d.subsec_millis()
}

/// Milliseconds since the Unix epoch by the system clock, truncated to 64
/// bits; 0 when the clock stands before the epoch.
pub fn unix_millis() -> u64 {
    match since_unix_epoch(system_now()) {
        Some(d) => {
            let m = duration_millis(&d);
            #[verifier::truncate]
            (m as u64)
        },
        None => 0,
    }
}

/// Microseconds since the Unix epoch by the system clock, truncated to 64
/// bits; 0 when the clock stands before the epoch.
pub fn unix_micros() -> u64 {
    match since_unix_epoch(system_now()) {
        Some(d) => {
            let m = duration_micros(&d);
            #[verifier::truncate]
            (m as u64)
        },
        None => 0,
    }
}

/// Whole seconds since the Unix epoch by the system clock and the
/// milliseconds past them; both 0 when the clock stands before the epoch.
pub fn unix_secs_and_millis() -> (r: (u64, u32))
    ensures
        r.1 < 1000,
{
    match since_unix_epoch(system_now()) {
        Some(d) => (duration_secs(&d), duration_subsec_millis(&d)),
        None => (0, 0),
    }
}

} // verus!
