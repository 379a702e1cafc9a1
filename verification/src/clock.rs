use vstd::prelude::*;

verus! {

/// The largest clock reading the library represents: the year 3000 as a
/// unix timestamp. Readings outside `0 ..= MAX_TIMESTAMP` are clamped,
/// so timestamp arithmetic can never overflow.
pub const MAX_TIMESTAMP: u64 = 32503680000;

/// Relies on chrono::Utc::now for the current unix timestamp in seconds;
/// nothing is assumed of the clock's value.
#[verifier::external_body]
fn now_raw() -> i64 {
    chrono::Utc::now().timestamp()
}

/// The current unix timestamp, clamped into the representable range.
pub fn now_timestamp() -> (r: u64)
    ensures
        r <= MAX_TIMESTAMP,
{
    let now = now_raw();
    if now < 0 {
        0
    } else if now > 32503680000 {
        MAX_TIMESTAMP
    } else {
        now as u64
    }
}

} // verus!
