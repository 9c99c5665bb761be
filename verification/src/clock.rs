//! Wall-clock access and timestamp formatting. Reading the clock is an
//! outside effect; formatting an epoch second count as an RFC 3339 string
//! is delegated to the `chrono` crate and named by `rfc3339_of`.

use vstd::prelude::*;

verus! {

/// The RFC 3339 UTC rendering (`%FT%TZ`) that `chrono` gives to an epoch
/// second count; a fixed function of its argument.
pub uninterp spec fn rfc3339_of(epoch_secs: u64) -> Seq<char>;

/// Relies on `std::time::SystemTime::now` and
/// `SystemTime::duration_since(UNIX_EPOCH)`: the current wall-clock time as
/// whole seconds since the Unix epoch, and zero before the epoch. Nothing
/// is promised of the value.
#[verifier::external_body]
pub fn now_epoch_secs() -> u64 {
    match std::time::SystemTime::now().duration_since(std::time::SystemTime::UNIX_EPOCH) {
        Ok(d) => d.as_secs(),
        Err(_) => 0,
    }
}

/// Relies on `chrono::DateTime::<Utc>::from_timestamp` and its `format`
/// with `%FT%TZ`: both are fixed functions of the epoch second count alone
/// (empty where `chrono` cannot represent the instant).
#[verifier::external_body]
pub fn datetime_iso8601(epoch_secs: u64) -> (r: String)
    ensures
        r@ == rfc3339_of(epoch_secs),
{
    match chrono::DateTime::<chrono::Utc>::from_timestamp(epoch_secs as i64, 0) {
        Some(dt) => dt.format("%FT%TZ").to_string(),
        None => String::new(),
    }
}

} // verus!
