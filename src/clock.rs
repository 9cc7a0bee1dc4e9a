use vstd::prelude::*;

verus! {

/// Relies on `chrono::Utc::now` and `DateTime::timestamp`: the current time
/// as whole seconds since the Unix epoch. Nothing is known of its value.
#[verifier::external_body]
pub(crate) fn current_unix_time() -> (r: i64) {
    chrono::Utc::now().timestamp()
}

/// Relies on `chrono::Utc::now` and `DateTime::to_rfc3339`: the current
/// time as RFC 3339 text. Nothing is known of its value.
#[verifier::external_body]
pub(crate) fn current_rfc3339() -> (r: String) {
    chrono::Utc::now().to_rfc3339()
}

} // verus!
