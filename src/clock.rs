use vstd::prelude::*;

verus! {

/// Relies on `chrono::Utc::now` and `Datelike::num_days_from_ce`: the current
/// UTC calendar day, counted in days from the first day of the common era.
#[verifier::external_body]
pub(crate) fn today_utc() -> (r: i32) {
    chrono::Datelike::num_days_from_ce(&chrono::Utc::now().date_naive())
}

/// Relies on `chrono::Utc::now` and `DateTime::timestamp`: the current time in
/// seconds since the Unix epoch.
#[verifier::external_body]
pub(crate) fn now_timestamp() -> (r: i64) {
    chrono::Utc::now().timestamp()
}

} // verus!
