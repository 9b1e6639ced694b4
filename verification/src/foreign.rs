//! Types of other crates that the library carries without looking inside.

use vstd::prelude::*;

verus! {

/// A point in time with an offset, from the `time` crate.
#[verifier::external_type_specification]
#[verifier::external_body]
pub struct ExOffsetDateTime(time::OffsetDateTime);

/// An I/O error from the standard library.
#[verifier::external_type_specification]
#[verifier::external_body]
pub struct ExIoError(std::io::Error);

/// `time::OffsetDateTime` is `Copy`; its `Clone` hands back the same
/// value, as claimed here.
pub assume_specification[ <time::OffsetDateTime as std::clone::Clone>::clone ](
    t: &time::OffsetDateTime,
) -> (r: time::OffsetDateTime)
    ensures
        r == *t,
;

/// `std::time::Duration` is `Copy`; its `Clone` hands back the same value,
/// as claimed here.
pub assume_specification[ <std::time::Duration as std::clone::Clone>::clone ](
    d: &std::time::Duration,
) -> (r: std::time::Duration)
    ensures
        r == *d,
;

} // verus!
