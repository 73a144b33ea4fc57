use vstd::prelude::*;

verus! {

/// Relies on std::time::SystemTime::now: a wall-clock reading, converted to
/// whole milliseconds since the Unix epoch. Nothing is assumed of the value:
/// successive readings may repeat or even decrease, and every caller treats
/// the result as an arbitrary instant.
#[verifier::external_body]
pub(crate) fn now_millis() -> u64 {
    match std::time::SystemTime::now().duration_since(std::time::UNIX_EPOCH) {
        Ok(d) => d.as_millis() as u64,
        Err(_) => 0,
    }
}

} // verus!
