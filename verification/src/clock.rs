use vstd::prelude::*;

verus! {

/// The wall clock's `std::time::SystemTime`, carried through opaquely.
#[verifier::external_type_specification]
#[verifier::external_body]
pub struct ExSystemTime(std::time::SystemTime);

/// Calls `std::time::SystemTime::now`. What it returns depends on the
/// machine's clock, so nothing is stated of it.
#[verifier::external_body]
fn system_time_now() -> std::time::SystemTime {
    std::time::SystemTime::now()
}

/// Calls `std::time::SystemTime::duration_since` with `UNIX_EPOCH`; `None`
/// stands for its error (the clock reads earlier than the epoch). What it
/// returns depends on the clock reading, so nothing is stated of it.
#[verifier::external_body]
fn elapsed_since_unix_epoch(t: &std::time::SystemTime) -> Option<std::time::Duration> {
    match t.duration_since(std::time::UNIX_EPOCH) {
        Ok(d) => Some(d),
        Err(_) => None,
    }
}

/// Calls `std::time::Duration::as_millis`. The duration is opaque here, so
/// nothing is stated of the count.
#[verifier::external_body]
fn duration_millis(d: &std::time::Duration) -> u128 {
    d.as_millis()
}

/// What the clock's reading comes to in milliseconds: the count of whole
/// milliseconds since the Unix epoch truncated to 64 bits, or zero when the
/// clock reads before the epoch (`None`).
pub fn millis_to_u64(elapsed_ms: Option<u128>) -> (r: u64)
    ensures
        r == (match elapsed_ms {
            Some(m) => m as u64,
            None => 0u64,
        }),
{
    match elapsed_ms {
        Some(ms) => {
            #[verifier::truncate]
            (ms as u64)
        },
        None => 0,
    }
}

/// Milliseconds since the Unix epoch on the wall clock, truncated to 64 bits;
/// zero when the clock reads before the epoch. The reading itself depends on
/// the time of the call; what is done with it is `millis_to_u64`.
pub fn now_ms() -> u64 {
    let now = system_time_now();
    let elapsed_ms = match elapsed_since_unix_epoch(&now) {
        Some(d) => Some(duration_millis(&d)),
        None => None,
    };
    millis_to_u64(elapsed_ms)
}

} // verus!
