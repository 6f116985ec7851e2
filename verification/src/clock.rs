//! What the clock shows, in milliseconds.
use vstd::prelude::*;

verus! {

/// The milliseconds that have passed since the beginning of 1970, as they are kept with
/// requests; zero if the clock shows an earlier moment.
pub fn request_millis(elapsed: Option<u128>) -> (r: i64)
    ensures
        elapsed is None ==> r == 0,
        elapsed matches Some(ms) ==> r == ms as i64,
        elapsed matches Some(ms) ==> (ms <= i64::MAX ==> r == ms),
{
    match elapsed {
        Some(ms) => #[verifier::truncate]
        (ms as i64),
        None => 0,
    }
}

/// The milliseconds that have passed since the beginning of 1970, as they are kept with
/// threads: zero if the clock shows an earlier moment, and at most the largest number there
/// is.
pub fn thread_millis(elapsed: Option<u128>) -> (r: i64)
    ensures
        elapsed is None ==> r == 0,
        elapsed matches Some(ms) ==> r == if ms <= i64::MAX {
            ms as int
        } else {
            i64::MAX as int
        },
{
    match elapsed {
        Some(ms) => if ms <= i64::MAX as u128 {
            ms as i64
        } else {
            i64::MAX
        },
        None => 0,
    }
}

} // verus!
