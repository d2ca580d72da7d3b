//! What the library takes from the machine it runs on: the user's home
//! directory and the current time. Their contracts are believed, not proved;
//! callers are verified for every value they may return.

use vstd::prelude::*;

verus! {

/// The user's home directory as `dirs::home_dir` reports it, or `None` where
/// it reports none. A path that is not valid UTF-8 comes back with the
/// offending bytes replaced. The answer depends on the environment and on
/// the password database, so nothing is claimed of it.
#[verifier::external_body]
pub(crate) fn home_directory() -> Option<String> {
    match dirs::home_dir() {
        Some(path) => Some(path.to_string_lossy().into_owned()),
        None => None,
    }
}

/// The current time in UTC: the system clock, taken as a
/// `chrono::DateTime<Utc>` and written by `chrono::DateTime::to_rfc3339`.
/// Which time comes back depends on the clock. Its writing always holds a
/// year of four characters or more, `-MM-DDTHH:MM:SS`, perhaps a fraction,
/// and the offset `+00:00`: twenty-five characters at least.
#[verifier::external_body]
pub(crate) fn timestamp_now() -> (stamp: String)
    ensures
        stamp@.len() >= 25,
{
    chrono::DateTime::<chrono::Utc>::from(std::time::SystemTime::now()).to_rfc3339()
}

} // verus!
