//! The calls into outside crates, each behind a contract that Verus takes on
//! trust.
use vstd::prelude::*;

verus! {

/// The key that `slug::slugify` makes of a text.
pub uninterp spec fn slug_of(s: Seq<char>) -> Seq<char>;

/// Relies on `slug::slugify`: the key it makes depends on the text alone.
#[verifier::external_body]
pub(crate) fn slugify(s: &String) -> (r: String)
    ensures
        r@ == slug_of(s@),
{
    slug::slugify(s)
}

/// Relies on `chrono::Local::now` and `DateTime::timestamp_micros`: the
/// microseconds since the Unix epoch. `Utc::now`, which `Local::now` calls,
/// panics on a clock set before the epoch, so the count is never negative.
#[verifier::external_body]
pub(crate) fn now_micros() -> (r: i64)
    ensures
        r >= 0,
{
    chrono::Local::now().timestamp_micros()
}

/// Relies on `chrono::Local::now` and `DateTime::format`: the local date and
/// time as `YYYY-MM-DD-HH.MM.SS`.
#[verifier::external_body]
pub(crate) fn local_stamp_now() -> (r: String) {
    chrono::Local::now().format("%Y-%m-%d-%H.%M.%S").to_string()
}

/// Relies on `rand::seq::SliceRandom::shuffle` with `rand::rng()`: it only
/// swaps elements, so what comes out is a permutation of what went in.
#[verifier::external_body]
pub(crate) fn shuffle<T>(v: &mut Vec<T>)
    ensures
        final(v)@.len() == old(v)@.len(),
        final(v)@.to_multiset() == old(v)@.to_multiset(),
{
    rand::seq::SliceRandom::shuffle(v.as_mut_slice(), &mut rand::rng())
}

} // verus!
