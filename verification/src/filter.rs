//! The exactly-one lookup filter used by every get-by-name call.

use vstd::prelude::*;

use crate::Error;

verus! {

/// Resolve a candidate list that must contain exactly one element.
///
/// Zero candidates fail with [`Error::NotFound`] carrying `not_found`;
/// more than one fails with [`Error::AmbiguousResult`] carrying
/// `too_many`; exactly one is returned. No order among candidates is
/// assumed.
pub fn exactly_one<T>(candidates: Vec<T>, not_found: &str, too_many: &str) -> (r: Result<T, Error>)
    ensures
        match r {
            Ok(v) => candidates@.len() == 1 && v == candidates@[0],
            Err(e) => match e {
                Error::NotFound(m) => candidates@.len() == 0 && m@ == not_found@,
                Error::AmbiguousResult(m) => candidates@.len() > 1 && m@ == too_many@,
                _ => false,
            },
        },
{
    let mut candidates = candidates;
    if candidates.len() == 0 {
        Err(Error::NotFound(not_found.to_owned()))
    } else if candidates.len() > 1 {
        Err(Error::AmbiguousResult(too_many.to_owned()))
    } else {
        Ok(candidates.remove(0))
    }
}

} // verus!
