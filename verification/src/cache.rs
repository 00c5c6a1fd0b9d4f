//! A compute-at-most-once cell for expensive service discovery.

use vstd::prelude::*;

use crate::Error;

verus! {

/// Holds either "not yet computed" or a computed value; the transition
/// happens at most once and never reverts.
///
/// A session uses this to resolve a service's endpoint and version info
/// at most once per logical session-to-service binding. Exclusive
/// ownership (`&mut self` on the single state transition) serializes
/// callers: two of them can never both run the computation.
#[derive(Debug)]
pub struct ValueCache<T> {
    value: Option<T>,
}

impl<T> ValueCache<T> {
    /// The cached value, if computed.
    pub closed spec fn view(&self) -> Option<T> {
        self.value
    }

    /// An empty cache, with nothing computed yet.
    pub fn new() -> (r: ValueCache<T>)
        ensures
            r@ is None,
    {
        ValueCache { value: None }
    }

    /// Read the cached value; absence means no computation has succeeded
    /// yet.
    pub fn get(&self) -> (r: Option<&T>)
        ensures
            match r {
                Some(v) => self@ == Some(*v),
                None => self@ is None,
            },
    {
        match &self.value {
            Some(v) => Some(v),
            None => None,
        }
    }

    /// Store the value of a computation done by the caller. Equivalent to
    /// [`ValueCache::ensure_value`] with an already-run computation.
    pub fn fill(&mut self, value: T)
        requires
            old(self)@ is None,
        ensures
            final(self)@ == Some(value),
    {
        self.value = Some(value);
    }

    /// Run `compute` and store its value, unless a value is already
    /// stored. On failure the cache stays "not computed", so a later call
    /// retries; after any success the stored value is served forever and
    /// `compute` is not run again.
    pub fn ensure_value<F: FnOnce() -> Result<T, Error>>(&mut self, compute: F) -> (r: Result<
        (),
        Error,
    >)
        requires
            call_requires(compute, ()),
        ensures
            old(self)@ is Some ==> final(self)@ == old(self)@ && r is Ok,
            old(self)@ is None ==> exists|out: Result<T, Error>|
                {
                    &&& #[trigger] call_ensures(compute, (), out)
                    &&& match out {
                        Ok(v) => final(self)@ == Some(v) && r is Ok,
                        Err(e) => final(self)@ is None && r == Err::<(), Error>(e),
                    }
                },
    {
        if self.value.is_some() {
            return Ok(());
        }
        match compute() {
            Ok(v) => {
                self.value = Some(v);
                Ok(())
            },
            Err(e) => Err(e),
        }
    }
}

} // verus!
