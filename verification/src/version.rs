//! API versions, version-request policies, and the negotiation algorithm.

use vstd::prelude::*;

use crate::Error;

verus! {

/// An API version as a `(major, minor)` pair, ordered lexicographically.
#[derive(Clone, Copy, Debug, PartialEq, Eq, Structural, Hash)]
pub struct ApiVersion(pub u16, pub u16);

impl ApiVersion {
    /// Lexicographic order on `(major, minor)`.
    pub open spec fn spec_le(self, other: ApiVersion) -> bool {
        self.0 < other.0 || (self.0 == other.0 && self.1 <= other.1)
    }

    /// Executable form of [`ApiVersion::spec_le`].
    pub fn le(&self, other: &ApiVersion) -> (r: bool)
        ensures
            r == self.spec_le(*other),
    {
        self.0 < other.0 || (self.0 == other.0 && self.1 <= other.1)
    }
}

/// How a caller wants a version picked from a service's advertised range.
///
/// The four shapes form a closed set; negotiation matches on them
/// exhaustively, with no default branch.
#[derive(Debug)]
pub enum VersionRequest {
    /// Use the minimum version the service advertises, if any.
    Minimum,
    /// Use the current (newest) version the service advertises, if any.
    Latest,
    /// Use exactly this version, if the service supports it.
    Exact(ApiVersion),
    /// Use the best match among these candidates, in the given order.
    Choice(Vec<ApiVersion>),
}

/// The version range and root endpoint a service advertises.
///
/// Either bound of the range may be unknown. When both are known, the
/// minimum does not exceed the current version ([`ServiceInfo::wf`]).
#[derive(Debug)]
pub struct ServiceInfo {
    /// Root endpoint of the service.
    pub root_url: String,
    /// Current API version, if the service advertises one.
    pub current_version: Option<ApiVersion>,
    /// Minimum API version, if the service advertises one.
    pub minimum_version: Option<ApiVersion>,
}

impl Clone for ServiceInfo {
    fn clone(&self) -> (res: Self)
        ensures
            res == *self,
    {
        ServiceInfo {
            root_url: self.root_url.clone(),
            current_version: self.current_version,
            minimum_version: self.minimum_version,
        }
    }
}

/// The greatest element of `s` that lies in `[min, max]`, or `None` if no
/// element does.
pub open spec fn best_in_range(min: ApiVersion, max: ApiVersion, s: Seq<ApiVersion>) -> Option<
    ApiVersion,
>
    decreases s.len(),
{
    if s.len() == 0 {
        None
    } else {
        let prev = best_in_range(min, max, s.drop_last());
        let v = s.last();
        if min.spec_le(v) && v.spec_le(max) {
            match prev {
                None => Some(v),
                Some(b) => if b.spec_le(v) {
                    Some(v)
                } else {
                    Some(b)
                },
            }
        } else {
            prev
        }
    }
}

/// The first element of `s` equal to `target`, or `None` if none is.
/// Since versions are plain values, every match is the value `target`
/// itself.
pub open spec fn first_exact(target: ApiVersion, s: Seq<ApiVersion>) -> Option<ApiVersion> {
    if exists|i: int| 0 <= i < s.len() && s[i] == target {
        Some(target)
    } else {
        None
    }
}

impl ServiceInfo {
    /// Invariant: when both bounds are known, the minimum does not exceed
    /// the current version.
    pub open spec fn wf(self) -> bool {
        (self.minimum_version is Some && self.current_version is Some)
            ==> self.minimum_version->0.spec_le(self.current_version->0)
    }

    /// Whether the service supports version `v`: the current version must
    /// be known; with a known minimum, `v` must lie in the advertised
    /// range, and without one, `v` must equal the current version exactly
    /// (no range is assumed without a known floor).
    pub open spec fn spec_supports_api_version(self, v: ApiVersion) -> bool {
        match self.current_version {
            None => false,
            Some(max) => match self.minimum_version {
                Some(min) => min.spec_le(v) && v.spec_le(max),
                None => v == max,
            },
        }
    }

    /// Executable form of [`ServiceInfo::spec_supports_api_version`].
    pub fn supports_api_version(&self, v: ApiVersion) -> (r: bool)
        ensures
            r == self.spec_supports_api_version(v),
    {
        match self.current_version {
            None => false,
            Some(max) => match self.minimum_version {
                Some(min) => min.le(&v) && v.le(&max),
                None => v == max,
            },
        }
    }

    /// What negotiation yields for `request` against this range.
    ///
    /// `Choice` is asymmetric on purpose: with a known minimum it takes
    /// the greatest candidate in range, while without one it takes the
    /// first candidate equal to the current version. The asymmetry is a
    /// documented behavior callers may rely on, not an accident to fix.
    pub open spec fn spec_pick_version(self, request: VersionRequest) -> Option<ApiVersion> {
        match request {
            VersionRequest::Minimum => self.minimum_version,
            VersionRequest::Latest => self.current_version,
            VersionRequest::Exact(v) => if self.spec_supports_api_version(v) {
                Some(v)
            } else {
                None
            },
            VersionRequest::Choice(vs) => match self.current_version {
                None => None,
                Some(max) => if vs@.len() == 0 {
                    None
                } else {
                    match self.minimum_version {
                        Some(min) => best_in_range(min, max, vs@),
                        None => first_exact(max, vs@),
                    }
                },
            },
        }
    }

    /// Decide which single version to use for `request`, if any.
    ///
    /// A pure function of `(self, request)`; `None` means "no mutually
    /// supported version" and is the caller's cue to raise
    /// [`crate::Error::VersionMismatch`], never to default silently.
    pub fn pick_version(&self, request: &VersionRequest) -> (r: Option<ApiVersion>)
        ensures
            r == self.spec_pick_version(*request),
    {
        match request {
            VersionRequest::Minimum => self.minimum_version,
            VersionRequest::Latest => self.current_version,
            VersionRequest::Exact(v) => if self.supports_api_version(*v) {
                Some(*v)
            } else {
                None
            },
            VersionRequest::Choice(vs) => match self.current_version {
                None => None,
                Some(max) => match self.minimum_version {
                    Some(min) => {
                        let mut best: Option<ApiVersion> = None;
                        let mut i: usize = 0;
                        while i < vs.len()
                            invariant
                                i <= vs.len(),
                                best == best_in_range(min, max, vs@.take(i as int)),
                            decreases vs.len() - i,
                        {
                            let v = vs[i];
                            if min.le(&v) && v.le(&max) {
                                best = match best {
                                    None => Some(v),
                                    Some(b) => if b.le(&v) {
                                        Some(v)
                                    } else {
                                        Some(b)
                                    },
                                };
                            }
                            proof {
                                assert(vs@.take(i + 1 as int).drop_last() =~= vs@.take(i as int));
                                assert(vs@.take(i + 1 as int).last() == vs@[i as int]);
                            }
                            i = i + 1;
                        }
                        proof {
                            assert(vs@.take(vs@.len() as int) =~= vs@);
                        }
                        if vs.len() == 0 {
                            None
                        } else {
                            best
                        }
                    },
                    None => {
                        let mut i: usize = 0;
                        let mut found: Option<ApiVersion> = None;
                        while i < vs.len()
                            invariant
                                i <= vs.len(),
                                found is Some ==> (found == Some(max) && exists|j: int|
                                    0 <= j < vs@.len() && vs@[j] == max),
                                found is None ==> forall|j: int| 0 <= j < i ==> vs@[j] != max,
                            decreases vs.len() - i,
                        {
                            if found.is_none() && vs[i] == max {
                                found = Some(max);
                            }
                            i = i + 1;
                        }
                        found
                    },
                },
            },
        }
    }
}

/// Negotiate a version for `request`, surfacing "no mutually supported
/// version" as [`Error::VersionMismatch`] rather than defaulting
/// silently.
pub fn negotiate_version(info: &ServiceInfo, request: &VersionRequest) -> (r: Result<
    ApiVersion,
    Error,
>)
    ensures
        match info.spec_pick_version(*request) {
            Some(v) => r == Ok::<ApiVersion, Error>(v),
            None => r == Err::<ApiVersion, Error>(Error::VersionMismatch),
        },
{
    match info.pick_version(request) {
        Some(v) => Ok(v),
        None => Err(Error::VersionMismatch),
    }
}

/// With a known range `min <= max` and `Exact(v)` inside it, negotiation
/// returns `v` itself.
pub proof fn lemma_pick_version_exact_in_range(info: ServiceInfo, v: ApiVersion)
    requires
        info.current_version is Some,
        info.minimum_version is Some,
        info.minimum_version->0.spec_le(v),
        v.spec_le(info.current_version->0),
    ensures
        info.spec_pick_version(VersionRequest::Exact(v)) == Some(v),
{
}

/// `Exact(v)` outside the advertised range, or different from the current
/// version when no minimum is advertised, yields absence.
pub proof fn lemma_pick_version_exact_rejected(info: ServiceInfo, v: ApiVersion)
    requires
        info.current_version is Some,
        match info.minimum_version {
            Some(min) => !(min.spec_le(v) && v.spec_le(info.current_version->0)),
            None => v != info.current_version->0,
        },
    ensures
        info.spec_pick_version(VersionRequest::Exact(v)) is None,
{
}

/// An empty candidate list yields absence, whatever the service advertises.
pub proof fn lemma_pick_version_choice_empty(info: ServiceInfo, vs: Vec<ApiVersion>)
    requires
        vs@.len() == 0,
    ensures
        info.spec_pick_version(VersionRequest::Choice(vs)) is None,
{
}

/// Helper for [`lemma_pick_version_choice_known_min`]: `best_in_range` is
/// the greatest in-range element, or `None` when no element is in range.
proof fn lemma_best_in_range_is_max(min: ApiVersion, max: ApiVersion, s: Seq<ApiVersion>)
    ensures
        match best_in_range(min, max, s) {
            Some(b) => {
                &&& min.spec_le(b) && b.spec_le(max)
                &&& exists|i: int| 0 <= i < s.len() && s[i] == b
                &&& forall|i: int|
                    0 <= i < s.len() && min.spec_le(#[trigger] s[i]) && s[i].spec_le(max)
                        ==> s[i].spec_le(b)
            },
            None => forall|i: int|
                0 <= i < s.len() ==> !(min.spec_le(#[trigger] s[i]) && s[i].spec_le(max)),
        },
    decreases s.len(),
{
    if s.len() > 0 {
        lemma_best_in_range_is_max(min, max, s.drop_last());
        assert forall|i: int| 0 <= i < s.len() - 1 implies s.drop_last()[i] == s[i] by {}
    }
}

/// With a known minimum, `Choice(candidates)` yields the greatest
/// candidate inside `[min, max]`, or absence when none qualifies.
pub proof fn lemma_pick_version_choice_known_min(info: ServiceInfo, vs: Vec<ApiVersion>)
    requires
        info.current_version is Some,
        info.minimum_version is Some,
    ensures
        match info.spec_pick_version(VersionRequest::Choice(vs)) {
            Some(b) => {
                &&& info.spec_supports_api_version(b)
                &&& exists|i: int| 0 <= i < vs@.len() && vs@[i] == b
                &&& forall|i: int|
                    0 <= i < vs@.len() && info.spec_supports_api_version(#[trigger] vs@[i])
                        ==> vs@[i].spec_le(b)
            },
            None => forall|i: int|
                0 <= i < vs@.len() ==> !info.spec_supports_api_version(#[trigger] vs@[i]),
        },
{
    let min = info.minimum_version->0;
    let max = info.current_version->0;
    lemma_best_in_range_is_max(min, max, vs@);
}

/// With no advertised minimum, `Choice(candidates)` yields the current
/// version when some candidate equals it exactly, and absence otherwise.
/// Versions are plain values, so the first matching candidate is the
/// value of the current version itself.
pub proof fn lemma_pick_version_choice_absent_min(info: ServiceInfo, vs: Vec<ApiVersion>)
    requires
        info.current_version is Some,
        info.minimum_version is None,
        vs@.len() > 0,
    ensures
        (exists|i: int| 0 <= i < vs@.len() && vs@[i] == info.current_version->0)
            ==> info.spec_pick_version(VersionRequest::Choice(vs)) == Some(info.current_version->0),
        (forall|i: int| 0 <= i < vs@.len() ==> vs@[i] != info.current_version->0)
            ==> info.spec_pick_version(VersionRequest::Choice(vs)) is None,
{
}

/// Under the advertised-range invariant, a service supports both ends
/// of its own range: `Latest` and `Minimum` picks never fall outside it.
pub proof fn lemma_advertised_bounds_supported(info: ServiceInfo)
    requires
        info.wf(),
    ensures
        info.current_version is Some ==> info.spec_supports_api_version(info.current_version->0),
        (info.current_version is Some && info.minimum_version is Some)
            ==> info.spec_supports_api_version(info.minimum_version->0),
{
}

/// Negotiation is a pure function: identical inputs always yield
/// identical outputs.
pub proof fn lemma_pick_version_deterministic(
    info: ServiceInfo,
    request: VersionRequest,
    r1: Option<ApiVersion>,
    r2: Option<ApiVersion>,
)
    requires
        r1 == info.spec_pick_version(request),
        r2 == info.spec_pick_version(request),
    ensures
        r1 == r2,
{
}

} // verus!
