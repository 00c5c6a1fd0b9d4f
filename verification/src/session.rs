//! A session bound to one service: its transport and discovery
//! capabilities, and the at-most-once cache of what discovery found.

use vstd::prelude::*;
use vstd::string::StringExecFns;

use crate::cache::ValueCache;
use crate::json::JsonValue;
use crate::protocol::Request;
use crate::version::ServiceInfo;
use crate::Error;

verus! {

/// A logical session-to-service binding.
///
/// `send` performs one authenticated request and decodes its JSON body;
/// `discover` resolves the service's endpoint and advertised version
/// range. Both are capabilities the caller supplies — this crate never
/// performs I/O itself. Discovery runs at most once per session: its
/// result is cached and served to every later question about versions.
#[derive(Debug)]
pub struct Session<F, G> {
    send: F,
    discover: G,
    cached_info: ValueCache<ServiceInfo>,
}

impl<F, G> Session<F, G> where
    F: Fn(Request) -> Result<JsonValue, Error>,
    G: Fn() -> Result<ServiceInfo, Error>,
 {
    /// The transport capability.
    pub closed spec fn spec_send(&self) -> F {
        self.send
    }

    /// The discovery capability.
    pub closed spec fn spec_discover(&self) -> G {
        self.discover
    }

    /// What discovery has established so far, if anything.
    pub closed spec fn spec_info(&self) -> Option<ServiceInfo> {
        self.cached_info@
    }

    /// The capabilities accept every call: what a session needs of its
    /// caller once, at construction.
    pub open spec fn wf(&self) -> bool {
        &&& forall|req: Request| call_requires(self.spec_send(), (req,))
        &&& call_requires(self.spec_discover(), ())
    }

    /// Bind a session to a service through its two capabilities. Lazy:
    /// no discovery happens until something asks for version info.
    pub fn new(send: F, discover: G) -> (r: Session<F, G>)
        requires
            forall|req: Request| call_requires(send, (req,)),
            call_requires(discover, ()),
        ensures
            r.wf(),
            r.spec_send() == send,
            r.spec_discover() == discover,
            r.spec_info() is None,
    {
        Session { send, discover, cached_info: ValueCache::new() }
    }

    /// How one "give me the service info" step relates the session
    /// before and after: the capabilities are untouched; a cached value
    /// is served as is; otherwise the outcome is one possible answer of
    /// the discovery capability, cached exactly when it succeeded.
    pub open spec fn discovery_step(
        pre: Session<F, G>,
        post: Session<F, G>,
        outcome: Result<ServiceInfo, Error>,
    ) -> bool {
        &&& post.spec_send() == pre.spec_send()
        &&& post.spec_discover() == pre.spec_discover()
        &&& match pre.spec_info() {
            Some(info) => outcome == Ok::<ServiceInfo, Error>(info) && post.spec_info() == Some(
                info,
            ),
            None => {
                &&& call_ensures(pre.spec_discover(), (), outcome)
                &&& match outcome {
                    Ok(info) => post.spec_info() == Some(info),
                    Err(_) => post.spec_info() is None,
                }
            },
        }
    }

    /// The service's endpoint and version range, resolved through the
    /// cache: the stored value if discovery already succeeded, otherwise
    /// whatever one run of discovery yields, stored on success and left
    /// uncached on failure so a later call retries.
    pub fn get_service_info(&mut self) -> (r: Result<ServiceInfo, Error>)
        requires
            old(self).wf(),
        ensures
            final (self).wf(),
            Self::discovery_step(*old(self), *final (self), r),
    {
        match self.cached_info.get() {
            Some(info) => {
                return Ok(info.clone());
            },
            None => {},
        }
        let ghost pre = *self;
        match (self.discover)() {
            Ok(info) => {
                let copy = info.clone();
                self.cached_info.fill(info);
                proof {
                    assert(self.spec_send() == pre.spec_send());
                    assert(forall|req: Request| call_requires(pre.spec_send(), (req,)));
                    assert(self.wf());
                }
                Ok(copy)
            },
            Err(e) => Err(e),
        }
    }

    /// The service's root endpoint, resolved through the cached
    /// discovery.
    pub fn get_root_endpoint(&mut self) -> (r: Result<String, Error>)
        requires
            old(self).wf(),
        ensures
            final (self).wf(),
            exists|ir: Result<ServiceInfo, Error>|
                {
                    &&& #[trigger] Session::discovery_step(*old(self), *final (self), ir)
                    &&& match ir {
                        Ok(info) => r == Ok::<String, Error>(info.root_url),
                        Err(e) => r == Err::<String, Error>(e),
                    }
                },
    {
        match self.get_service_info() {
            Ok(info) => Ok(info.root_url),
            Err(e) => Err(e),
        }
    }

    /// The root endpoint with `path` appended after a separating slash.
    pub fn get_endpoint(&mut self, path: &str) -> (r: Result<String, Error>)
        requires
            old(self).wf(),
        ensures
            final (self).wf(),
            exists|ir: Result<ServiceInfo, Error>|
                {
                    &&& #[trigger] Session::discovery_step(*old(self), *final (self), ir)
                    &&& match ir {
                        Ok(info) => r matches Ok(u) && u@ == info.root_url@ + "/"@ + path@,
                        Err(e) => r matches Err(e2) && e2 == e,
                    }
                },
    {
        let mut url = match self.get_root_endpoint() {
            Ok(u) => u,
            Err(e) => {
                return Err(e);
            },
        };
        url.append("/");
        url.append(path);
        Ok(url)
    }

    /// Issue one request through the transport capability. The result is
    /// one possible answer of that capability for exactly `req`; nothing
    /// more is assumed of it.
    pub fn request(&self, req: Request) -> (r: Result<JsonValue, Error>)
        requires
            self.wf(),
        ensures
            call_ensures(self.spec_send(), (req,), r),
    {
        (self.send)(req)
    }
}

} // verus!
