//! Foundation bits exposing the Compute API.

use vstd::prelude::*;

use crate::filter::exactly_one;
use crate::json::JsonValue;
use crate::protocol::{
    action_body, is_action_body, is_keypair_create_body, is_server_create_body, keypair_create_body,
    parse_list, parse_root, parse_string_map, req_path_is, req_query_is, req_version_is,
    server_create_body, spec_list_field, spec_root_field, spec_string_map_field, Flavor, FromJson,
    IdAndName, KeyPair, KeyPairCreate, Method, Ref, Request, Server, ServerCreate,
};
use crate::session::Session;
use crate::version::{ApiVersion, ServiceInfo, VersionRequest};
use crate::Error;
use vstd::pervasive::unreached;

verus! {

/// First version reporting key pair types.
pub open spec fn version_keypair_type() -> ApiVersion {
    ApiVersion(2, 2)
}

/// First version reporting server descriptions.
pub open spec fn version_server_description() -> ApiVersion {
    ApiVersion(2, 19)
}

/// First version paginating key pair listings.
pub open spec fn version_keypair_pagination() -> ApiVersion {
    ApiVersion(2, 35)
}

/// First version reporting flavor descriptions.
pub open spec fn version_flavor_description() -> ApiVersion {
    ApiVersion(2, 55)
}

/// First version embedding flavor extra specs.
pub open spec fn version_flavor_extra_specs() -> ApiVersion {
    ApiVersion(2, 61)
}

/// A service type: its catalog name, the major versions it talks, and
/// how a negotiated version is attached to a request.
pub trait ServiceType {
    /// Name of this service type in the catalog.
    spec fn spec_catalog_type() -> Seq<char>;

    /// Name of the vendor header that carries a negotiated version.
    spec fn spec_version_header() -> Seq<char>;

    /// Which major versions this binding understands.
    spec fn spec_major_version_supported(version: ApiVersion) -> bool;

    /// Executable form of [`ServiceType::spec_catalog_type`].
    fn catalog_type() -> (r: &'static str)
        ensures
            r@ == Self::spec_catalog_type(),
    ;

    /// Executable form of [`ServiceType::spec_major_version_supported`].
    fn major_version_supported(version: ApiVersion) -> (r: bool)
        ensures
            r == Self::spec_major_version_supported(version),
    ;

    /// Mark `request` as using `version`, under this service's header.
    /// Everything else about the request is untouched.
    fn set_api_version_headers(request: Request, version: ApiVersion) -> (r: Result<Request, Error>)
        ensures
            r matches Ok(modified) && modified.method == request.method && modified.path
                == request.path && modified.query == request.query && modified.body == request.body
                && req_version_is(modified, Self::spec_version_header(), Some(version)),
    ;
}

/// The Compute service type.
#[derive(Copy, Clone, Debug)]
pub struct ComputeService;

impl ServiceType for ComputeService {
    open spec fn spec_catalog_type() -> Seq<char> {
        "compute"@
    }

    open spec fn spec_version_header() -> Seq<char> {
        "x-openstack-nova-api-version"@
    }

    open spec fn spec_major_version_supported(version: ApiVersion) -> bool {
        version.0 == 2
    }

    fn catalog_type() -> (r: &'static str) {
        "compute"
    }

    fn major_version_supported(version: ApiVersion) -> (r: bool) {
        version.0 == 2
    }

    fn set_api_version_headers(request: Request, version: ApiVersion) -> (r: Result<
        Request,
        Error,
    >) {
        Ok(
            Request {
                api_version_header: Some("x-openstack-nova-api-version".to_owned()),
                api_version: Some(version),
                ..request
            },
        )
    }
}

/// The greatest of `s` that the service supports, or `None` when it
/// supports none of them.
pub open spec fn max_supported(info: ServiceInfo, s: Seq<ApiVersion>) -> Option<ApiVersion>
    decreases s.len(),
{
    if s.len() == 0 {
        None
    } else {
        let prev = max_supported(info, s.drop_last());
        let v = s.last();
        if info.spec_supports_api_version(v) {
            match prev {
                None => Some(v),
                Some(b) => if b.spec_le(v) {
                    Some(v)
                } else {
                    Some(b)
                },
            }
        } else {
            prev
        }
    }
}

/// Helper for [`lemma_max_supported_matches_choice`]: how
/// [`max_supported`] reduces under each shape of the advertised range.
proof fn lemma_max_supported_cases(info: ServiceInfo, s: Seq<ApiVersion>)
    ensures
        info.current_version is None ==> max_supported(info, s) is None,
        (info.current_version is Some && info.minimum_version is Some) ==> max_supported(info, s)
            == crate::version::best_in_range(
            info.minimum_version->0,
            info.current_version->0,
            s,
        ),
        (info.current_version is Some && info.minimum_version is None) ==> max_supported(info, s)
            == crate::version::first_exact(info.current_version->0, s),
    decreases s.len(),
{
    if s.len() > 0 {
        lemma_max_supported_cases(info, s.drop_last());
        if info.current_version is Some && info.minimum_version is None {
            let max = info.current_version->0;
            assert forall|i: int| 0 <= i < s.len() - 1 implies s.drop_last()[i] == s[i] by {}
            if s.last() == max {
                assert(max_supported(info, s) == Some(max));
            } else {
                if exists|i: int| 0 <= i < s.len() && s[i] == max {
                    let i = choose|i: int| 0 <= i < s.len() && s[i] == max;
                    assert(s.drop_last()[i] == max);
                }
            }
        }
    }
}

/// Picking the highest supported version out of `candidates` is, in
/// value, exactly what negotiating `Choice(candidates)` yields: with a
/// known minimum both take the greatest candidate in range, and without
/// one both come out as the current version exactly when some candidate
/// equals it. The `Choice` tie-break asymmetry (greatest in range
/// against first exact match) cannot show in the picked value, since
/// every exact match is the same version.
pub proof fn lemma_max_supported_matches_choice(info: ServiceInfo, candidates: Vec<ApiVersion>)
    ensures
        max_supported(info, candidates@) == info.spec_pick_version(
            VersionRequest::Choice(candidates),
        ),
{
    lemma_max_supported_cases(info, candidates@);
}

/// Pick the greatest supported version out of `versions`, or `None` when
/// the service supports none of them.
fn pick_max_supported(info: &ServiceInfo, versions: &[ApiVersion]) -> (r: Option<ApiVersion>)
    ensures
        r == max_supported(*info, versions@),
{
    let mut best: Option<ApiVersion> = None;
    let mut i: usize = 0;
    while i < versions.len()
        invariant
            i <= versions.len(),
            best == max_supported(*info, versions@.take(i as int)),
        decreases versions.len() - i,
    {
        let v = versions[i];
        if info.supports_api_version(v) {
            best = match best {
                None => Some(v),
                Some(b) => if b.le(&v) {
                    Some(v)
                } else {
                    Some(b)
                },
            };
        }
        proof {
            assert(versions@.take(i + 1 as int).drop_last() =~= versions@.take(i as int));
            assert(versions@.take(i + 1 as int).last() == versions@[i as int]);
        }
        i = i + 1;
    }
    proof {
        assert(versions@.take(versions@.len() as int) =~= versions@);
    }
    best
}

/// Pick the highest of `versions` that the service supports, or `None`
/// when it supports none; the service's range comes through the
/// session's cached discovery.
pub fn pick_compute_api_version<F, G>(
    session: &mut Session<F, G>,
    versions: &[ApiVersion],
) -> (r: Result<Option<ApiVersion>, Error>) where
    F: Fn(Request) -> Result<JsonValue, Error>,
    G: Fn() -> Result<ServiceInfo, Error>,

    requires
        old(session).wf(),
    ensures
        final (session).wf(),
        exists|ir: Result<ServiceInfo, Error>|
            {
                &&& #[trigger] Session::discovery_step(*old(session), *final (session), ir)
                &&& match ir {
                    Ok(info) => r == Ok::<Option<ApiVersion>, Error>(
                        max_supported(info, versions@),
                    ),
                    Err(e) => r == Err::<Option<ApiVersion>, Error>(e),
                }
            },
{
    match session.get_service_info() {
        Ok(info) => Ok(pick_max_supported(&info, versions)),
        Err(e) => Err(e),
    }
}

/// Whether the service supports `version`, by its advertised range.
pub fn supports_compute_api_version<F, G>(
    session: &mut Session<F, G>,
    version: ApiVersion,
) -> (r: Result<bool, Error>) where
    F: Fn(Request) -> Result<JsonValue, Error>,
    G: Fn() -> Result<ServiceInfo, Error>,

    requires
        old(session).wf(),
    ensures
        final (session).wf(),
        exists|ir: Result<ServiceInfo, Error>|
            {
                &&& #[trigger] Session::discovery_step(*old(session), *final (session), ir)
                &&& match ir {
                    Ok(info) => r == Ok::<bool, Error>(info.spec_supports_api_version(version)),
                    Err(e) => r == Err::<bool, Error>(e),
                }
            },
{
    match session.get_service_info() {
        Ok(info) => Ok(info.supports_api_version(version)),
        Err(e) => Err(e),
    }
}

/// The versions that improve flavor reporting, highest supported first.
pub open spec fn spec_flavor_versions() -> Seq<ApiVersion> {
    seq![version_flavor_description(), version_flavor_extra_specs()]
}

/// The version to request flavors with: the best supported of the
/// flavor-reporting versions.
pub fn flavor_api_version<F, G>(session: &mut Session<F, G>) -> (r: Result<
    Option<ApiVersion>,
    Error,
>) where
    F: Fn(Request) -> Result<JsonValue, Error>,
    G: Fn() -> Result<ServiceInfo, Error>,

    requires
        old(session).wf(),
    ensures
        final (session).wf(),
        exists|ir: Result<ServiceInfo, Error>|
            {
                &&& #[trigger] Session::discovery_step(*old(session), *final (session), ir)
                &&& match ir {
                    Ok(info) => r == Ok::<Option<ApiVersion>, Error>(
                        max_supported(info, spec_flavor_versions()),
                    ),
                    Err(e) => r == Err::<Option<ApiVersion>, Error>(e),
                }
            },
{
    let versions: [ApiVersion; 2] = [ApiVersion(2, 55), ApiVersion(2, 61)];
    proof {
        assert(versions@ =~= spec_flavor_versions());
    }
    pick_compute_api_version(session, &versions)
}

/// Whether key pair listings can be paginated.
pub fn supports_keypair_pagination<F, G>(session: &mut Session<F, G>) -> (r: Result<bool, Error>) where
    F: Fn(Request) -> Result<JsonValue, Error>,
    G: Fn() -> Result<ServiceInfo, Error>,

    requires
        old(session).wf(),
    ensures
        final (session).wf(),
        exists|ir: Result<ServiceInfo, Error>|
            {
                &&& #[trigger] Session::discovery_step(*old(session), *final (session), ir)
                &&& match ir {
                    Ok(info) => r == Ok::<bool, Error>(
                        info.spec_supports_api_version(version_keypair_pagination()),
                    ),
                    Err(e) => r == Err::<bool, Error>(e),
                }
            },
{
    supports_compute_api_version(session, ApiVersion(2, 35))
}

/// One request-reply exchange through the transport capability `send`:
/// some request of exactly this shape was issued, and `reply` is one of
/// the transport's possible answers to it.
pub open spec fn compute_exchange<F: Fn(Request) -> Result<JsonValue, Error>>(
    send: F,
    method: Method,
    path: Seq<Seq<char>>,
    version: Option<ApiVersion>,
    query: Seq<(Seq<char>, Seq<char>)>,
    body: Option<JsonValue>,
    reply: Result<JsonValue, Error>,
) -> bool {
    exists|req: Request|
        {
            &&& #[trigger] call_ensures(send, (req,), reply)
            &&& req.method == method
            &&& req_path_is(req, path)
            &&& req_version_is(req, ComputeService::spec_version_header(), version)
            &&& req_query_is(req, query)
            &&& req.body == body
        }
}

/// How a fire-and-forget call reports its reply: any successful reply is
/// success, a failure is passed through.
pub open spec fn commit_result(reply: Result<JsonValue, Error>, r: Result<(), Error>) -> bool {
    match reply {
        Ok(_) => r == Ok::<(), Error>(()),
        Err(e) => r == Err::<(), Error>(e),
    }
}

/// How a single-resource call reports its reply: a transport failure is
/// passed through, a well-formed body under `key` decodes to the result,
/// and a malformed body is a transport-level failure.
pub open spec fn root_result<T: FromJson>(
    key: Seq<char>,
    reply: Result<JsonValue, Error>,
    r: Result<T, Error>,
) -> bool {
    match reply {
        Err(e) => r == Err::<T, Error>(e),
        Ok(v) => match spec_root_field::<T>(v, key) {
            Some(x) => r == Ok::<T, Error>(x),
            None => r matches Err(e) && e is Transport,
        },
    }
}

/// How a listing call reports its reply, with the items in service
/// order.
pub open spec fn list_result<T: FromJson>(
    key: Seq<char>,
    item_key: Option<Seq<char>>,
    reply: Result<JsonValue, Error>,
    r: Result<Vec<T>, Error>,
) -> bool {
    match reply {
        Err(e) => r matches Err(e2) && e2 == e,
        Ok(v) => match spec_list_field::<T>(v, key, item_key) {
            Some(s) => r matches Ok(items) && items@ == s,
            None => r matches Err(e) && e is Transport,
        },
    }
}

/// How a string-map call reports its reply.
pub open spec fn map_result(
    key: Seq<char>,
    reply: Result<JsonValue, Error>,
    r: Result<Vec<(String, String)>, Error>,
) -> bool {
    match reply {
        Err(e) => r matches Err(e2) && e2 == e,
        Ok(v) => match spec_string_map_field(v, key) {
            Some(s) => r matches Ok(pairs) && pairs@ == s,
            None => r matches Err(e) && e is Transport,
        },
    }
}

/// Build a Compute request: the given method and path, the version
/// attached under the Compute header when one was picked, no query and
/// no body yet.
fn compute_request(method: Method, path: Vec<String>, version: Option<ApiVersion>) -> (r: Request)
    ensures
        r.method == method,
        r.path == path,
        req_version_is(r, ComputeService::spec_version_header(), version),
        r.query@.len() == 0,
        r.body is None,
{
    let req = Request::new(method, path);
    match version {
        None => req,
        Some(v) => match ComputeService::set_api_version_headers(req, v) {
            Ok(q) => q,
            Err(_) => unreached(),
        },
    }
}

/// Build a one-segment path.
fn path1(a: &str) -> (r: Vec<String>)
    ensures
        r@.len() == 1,
        r@[0]@ == a@,
{
    let mut p: Vec<String> = Vec::new();
    p.push(a.to_owned());
    p
}

/// Build a two-segment path.
fn path2(a: &str, b: &str) -> (r: Vec<String>)
    ensures
        r@.len() == 2,
        r@[0]@ == a@,
        r@[1]@ == b@,
{
    let mut p: Vec<String> = Vec::new();
    p.push(a.to_owned());
    p.push(b.to_owned());
    p
}

/// Build a three-segment path.
fn path3(a: &str, b: &str, c: &str) -> (r: Vec<String>)
    ensures
        r@.len() == 3,
        r@[0]@ == a@,
        r@[1]@ == b@,
        r@[2]@ == c@,
{
    let mut p: Vec<String> = Vec::new();
    p.push(a.to_owned());
    p.push(b.to_owned());
    p.push(c.to_owned());
    p
}

/// What deleting a key pair named `name` reports.
pub open spec fn delete_keypair_post<F: Fn(Request) -> Result<JsonValue, Error>>(
    send: F,
    name: Seq<char>,
    r: Result<(), Error>,
) -> bool {
    exists|reply: Result<JsonValue, Error>|
        {
            &&& compute_exchange(
                send,
                Method::Delete,
                seq!["os-keypairs"@, name],
                None,
                Seq::empty(),
                None,
                reply,
            )
            &&& #[trigger] commit_result(reply, r)
        }
}

/// Delete a key pair.
pub fn delete_keypair<F, G>(session: &Session<F, G>, name: &str) -> (r: Result<(), Error>) where
    F: Fn(Request) -> Result<JsonValue, Error>,
    G: Fn() -> Result<ServiceInfo, Error>,

    requires
        session.wf(),
    ensures
        delete_keypair_post(session.spec_send(), name@, r),
{
    let req = compute_request(Method::Delete, path2("os-keypairs", name), None);
    let ghost greq = req;
    let resp = session.request(req);
    let ghost gresp = resp;
    let out = match resp {
        Ok(_) => Ok(()),
        Err(e) => Err(e),
    };
    proof {
        assert(req_path_is(greq, seq!["os-keypairs"@, name@]));
        assert(req_query_is(greq, Seq::empty()));
        assert(compute_exchange(
            session.spec_send(),
            Method::Delete,
            seq!["os-keypairs"@, name@],
            None,
            Seq::empty(),
            None,
            gresp,
        ));
        assert(commit_result(gresp, out));
    }
    out
}

/// What requesting a server deletion reports.
pub open spec fn delete_server_post<F: Fn(Request) -> Result<JsonValue, Error>>(
    send: F,
    id: Seq<char>,
    r: Result<(), Error>,
) -> bool {
    exists|reply: Result<JsonValue, Error>|
        {
            &&& compute_exchange(
                send,
                Method::Delete,
                seq!["servers"@, id],
                None,
                Seq::empty(),
                None,
                reply,
            )
            &&& #[trigger] commit_result(reply, r)
        }
}

/// Delete a server. The call only requests the deletion; confirming it
/// is the polling waiter's business.
pub fn delete_server<F, G>(session: &Session<F, G>, id: &str) -> (r: Result<(), Error>) where
    F: Fn(Request) -> Result<JsonValue, Error>,
    G: Fn() -> Result<ServiceInfo, Error>,

    requires
        session.wf(),
    ensures
        delete_server_post(session.spec_send(), id@, r),
{
    let req = compute_request(Method::Delete, path2("servers", id), None);
    let ghost greq = req;
    let resp = session.request(req);
    let ghost gresp = resp;
    let out = match resp {
        Ok(_) => Ok(()),
        Err(e) => Err(e),
    };
    proof {
        assert(req_path_is(greq, seq!["servers"@, id@]));
        assert(req_query_is(greq, Seq::empty()));
        assert(compute_exchange(
            session.spec_send(),
            Method::Delete,
            seq!["servers"@, id@],
            None,
            Seq::empty(),
            None,
            gresp,
        ));
        assert(commit_result(gresp, out));
    }
    out
}

/// What running an action on a server reports: a body naming the action
/// and carrying `args` was posted to the server's action endpoint.
pub open spec fn server_action_post<F: Fn(Request) -> Result<JsonValue, Error>>(
    send: F,
    id: Seq<char>,
    action: Seq<char>,
    args: JsonValue,
    r: Result<(), Error>,
) -> bool {
    exists|b: JsonValue, reply: Result<JsonValue, Error>|
        {
            &&& #[trigger] is_action_body(b, action, args)
            &&& compute_exchange(
                send,
                Method::Post,
                seq!["servers"@, id, "action"@],
                None,
                Seq::empty(),
                Some(b),
                reply,
            )
            &&& #[trigger] commit_result(reply, r)
        }
}

/// Run an action on a server, with arguments.
pub fn server_action_with_args<F, G>(
    session: &Session<F, G>,
    id: &str,
    action: &str,
    args: JsonValue,
) -> (r: Result<(), Error>) where
    F: Fn(Request) -> Result<JsonValue, Error>,
    G: Fn() -> Result<ServiceInfo, Error>,

    requires
        session.wf(),
    ensures
        server_action_post(session.spec_send(), id@, action@, args, r),
{
    let body = action_body(action, args);
    let ghost gbody = body;
    let base = compute_request(Method::Post, path3("servers", id, "action"), None);
    let req = Request { body: Some(body), ..base };
    let ghost greq = req;
    let resp = session.request(req);
    let ghost gresp = resp;
    let out = match resp {
        Ok(_) => Ok(()),
        Err(e) => Err(e),
    };
    proof {
        assert(req_path_is(greq, seq!["servers"@, id@, "action"@]));
        assert(req_query_is(greq, Seq::empty()));
        assert(compute_exchange(
            session.spec_send(),
            Method::Post,
            seq!["servers"@, id@, "action"@],
            None,
            Seq::empty(),
            Some(gbody),
            gresp,
        ));
        assert(commit_result(gresp, out));
    }
    out
}

/// Run an argument-less action on a server.
pub fn server_simple_action<F, G>(session: &Session<F, G>, id: &str, action: &str) -> (r: Result<
    (),
    Error,
>) where
    F: Fn(Request) -> Result<JsonValue, Error>,
    G: Fn() -> Result<ServiceInfo, Error>,

    requires
        session.wf(),
    ensures
        server_action_post(session.spec_send(), id@, action@, JsonValue::Null, r),
{
    server_action_with_args(session, id, action, JsonValue::Null)
}

/// What fetching a flavor's extra specs reports.
pub open spec fn extra_specs_post<F: Fn(Request) -> Result<JsonValue, Error>>(
    send: F,
    id: Seq<char>,
    r: Result<Vec<(String, String)>, Error>,
) -> bool {
    exists|reply: Result<JsonValue, Error>|
        {
            &&& compute_exchange(
                send,
                Method::Get,
                seq!["flavors"@, id, "os-extra_specs"@],
                None,
                Seq::empty(),
                None,
                reply,
            )
            &&& #[trigger] map_result("extra_specs"@, reply, r)
        }
}

/// Get a flavor's extra specs by the flavor's identifier.
pub fn get_extra_specs_by_flavor_id<F, G>(session: &Session<F, G>, id: &str) -> (r: Result<
    Vec<(String, String)>,
    Error,
>) where
    F: Fn(Request) -> Result<JsonValue, Error>,
    G: Fn() -> Result<ServiceInfo, Error>,

    requires
        session.wf(),
    ensures
        extra_specs_post(session.spec_send(), id@, r),
{
    let req = compute_request(Method::Get, path3("flavors", id, "os-extra_specs"), None);
    let ghost greq = req;
    let resp = session.request(req);
    let ghost gresp = resp;
    let out = match resp {
        Ok(v) => parse_string_map(&v, "extra_specs"),
        Err(e) => Err(e),
    };
    proof {
        assert(req_path_is(greq, seq!["flavors"@, id@, "os-extra_specs"@]));
        assert(req_query_is(greq, Seq::empty()));
        assert(compute_exchange(
            session.spec_send(),
            Method::Get,
            seq!["flavors"@, id@, "os-extra_specs"@],
            None,
            Seq::empty(),
            None,
            gresp,
        ));
        assert(map_result("extra_specs"@, gresp, out));
    }
    out
}

/// The version a key pair creation asks for: typed key pairs need a
/// service that understands key types; otherwise no version is pinned.
pub open spec fn keypair_create_version(request: KeyPairCreate) -> Option<ApiVersion> {
    if request.key_type is Some {
        Some(version_keypair_type())
    } else {
        None
    }
}

/// What creating a key pair reports: its body was posted, versioned
/// exactly when the request asks for a key type.
pub open spec fn create_keypair_post<F: Fn(Request) -> Result<JsonValue, Error>>(
    send: F,
    request: KeyPairCreate,
    r: Result<KeyPair, Error>,
) -> bool {
    exists|b: JsonValue, reply: Result<JsonValue, Error>|
        {
            &&& #[trigger] is_keypair_create_body(b, request)
            &&& compute_exchange(
                send,
                Method::Post,
                seq!["os-keypairs"@],
                keypair_create_version(request),
                Seq::empty(),
                Some(b),
                reply,
            )
            &&& #[trigger] root_result::<KeyPair>("keypair"@, reply, r)
        }
}

/// Create a key pair.
pub fn create_keypair<F, G>(session: &Session<F, G>, request: KeyPairCreate) -> (r: Result<
    KeyPair,
    Error,
>) where
    F: Fn(Request) -> Result<JsonValue, Error>,
    G: Fn() -> Result<ServiceInfo, Error>,

    requires
        session.wf(),
    ensures
        create_keypair_post(session.spec_send(), request, r),
{
    let version = if request.key_type.is_some() {
        Some(ApiVersion(2, 2))
    } else {
        None
    };
    let body = keypair_create_body(&request);
    let ghost gbody = body;
    let base = compute_request(Method::Post, path1("os-keypairs"), version);
    let req = Request { body: Some(body), ..base };
    let ghost greq = req;
    let resp = session.request(req);
    let ghost gresp = resp;
    let out = match resp {
        Ok(v) => parse_root::<KeyPair>(&v, "keypair"),
        Err(e) => Err(e),
    };
    proof {
        assert(req_path_is(greq, seq!["os-keypairs"@]));
        assert(req_query_is(greq, Seq::empty()));
        assert(compute_exchange(
            session.spec_send(),
            Method::Post,
            seq!["os-keypairs"@],
            keypair_create_version(request),
            Seq::empty(),
            Some(gbody),
            gresp,
        ));
        assert(root_result::<KeyPair>("keypair"@, gresp, out));
    }
    out
}

/// What creating a server reports: its body was posted, and the service
/// answered with a bare reference to the server being built.
pub open spec fn create_server_post<F: Fn(Request) -> Result<JsonValue, Error>>(
    send: F,
    request: ServerCreate,
    r: Result<Ref, Error>,
) -> bool {
    exists|b: JsonValue, reply: Result<JsonValue, Error>|
        {
            &&& #[trigger] is_server_create_body(b, request)
            &&& compute_exchange(
                send,
                Method::Post,
                seq!["servers"@],
                None,
                Seq::empty(),
                Some(b),
                reply,
            )
            &&& #[trigger] root_result::<Ref>("server"@, reply, r)
        }
}

/// Create a server. The reply only references the new server; reaching
/// an active state takes time the caller waits out elsewhere.
pub fn create_server<F, G>(session: &Session<F, G>, request: ServerCreate) -> (r: Result<
    Ref,
    Error,
>) where
    F: Fn(Request) -> Result<JsonValue, Error>,
    G: Fn() -> Result<ServiceInfo, Error>,

    requires
        session.wf(),
    ensures
        create_server_post(session.spec_send(), request, r),
{
    let body = server_create_body(&request);
    let ghost gbody = body;
    let base = compute_request(Method::Post, path1("servers"), None);
    let req = Request { body: Some(body), ..base };
    let ghost greq = req;
    let resp = session.request(req);
    let ghost gresp = resp;
    let out = match resp {
        Ok(v) => parse_root::<Ref>(&v, "server"),
        Err(e) => Err(e),
    };
    proof {
        assert(req_path_is(greq, seq!["servers"@]));
        assert(req_query_is(greq, Seq::empty()));
        assert(compute_exchange(
            session.spec_send(),
            Method::Post,
            seq!["servers"@],
            None,
            Seq::empty(),
            Some(gbody),
            gresp,
        ));
        assert(root_result::<Ref>("server"@, gresp, out));
    }
    out
}

/// The versions a key pair read can improve with.
pub open spec fn spec_keypair_versions() -> Seq<ApiVersion> {
    seq![version_keypair_type()]
}

/// The versions a server read can improve with.
pub open spec fn spec_server_versions() -> Seq<ApiVersion> {
    seq![version_server_description()]
}

/// What reading one resource under a negotiated version reports: one
/// discovery step resolved the service's range, and on its success a
/// versioned read of `path` was issued whose reply decodes under `key`.
pub open spec fn versioned_get_post<T: FromJson, F, G>(
    pre: Session<F, G>,
    post: Session<F, G>,
    path: Seq<Seq<char>>,
    versions: Seq<ApiVersion>,
    key: Seq<char>,
    r: Result<T, Error>,
) -> bool where
    F: Fn(Request) -> Result<JsonValue, Error>,
    G: Fn() -> Result<ServiceInfo, Error>,
 {
    exists|ir: Result<ServiceInfo, Error>|
        {
            &&& #[trigger] Session::discovery_step(pre, post, ir)
            &&& match ir {
                Err(e) => r == Err::<T, Error>(e),
                Ok(info) => exists|reply: Result<JsonValue, Error>|
                    {
                        &&& compute_exchange(
                            pre.spec_send(),
                            Method::Get,
                            path,
                            max_supported(info, versions),
                            Seq::empty(),
                            None,
                            reply,
                        )
                        &&& #[trigger] root_result::<T>(key, reply, r)
                    },
            }
        }
}

/// What [`get_keypair`] reports.
pub open spec fn keypair_get_post<F, G>(
    pre: Session<F, G>,
    post: Session<F, G>,
    name: Seq<char>,
    r: Result<KeyPair, Error>,
) -> bool where
    F: Fn(Request) -> Result<JsonValue, Error>,
    G: Fn() -> Result<ServiceInfo, Error>,
 {
    versioned_get_post::<KeyPair, F, G>(
        pre,
        post,
        seq!["os-keypairs"@, name],
        spec_keypair_versions(),
        "keypair"@,
        r,
    )
}

/// What [`get_flavor_by_id`] reports.
pub open spec fn flavor_by_id_post<F, G>(
    pre: Session<F, G>,
    post: Session<F, G>,
    id: Seq<char>,
    r: Result<Flavor, Error>,
) -> bool where
    F: Fn(Request) -> Result<JsonValue, Error>,
    G: Fn() -> Result<ServiceInfo, Error>,
 {
    versioned_get_post::<Flavor, F, G>(
        pre,
        post,
        seq!["flavors"@, id],
        spec_flavor_versions(),
        "flavor"@,
        r,
    )
}

/// What [`get_server_by_id`] reports.
pub open spec fn server_by_id_post<F, G>(
    pre: Session<F, G>,
    post: Session<F, G>,
    id: Seq<char>,
    r: Result<Server, Error>,
) -> bool where
    F: Fn(Request) -> Result<JsonValue, Error>,
    G: Fn() -> Result<ServiceInfo, Error>,
 {
    versioned_get_post::<Server, F, G>(
        pre,
        post,
        seq!["servers"@, id],
        spec_server_versions(),
        "server"@,
        r,
    )
}

/// Get a key pair by its name.
pub fn get_keypair<F, G>(session: &mut Session<F, G>, name: &str) -> (r: Result<KeyPair, Error>) where
    F: Fn(Request) -> Result<JsonValue, Error>,
    G: Fn() -> Result<ServiceInfo, Error>,

    requires
        old(session).wf(),
    ensures
        final (session).wf(),
        keypair_get_post(*old(session), *final (session), name@, r),
{
    let ghost pre = *session;
    let info = match session.get_service_info() {
        Ok(i) => i,
        Err(e) => {
            return Err(e);
        },
    };
    let versions: [ApiVersion; 1] = [ApiVersion(2, 2)];
    proof {
        assert(versions@ =~= spec_keypair_versions());
    }
    let ver = pick_max_supported(&info, &versions);
    let req = compute_request(Method::Get, path2("os-keypairs", name), ver);
    let ghost greq = req;
    let resp = session.request(req);
    let ghost gresp = resp;
    let out = match resp {
        Ok(v) => parse_root::<KeyPair>(&v, "keypair"),
        Err(e) => Err(e),
    };
    proof {
        assert(req_path_is(greq, seq!["os-keypairs"@, name@]));
        assert(req_query_is(greq, Seq::empty()));
        assert(compute_exchange(
            pre.spec_send(),
            Method::Get,
            seq!["os-keypairs"@, name@],
            max_supported(info, spec_keypair_versions()),
            Seq::empty(),
            None,
            gresp,
        ));
        assert(root_result::<KeyPair>("keypair"@, gresp, out));
        assert(Session::discovery_step(pre, *session, Ok::<ServiceInfo, Error>(info)));
    }
    out
}

/// Get a flavor by its identifier.
pub fn get_flavor_by_id<F, G>(session: &mut Session<F, G>, id: &str) -> (r: Result<Flavor, Error>) where
    F: Fn(Request) -> Result<JsonValue, Error>,
    G: Fn() -> Result<ServiceInfo, Error>,

    requires
        old(session).wf(),
    ensures
        final (session).wf(),
        flavor_by_id_post(*old(session), *final (session), id@, r),
{
    let ghost pre = *session;
    let info = match session.get_service_info() {
        Ok(i) => i,
        Err(e) => {
            return Err(e);
        },
    };
    let versions: [ApiVersion; 2] = [ApiVersion(2, 55), ApiVersion(2, 61)];
    proof {
        assert(versions@ =~= spec_flavor_versions());
    }
    let ver = pick_max_supported(&info, &versions);
    let req = compute_request(Method::Get, path2("flavors", id), ver);
    let ghost greq = req;
    let resp = session.request(req);
    let ghost gresp = resp;
    let out = match resp {
        Ok(v) => parse_root::<Flavor>(&v, "flavor"),
        Err(e) => Err(e),
    };
    proof {
        assert(req_path_is(greq, seq!["flavors"@, id@]));
        assert(req_query_is(greq, Seq::empty()));
        assert(compute_exchange(
            pre.spec_send(),
            Method::Get,
            seq!["flavors"@, id@],
            max_supported(info, spec_flavor_versions()),
            Seq::empty(),
            None,
            gresp,
        ));
        assert(root_result::<Flavor>("flavor"@, gresp, out));
        assert(Session::discovery_step(pre, *session, Ok::<ServiceInfo, Error>(info)));
    }
    out
}

/// Get a server by its identifier.
pub fn get_server_by_id<F, G>(session: &mut Session<F, G>, id: &str) -> (r: Result<Server, Error>) where
    F: Fn(Request) -> Result<JsonValue, Error>,
    G: Fn() -> Result<ServiceInfo, Error>,

    requires
        old(session).wf(),
    ensures
        final (session).wf(),
        server_by_id_post(*old(session), *final (session), id@, r),
{
    let ghost pre = *session;
    let info = match session.get_service_info() {
        Ok(i) => i,
        Err(e) => {
            return Err(e);
        },
    };
    let versions: [ApiVersion; 1] = [ApiVersion(2, 19)];
    proof {
        assert(versions@ =~= spec_server_versions());
    }
    let ver = pick_max_supported(&info, &versions);
    let req = compute_request(Method::Get, path2("servers", id), ver);
    let ghost greq = req;
    let resp = session.request(req);
    let ghost gresp = resp;
    let out = match resp {
        Ok(v) => parse_root::<Server>(&v, "server"),
        Err(e) => Err(e),
    };
    proof {
        assert(req_path_is(greq, seq!["servers"@, id@]));
        assert(req_query_is(greq, Seq::empty()));
        assert(compute_exchange(
            pre.spec_send(),
            Method::Get,
            seq!["servers"@, id@],
            max_supported(info, spec_server_versions()),
            Seq::empty(),
            None,
            gresp,
        ));
        assert(root_result::<Server>("server"@, gresp, out));
        assert(Session::discovery_step(pre, *session, Ok::<ServiceInfo, Error>(info)));
    }
    out
}

/// The elements of `items` whose name reads `name`, in order.
pub open spec fn matching_names(items: Seq<IdAndName>, name: Seq<char>) -> Seq<IdAndName>
    decreases items.len(),
{
    if items.len() == 0 {
        Seq::<IdAndName>::empty()
    } else {
        let rest = matching_names(items.drop_first(), name);
        if items[0].name@ == name {
            seq![items[0]] + rest
        } else {
            rest
        }
    }
}

/// Keep the summaries whose name reads `name`, in order.
fn filter_by_name(items: Vec<IdAndName>, name: &str) -> (r: Vec<IdAndName>)
    ensures
        r@ == matching_names(items@, name@),
{
    let name_owned = name.to_owned();
    let mut acc: Vec<IdAndName> = Vec::new();
    proof {
        assert(items@.skip(0) =~= items@);
    }
    let mut i: usize = 0;
    while i < items.len()
        invariant
            i <= items.len(),
            name_owned@ == name@,
            matching_names(items@, name@) == acc@ + matching_names(
                items@.skip(i as int),
                name@,
            ),
        decreases items.len() - i,
    {
        proof {
            assert(items@.skip(i as int)[0] == items@[i as int]);
            assert(items@.skip(i as int).drop_first() =~= items@.skip(i + 1 as int));
        }
        if items[i].name == name_owned {
            acc.push(items[i].clone());
            proof {
                assert(acc@ + matching_names(items@.skip(i + 1 as int), name@) =~= acc@.drop_last()
                    + (seq![items@[i as int]] + matching_names(items@.skip(i + 1 as int), name@)));
            }
        }
        i = i + 1;
    }
    proof {
        assert(matching_names(items@.skip(items@.len() as int), name@) =~= Seq::<
            IdAndName,
        >::empty());
        assert(acc@ + Seq::<IdAndName>::empty() =~= acc@);
    }
    acc
}

/// How a flavor name resolves against the listed summaries: no match is
/// not found, several are ambiguous, and exactly one leads to a read of
/// that flavor by its identifier.
pub open spec fn flavor_name_resolution<F, G>(
    pre: Session<F, G>,
    post: Session<F, G>,
    name: Seq<char>,
    items: Seq<IdAndName>,
    r: Result<Flavor, Error>,
) -> bool where
    F: Fn(Request) -> Result<JsonValue, Error>,
    G: Fn() -> Result<ServiceInfo, Error>,
 {
    let matched = matching_names(items, name);
    if matched.len() == 0 {
        &&& r matches Err(e) && e matches Error::NotFound(m) && m@
            == "Flavor with given name or ID not found"@
        &&& post == pre
    } else if matched.len() > 1 {
        &&& r matches Err(e) && e matches Error::AmbiguousResult(m) && m@
            == "Too many flavors found with given name"@
        &&& post == pre
    } else {
        flavor_by_id_post(pre, post, matched[0].id@, r)
    }
}

/// What one reply to the flavor listing makes [`get_flavor_by_name`]
/// report.
pub open spec fn flavor_by_name_interp<F, G>(
    pre: Session<F, G>,
    post: Session<F, G>,
    name: Seq<char>,
    reply: Result<JsonValue, Error>,
    r: Result<Flavor, Error>,
) -> bool where
    F: Fn(Request) -> Result<JsonValue, Error>,
    G: Fn() -> Result<ServiceInfo, Error>,
 {
    match reply {
        Err(e) => r == Err::<Flavor, Error>(e) && post == pre,
        Ok(v) => match spec_list_field::<IdAndName>(v, "flavors"@, None) {
            None => (r matches Err(e) && e is Transport) && post == pre,
            Some(items) => flavor_name_resolution(pre, post, name, items, r),
        },
    }
}

/// What [`get_flavor_by_name`] reports.
pub open spec fn flavor_by_name_post<F, G>(
    pre: Session<F, G>,
    post: Session<F, G>,
    name: Seq<char>,
    r: Result<Flavor, Error>,
) -> bool where
    F: Fn(Request) -> Result<JsonValue, Error>,
    G: Fn() -> Result<ServiceInfo, Error>,
 {
    exists|reply: Result<JsonValue, Error>|
        {
            &&& compute_exchange(
                pre.spec_send(),
                Method::Get,
                seq!["flavors"@],
                None,
                Seq::empty(),
                None,
                reply,
            )
            &&& #[trigger] flavor_by_name_interp(pre, post, name, reply, r)
        }
}

/// Get a flavor by its name: list the flavors, demand exactly one whose
/// name matches, then read it in detail by its identifier.
pub fn get_flavor_by_name<F, G>(session: &mut Session<F, G>, name: &str) -> (r: Result<
    Flavor,
    Error,
>) where
    F: Fn(Request) -> Result<JsonValue, Error>,
    G: Fn() -> Result<ServiceInfo, Error>,

    requires
        old(session).wf(),
    ensures
        final (session).wf(),
        flavor_by_name_post(*old(session), *final (session), name@, r),
{
    let ghost pre = *session;
    let req = compute_request(Method::Get, path1("flavors"), None);
    let ghost greq = req;
    let resp = session.request(req);
    let ghost gresp = resp;
    proof {
        assert(req_path_is(greq, seq!["flavors"@]));
        assert(req_query_is(greq, Seq::empty()));
        assert(compute_exchange(
            pre.spec_send(),
            Method::Get,
            seq!["flavors"@],
            None,
            Seq::empty(),
            None,
            gresp,
        ));
    }
    let v = match resp {
        Ok(v) => v,
        Err(e) => {
            proof {
                assert(flavor_by_name_interp(pre, *session, name@, gresp, Err::<Flavor, Error>(e)));
            }
            return Err(e);
        },
    };
    let items = match parse_list::<IdAndName>(&v, "flavors", None) {
        Ok(items) => items,
        Err(e) => {
            proof {
                assert(flavor_by_name_interp(pre, *session, name@, gresp, Err::<Flavor, Error>(e)));
            }
            return Err(e);
        },
    };
    let ghost gitems = items;
    let matched = filter_by_name(items, name);
    let ghost gmatched = matched;
    let single = match exactly_one(
        matched,
        "Flavor with given name or ID not found",
        "Too many flavors found with given name",
    ) {
        Ok(x) => x,
        Err(e) => {
            proof {
                assert(flavor_name_resolution(pre, *session, name@, gitems@, Err::<Flavor, Error>(
                    e,
                )));
                assert(flavor_by_name_interp(pre, *session, name@, gresp, Err::<Flavor, Error>(e)));
            }
            return Err(e);
        },
    };
    let out = get_flavor_by_id(session, single.id.as_str());
    proof {
        assert(flavor_name_resolution(pre, *session, name@, gitems@, out));
        assert(flavor_by_name_interp(pre, *session, name@, gresp, out));
    }
    out
}

/// What [`get_flavor`] reports: a read by identifier, and on its
/// not-found failure one fallback read by name.
pub open spec fn flavor_get_post<F, G>(
    pre: Session<F, G>,
    post: Session<F, G>,
    id_or_name: Seq<char>,
    r: Result<Flavor, Error>,
) -> bool where
    F: Fn(Request) -> Result<JsonValue, Error>,
    G: Fn() -> Result<ServiceInfo, Error>,
 {
    exists|mid: Session<F, G>, r1: Result<Flavor, Error>|
        {
            &&& #[trigger] flavor_by_id_post(pre, mid, id_or_name, r1)
            &&& match r1 {
                Ok(fl) => r == Ok::<Flavor, Error>(fl) && post == mid,
                Err(e) => if e is NotFound {
                    flavor_by_name_post(mid, post, id_or_name, r)
                } else {
                    r == Err::<Flavor, Error>(e) && post == mid
                },
            }
        }
}

/// Get a flavor by its identifier or name: try the identifier first, and
/// fall back to the name exactly when the identifier is not found.
pub fn get_flavor<F, G>(session: &mut Session<F, G>, id_or_name: &str) -> (r: Result<
    Flavor,
    Error,
>) where
    F: Fn(Request) -> Result<JsonValue, Error>,
    G: Fn() -> Result<ServiceInfo, Error>,

    requires
        old(session).wf(),
    ensures
        final (session).wf(),
        flavor_get_post(*old(session), *final (session), id_or_name@, r),
{
    let r1 = get_flavor_by_id(session, id_or_name);
    match r1 {
        Ok(fl) => Ok(fl),
        Err(e) => {
            if e.is_not_found() {
                get_flavor_by_name(session, id_or_name)
            } else {
                Err(e)
            }
        },
    }
}

/// Build a one-pair query.
fn query1(k: &str, v: &str) -> (r: Vec<(String, String)>)
    ensures
        r@.len() == 1,
        r@[0].0@ == k@,
        r@[0].1@ == v@,
{
    let mut q: Vec<(String, String)> = Vec::new();
    q.push((k.to_owned(), v.to_owned()));
    q
}

/// How a server name resolves against the listed summaries: no match is
/// not found, several are ambiguous, and exactly one leads to a read of
/// that server by its identifier.
pub open spec fn server_name_resolution<F, G>(
    pre: Session<F, G>,
    post: Session<F, G>,
    name: Seq<char>,
    items: Seq<IdAndName>,
    r: Result<Server, Error>,
) -> bool where
    F: Fn(Request) -> Result<JsonValue, Error>,
    G: Fn() -> Result<ServiceInfo, Error>,
 {
    let matched = matching_names(items, name);
    if matched.len() == 0 {
        &&& r matches Err(e) && e matches Error::NotFound(m) && m@
            == "Server with given name or ID not found"@
        &&& post == pre
    } else if matched.len() > 1 {
        &&& r matches Err(e) && e matches Error::AmbiguousResult(m) && m@
            == "Too many servers found with given name"@
        &&& post == pre
    } else {
        server_by_id_post(pre, post, matched[0].id@, r)
    }
}

/// What one reply to the name-filtered server listing makes
/// [`get_server_by_name`] report.
pub open spec fn server_by_name_interp<F, G>(
    pre: Session<F, G>,
    post: Session<F, G>,
    name: Seq<char>,
    reply: Result<JsonValue, Error>,
    r: Result<Server, Error>,
) -> bool where
    F: Fn(Request) -> Result<JsonValue, Error>,
    G: Fn() -> Result<ServiceInfo, Error>,
 {
    match reply {
        Err(e) => r == Err::<Server, Error>(e) && post == pre,
        Ok(v) => match spec_list_field::<IdAndName>(v, "servers"@, None) {
            None => (r matches Err(e) && e is Transport) && post == pre,
            Some(items) => server_name_resolution(pre, post, name, items, r),
        },
    }
}

/// What [`get_server_by_name`] reports. The listing itself is already
/// filtered by name on the service side; the client-side match keeps
/// only exact name equality.
pub open spec fn server_by_name_post<F, G>(
    pre: Session<F, G>,
    post: Session<F, G>,
    name: Seq<char>,
    r: Result<Server, Error>,
) -> bool where
    F: Fn(Request) -> Result<JsonValue, Error>,
    G: Fn() -> Result<ServiceInfo, Error>,
 {
    exists|reply: Result<JsonValue, Error>|
        {
            &&& compute_exchange(
                pre.spec_send(),
                Method::Get,
                seq!["servers"@],
                None,
                seq![("name"@, name)],
                None,
                reply,
            )
            &&& #[trigger] server_by_name_interp(pre, post, name, reply, r)
        }
}

/// Get a server by its name: list servers under a name filter, demand
/// exactly one whose name matches, then read it by its identifier.
pub fn get_server_by_name<F, G>(session: &mut Session<F, G>, name: &str) -> (r: Result<
    Server,
    Error,
>) where
    F: Fn(Request) -> Result<JsonValue, Error>,
    G: Fn() -> Result<ServiceInfo, Error>,

    requires
        old(session).wf(),
    ensures
        final (session).wf(),
        server_by_name_post(*old(session), *final (session), name@, r),
{
    let ghost pre = *session;
    let base = compute_request(Method::Get, path1("servers"), None);
    let req = Request { query: query1("name", name), ..base };
    let ghost greq = req;
    let resp = session.request(req);
    let ghost gresp = resp;
    proof {
        assert(req_path_is(greq, seq!["servers"@]));
        assert(req_query_is(greq, seq![("name"@, name@)]));
        assert(compute_exchange(
            pre.spec_send(),
            Method::Get,
            seq!["servers"@],
            None,
            seq![("name"@, name@)],
            None,
            gresp,
        ));
    }
    let v = match resp {
        Ok(v) => v,
        Err(e) => {
            proof {
                assert(server_by_name_interp(pre, *session, name@, gresp, Err::<Server, Error>(e)));
            }
            return Err(e);
        },
    };
    let items = match parse_list::<IdAndName>(&v, "servers", None) {
        Ok(items) => items,
        Err(e) => {
            proof {
                assert(server_by_name_interp(pre, *session, name@, gresp, Err::<Server, Error>(e)));
            }
            return Err(e);
        },
    };
    let ghost gitems = items;
    let matched = filter_by_name(items, name);
    let single = match exactly_one(
        matched,
        "Server with given name or ID not found",
        "Too many servers found with given name",
    ) {
        Ok(x) => x,
        Err(e) => {
            proof {
                assert(server_name_resolution(pre, *session, name@, gitems@, Err::<Server, Error>(
                    e,
                )));
                assert(server_by_name_interp(pre, *session, name@, gresp, Err::<Server, Error>(e)));
            }
            return Err(e);
        },
    };
    let out = get_server_by_id(session, single.id.as_str());
    proof {
        assert(server_name_resolution(pre, *session, name@, gitems@, out));
        assert(server_by_name_interp(pre, *session, name@, gresp, out));
    }
    out
}

/// What [`get_server`] reports: a read by identifier, and on its
/// not-found failure one fallback read by name.
pub open spec fn server_get_post<F, G>(
    pre: Session<F, G>,
    post: Session<F, G>,
    id_or_name: Seq<char>,
    r: Result<Server, Error>,
) -> bool where
    F: Fn(Request) -> Result<JsonValue, Error>,
    G: Fn() -> Result<ServiceInfo, Error>,
 {
    exists|mid: Session<F, G>, r1: Result<Server, Error>|
        {
            &&& #[trigger] server_by_id_post(pre, mid, id_or_name, r1)
            &&& match r1 {
                Ok(s) => r == Ok::<Server, Error>(s) && post == mid,
                Err(e) => if e is NotFound {
                    server_by_name_post(mid, post, id_or_name, r)
                } else {
                    r == Err::<Server, Error>(e) && post == mid
                },
            }
        }
}

/// Get a server by its identifier or name: try the identifier first, and
/// fall back to the name exactly when the identifier is not found.
pub fn get_server<F, G>(session: &mut Session<F, G>, id_or_name: &str) -> (r: Result<
    Server,
    Error,
>) where
    F: Fn(Request) -> Result<JsonValue, Error>,
    G: Fn() -> Result<ServiceInfo, Error>,

    requires
        old(session).wf(),
    ensures
        final (session).wf(),
        server_get_post(*old(session), *final (session), id_or_name@, r),
{
    let r1 = get_server_by_id(session, id_or_name);
    match r1 {
        Ok(s) => Ok(s),
        Err(e) => {
            if e.is_not_found() {
                get_server_by_name(session, id_or_name)
            } else {
                Err(e)
            }
        },
    }
}

/// The views of owned query pairs.
pub open spec fn query_views(q: Seq<(String, String)>) -> Seq<(Seq<char>, Seq<char>)> {
    Seq::new(q.len(), |i: int| (q[i].0@, q[i].1@))
}

/// What an unversioned listing reports: one read of `path` under
/// `query`, its reply decoded as the list under `key`.
pub open spec fn listing_post<T: FromJson, F: Fn(Request) -> Result<JsonValue, Error>>(
    send: F,
    path: Seq<Seq<char>>,
    query: Seq<(Seq<char>, Seq<char>)>,
    key: Seq<char>,
    item_key: Option<Seq<char>>,
    r: Result<Vec<T>, Error>,
) -> bool {
    exists|reply: Result<JsonValue, Error>|
        {
            &&& compute_exchange(send, Method::Get, path, None, query, None, reply)
            &&& #[trigger] list_result::<T>(key, item_key, reply, r)
        }
}

/// What a version-negotiated listing reports: one discovery step
/// resolved the range, and on its success a read of `path` was issued
/// under the best supported of `versions`.
pub open spec fn versioned_list_post<T: FromJson, F, G>(
    pre: Session<F, G>,
    post: Session<F, G>,
    path: Seq<Seq<char>>,
    versions: Seq<ApiVersion>,
    query: Seq<(Seq<char>, Seq<char>)>,
    key: Seq<char>,
    item_key: Option<Seq<char>>,
    r: Result<Vec<T>, Error>,
) -> bool where
    F: Fn(Request) -> Result<JsonValue, Error>,
    G: Fn() -> Result<ServiceInfo, Error>,
 {
    exists|ir: Result<ServiceInfo, Error>|
        {
            &&& #[trigger] Session::discovery_step(pre, post, ir)
            &&& match ir {
                Err(e) => r matches Err(e2) && e2 == e,
                Ok(info) => exists|reply: Result<JsonValue, Error>|
                    {
                        &&& compute_exchange(
                            pre.spec_send(),
                            Method::Get,
                            path,
                            max_supported(info, versions),
                            query,
                            None,
                            reply,
                        )
                        &&& #[trigger] list_result::<T>(key, item_key, reply, r)
                    },
            }
        }
}

/// List flavors as identifier-and-name summaries.
pub fn list_flavors<F, G>(session: &Session<F, G>, query: Vec<(String, String)>) -> (r: Result<
    Vec<IdAndName>,
    Error,
>) where
    F: Fn(Request) -> Result<JsonValue, Error>,
    G: Fn() -> Result<ServiceInfo, Error>,

    requires
        session.wf(),
    ensures
        listing_post::<IdAndName, F>(
            session.spec_send(),
            seq!["flavors"@],
            query_views(query@),
            "flavors"@,
            None,
            r,
        ),
{
    let ghost gquery = query;
    let base = compute_request(Method::Get, path1("flavors"), None);
    let req = Request { query, ..base };
    let ghost greq = req;
    let resp = session.request(req);
    let ghost gresp = resp;
    let out = match resp {
        Ok(v) => parse_list::<IdAndName>(&v, "flavors", None),
        Err(e) => Err(e),
    };
    proof {
        assert(req_path_is(greq, seq!["flavors"@]));
        assert(req_query_is(greq, query_views(gquery@)));
        assert(compute_exchange(
            session.spec_send(),
            Method::Get,
            seq!["flavors"@],
            None,
            query_views(gquery@),
            None,
            gresp,
        ));
        assert(list_result::<IdAndName>("flavors"@, None, gresp, out));
    }
    out
}

/// List servers as identifier-and-name summaries.
pub fn list_servers<F, G>(session: &Session<F, G>, query: Vec<(String, String)>) -> (r: Result<
    Vec<IdAndName>,
    Error,
>) where
    F: Fn(Request) -> Result<JsonValue, Error>,
    G: Fn() -> Result<ServiceInfo, Error>,

    requires
        session.wf(),
    ensures
        listing_post::<IdAndName, F>(
            session.spec_send(),
            seq!["servers"@],
            query_views(query@),
            "servers"@,
            None,
            r,
        ),
{
    let ghost gquery = query;
    let base = compute_request(Method::Get, path1("servers"), None);
    let req = Request { query, ..base };
    let ghost greq = req;
    let resp = session.request(req);
    let ghost gresp = resp;
    let out = match resp {
        Ok(v) => parse_list::<IdAndName>(&v, "servers", None),
        Err(e) => Err(e),
    };
    proof {
        assert(req_path_is(greq, seq!["servers"@]));
        assert(req_query_is(greq, query_views(gquery@)));
        assert(compute_exchange(
            session.spec_send(),
            Method::Get,
            seq!["servers"@],
            None,
            query_views(gquery@),
            None,
            gresp,
        ));
        assert(list_result::<IdAndName>("servers"@, None, gresp, out));
    }
    out
}

/// The versions a detailed flavor listing can improve with.
pub open spec fn spec_flavor_detail_versions() -> Seq<ApiVersion> {
    seq![version_flavor_extra_specs()]
}

/// List flavors in detail, under the best supported flavor-reporting
/// version.
pub fn list_flavors_detail<F, G>(
    session: &mut Session<F, G>,
    query: Vec<(String, String)>,
) -> (r: Result<Vec<Flavor>, Error>) where
    F: Fn(Request) -> Result<JsonValue, Error>,
    G: Fn() -> Result<ServiceInfo, Error>,

    requires
        old(session).wf(),
    ensures
        final (session).wf(),
        versioned_list_post::<Flavor, F, G>(
            *old(session),
            *final (session),
            seq!["flavors"@, "detail"@],
            spec_flavor_detail_versions(),
            query_views(query@),
            "flavors"@,
            None,
            r,
        ),
{
    let ghost pre = *session;
    let ghost gquery = query;
    let info = match session.get_service_info() {
        Ok(i) => i,
        Err(e) => {
            return Err(e);
        },
    };
    let versions: [ApiVersion; 1] = [ApiVersion(2, 61)];
    proof {
        assert(versions@ =~= spec_flavor_detail_versions());
    }
    let ver = pick_max_supported(&info, &versions);
    let base = compute_request(Method::Get, path2("flavors", "detail"), ver);
    let req = Request { query, ..base };
    let ghost greq = req;
    let resp = session.request(req);
    let ghost gresp = resp;
    let out = match resp {
        Ok(v) => parse_list::<Flavor>(&v, "flavors", None),
        Err(e) => Err(e),
    };
    proof {
        assert(req_path_is(greq, seq!["flavors"@, "detail"@]));
        assert(req_query_is(greq, query_views(gquery@)));
        assert(compute_exchange(
            pre.spec_send(),
            Method::Get,
            seq!["flavors"@, "detail"@],
            max_supported(info, spec_flavor_detail_versions()),
            query_views(gquery@),
            None,
            gresp,
        ));
        assert(list_result::<Flavor>("flavors"@, None, gresp, out));
        assert(Session::discovery_step(pre, *session, Ok::<ServiceInfo, Error>(info)));
    }
    out
}

/// List servers in detail, under the best supported server-reporting
/// version.
pub fn list_servers_detail<F, G>(
    session: &mut Session<F, G>,
    query: Vec<(String, String)>,
) -> (r: Result<Vec<Server>, Error>) where
    F: Fn(Request) -> Result<JsonValue, Error>,
    G: Fn() -> Result<ServiceInfo, Error>,

    requires
        old(session).wf(),
    ensures
        final (session).wf(),
        versioned_list_post::<Server, F, G>(
            *old(session),
            *final (session),
            seq!["servers"@, "detail"@],
            spec_server_versions(),
            query_views(query@),
            "servers"@,
            None,
            r,
        ),
{
    let ghost pre = *session;
    let ghost gquery = query;
    let info = match session.get_service_info() {
        Ok(i) => i,
        Err(e) => {
            return Err(e);
        },
    };
    let versions: [ApiVersion; 1] = [ApiVersion(2, 19)];
    proof {
        assert(versions@ =~= spec_server_versions());
    }
    let ver = pick_max_supported(&info, &versions);
    let base = compute_request(Method::Get, path2("servers", "detail"), ver);
    let req = Request { query, ..base };
    let ghost greq = req;
    let resp = session.request(req);
    let ghost gresp = resp;
    let out = match resp {
        Ok(v) => parse_list::<Server>(&v, "servers", None),
        Err(e) => Err(e),
    };
    proof {
        assert(req_path_is(greq, seq!["servers"@, "detail"@]));
        assert(req_query_is(greq, query_views(gquery@)));
        assert(compute_exchange(
            pre.spec_send(),
            Method::Get,
            seq!["servers"@, "detail"@],
            max_supported(info, spec_server_versions()),
            query_views(gquery@),
            None,
            gresp,
        ));
        assert(list_result::<Server>("servers"@, None, gresp, out));
        assert(Session::discovery_step(pre, *session, Ok::<ServiceInfo, Error>(info)));
    }
    out
}

/// The versions a key pair listing can improve with.
pub open spec fn spec_keypair_list_versions() -> Seq<ApiVersion> {
    seq![version_keypair_type(), version_keypair_pagination()]
}

/// List key pairs, each unwrapped from its individually wrapped list
/// element.
pub fn list_keypairs<F, G>(session: &mut Session<F, G>, query: Vec<(String, String)>) -> (r: Result<
    Vec<KeyPair>,
    Error,
>) where
    F: Fn(Request) -> Result<JsonValue, Error>,
    G: Fn() -> Result<ServiceInfo, Error>,

    requires
        old(session).wf(),
    ensures
        final (session).wf(),
        versioned_list_post::<KeyPair, F, G>(
            *old(session),
            *final (session),
            seq!["os-keypairs"@],
            spec_keypair_list_versions(),
            query_views(query@),
            "keypairs"@,
            Some("keypair"@),
            r,
        ),
{
    let ghost pre = *session;
    let ghost gquery = query;
    let info = match session.get_service_info() {
        Ok(i) => i,
        Err(e) => {
            return Err(e);
        },
    };
    let versions: [ApiVersion; 2] = [ApiVersion(2, 2), ApiVersion(2, 35)];
    proof {
        assert(versions@ =~= spec_keypair_list_versions());
    }
    let ver = pick_max_supported(&info, &versions);
    let base = compute_request(Method::Get, path1("os-keypairs"), ver);
    let req = Request { query, ..base };
    let ghost greq = req;
    let resp = session.request(req);
    let ghost gresp = resp;
    let out = match resp {
        Ok(v) => parse_list::<KeyPair>(&v, "keypairs", Some("keypair")),
        Err(e) => Err(e),
    };
    proof {
        assert(req_path_is(greq, seq!["os-keypairs"@]));
        assert(req_query_is(greq, query_views(gquery@)));
        assert(compute_exchange(
            pre.spec_send(),
            Method::Get,
            seq!["os-keypairs"@],
            max_supported(info, spec_keypair_list_versions()),
            query_views(gquery@),
            None,
            gresp,
        ));
        assert(list_result::<KeyPair>("keypairs"@, Some("keypair"@), gresp, out));
        assert(Session::discovery_step(pre, *session, Ok::<ServiceInfo, Error>(info)));
    }
    out
}

} // verus!
