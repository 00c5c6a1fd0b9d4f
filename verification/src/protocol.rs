//! Wire-level shapes: requests the core builds and the typed values it
//! decodes out of response bodies.

use vstd::prelude::*;

use crate::json::{spec_lookup, JsonValue};
use crate::version::ApiVersion;
use crate::Error;

verus! {

/// HTTP methods the core issues.
#[derive(Clone, Copy, Debug, PartialEq, Eq, Structural)]
pub enum Method {
    Get,
    Post,
    Delete,
}

/// One request to an authenticated service endpoint, expressed in plain
/// values. The transport capability turns it into a concrete HTTP call
/// under the service's root endpoint.
#[derive(Debug)]
pub struct Request {
    pub method: Method,
    /// Path segments under the service root.
    pub path: Vec<String>,
    /// Name of the vendor header carrying the negotiated version, when
    /// one was picked.
    pub api_version_header: Option<String>,
    /// The negotiated version to format as `"<major>.<minor>"` into the
    /// header.
    pub api_version: Option<ApiVersion>,
    /// Query parameters, in order.
    pub query: Vec<(String, String)>,
    /// JSON body, for methods that send one.
    pub body: Option<JsonValue>,
}

impl Request {
    /// A request with the given method and path, no version header, no
    /// query, and no body.
    pub fn new(method: Method, path: Vec<String>) -> (r: Request)
        ensures
            r.method == method,
            r.path == path,
            r.api_version_header is None,
            r.api_version is None,
            r.query@ == Seq::<(String, String)>::empty(),
            r.body is None,
    {
        Request {
            method,
            path,
            api_version_header: None,
            api_version: None,
            query: Vec::new(),
            body: None,
        }
    }
}

/// The path of `req`, segment by segment, equals `path`.
pub open spec fn req_path_is(req: Request, path: Seq<Seq<char>>) -> bool {
    &&& req.path@.len() == path.len()
    &&& forall|i: int| 0 <= i < path.len() ==> #[trigger] req.path@[i]@ == path[i]
}

/// The version marking of `req`: either none at all, or exactly
/// `version` under the header named `header`.
pub open spec fn req_version_is(req: Request, header: Seq<char>, version: Option<
    ApiVersion,
>) -> bool {
    match version {
        None => req.api_version_header is None && req.api_version is None,
        Some(v) => {
            &&& req.api_version_header matches Some(h) && h@ == header
            &&& req.api_version == Some(v)
        },
    }
}

/// The query of `req`, pair by pair, equals `query`.
pub open spec fn req_query_is(req: Request, query: Seq<(Seq<char>, Seq<char>)>) -> bool {
    &&& req.query@.len() == query.len()
    &&& forall|i: int|
        0 <= i < query.len() ==> (#[trigger] req.query@[i]).0@ == query[i].0 && req.query@[i].1@
            == query[i].1
}

/// A bare reference to a created resource.
#[derive(Debug)]
pub struct Ref {
    pub id: String,
}

/// The identifier-and-name summary a plain listing returns.
#[derive(Debug)]
pub struct IdAndName {
    pub id: String,
    pub name: String,
}

impl Clone for IdAndName {
    fn clone(&self) -> (res: Self)
        ensures
            res == *self,
    {
        IdAndName { id: self.id.clone(), name: self.name.clone() }
    }
}

/// A key pair as the service reports it.
#[derive(Debug)]
pub struct KeyPair {
    pub name: String,
    pub fingerprint: String,
    pub public_key: String,
    /// Key type, reported by services new enough to distinguish them.
    pub key_type: Option<String>,
}

/// A request to create a key pair.
#[derive(Debug)]
pub struct KeyPairCreate {
    pub name: String,
    /// Public key to import; absent to have the service generate one.
    pub public_key: Option<String>,
    /// Key type; asking for one requires a version-aware service.
    pub key_type: Option<String>,
}

/// A flavor in detail.
#[derive(Debug)]
pub struct Flavor {
    pub id: String,
    pub name: String,
    pub vcpus: i64,
    pub ram: i64,
    pub disk: i64,
    pub description: Option<String>,
}

/// A server in detail.
#[derive(Debug)]
pub struct Server {
    pub id: String,
    pub name: String,
    pub status: Option<String>,
    pub description: Option<String>,
}

/// A request to create a server.
#[derive(Debug)]
pub struct ServerCreate {
    pub name: String,
    pub flavor_ref: String,
    pub image_ref: String,
    /// Name of a key pair to install, if any.
    pub key_name: Option<String>,
}

/// A value decodable from a JSON body. The spec function is the
/// reference: decoding either returns exactly what it says or reports a
/// malformed body.
pub trait FromJson: Sized {
    /// What `v` decodes to, or `None` when `v` is not a well-formed
    /// rendering of `Self`.
    spec fn spec_from_json(v: JsonValue) -> Option<Self>;

    /// Decode `v`; a malformed body is a transport-level failure.
    fn from_json(v: &JsonValue) -> (r: Result<Self, Error>)
        ensures
            match Self::spec_from_json(*v) {
                Some(x) => r == Ok::<Self, Error>(x),
                None => r matches Err(e) && e is Transport,
            },
    ;
}

/// The string field named `key`, if present with a string value.
pub open spec fn spec_str_field(v: JsonValue, key: Seq<char>) -> Option<String> {
    match v.spec_get(key) {
        Some(JsonValue::Str(s)) => Some(s),
        _ => None,
    }
}

/// The integer field named `key`, if present with an integer value.
pub open spec fn spec_int_field(v: JsonValue, key: Seq<char>) -> Option<i64> {
    match v.spec_get(key) {
        Some(JsonValue::Int(n)) => Some(n),
        _ => None,
    }
}

/// Executable form of [`spec_str_field`], borrowing the field.
pub fn get_str_field<'a>(v: &'a JsonValue, key: &str) -> (r: Option<&'a String>)
    ensures
        match r {
            Some(s) => spec_str_field(*v, key@) == Some(*s),
            None => spec_str_field(*v, key@) is None,
        },
{
    match v.get(key) {
        Some(JsonValue::Str(s)) => Some(s),
        _ => None,
    }
}

/// Executable form of [`spec_int_field`].
pub fn get_int_field(v: &JsonValue, key: &str) -> (r: Option<i64>)
    ensures
        r == spec_int_field(*v, key@),
{
    match v.get(key) {
        Some(JsonValue::Int(n)) => Some(*n),
        _ => None,
    }
}

impl FromJson for IdAndName {
    open spec fn spec_from_json(v: JsonValue) -> Option<IdAndName> {
        match (spec_str_field(v, "id"@), spec_str_field(v, "name"@)) {
            (Some(id), Some(name)) => Some(IdAndName { id, name }),
            _ => None,
        }
    }

    fn from_json(v: &JsonValue) -> (r: Result<IdAndName, Error>) {
        let id = match get_str_field(v, "id") {
            Some(s) => s.clone(),
            None => {
                return Err(Error::Transport("malformed resource summary".to_owned()));
            },
        };
        let name = match get_str_field(v, "name") {
            Some(s) => s.clone(),
            None => {
                return Err(Error::Transport("malformed resource summary".to_owned()));
            },
        };
        Ok(IdAndName { id, name })
    }
}

impl FromJson for KeyPair {
    open spec fn spec_from_json(v: JsonValue) -> Option<KeyPair> {
        match (
            spec_str_field(v, "name"@),
            spec_str_field(v, "fingerprint"@),
            spec_str_field(v, "public_key"@),
        ) {
            (Some(name), Some(fingerprint), Some(public_key)) => Some(
                KeyPair { name, fingerprint, public_key, key_type: spec_str_field(v, "type"@) },
            ),
            _ => None,
        }
    }

    fn from_json(v: &JsonValue) -> (r: Result<KeyPair, Error>) {
        let name = match get_str_field(v, "name") {
            Some(s) => s.clone(),
            None => {
                return Err(Error::Transport("malformed key pair".to_owned()));
            },
        };
        let fingerprint = match get_str_field(v, "fingerprint") {
            Some(s) => s.clone(),
            None => {
                return Err(Error::Transport("malformed key pair".to_owned()));
            },
        };
        let public_key = match get_str_field(v, "public_key") {
            Some(s) => s.clone(),
            None => {
                return Err(Error::Transport("malformed key pair".to_owned()));
            },
        };
        let key_type = match get_str_field(v, "type") {
            Some(s) => Some(s.clone()),
            None => None,
        };
        Ok(KeyPair { name, fingerprint, public_key, key_type })
    }
}

impl FromJson for Ref {
    open spec fn spec_from_json(v: JsonValue) -> Option<Ref> {
        match spec_str_field(v, "id"@) {
            Some(id) => Some(Ref { id }),
            None => None,
        }
    }

    fn from_json(v: &JsonValue) -> (r: Result<Ref, Error>) {
        match get_str_field(v, "id") {
            Some(s) => Ok(Ref { id: s.clone() }),
            None => Err(Error::Transport("malformed resource reference".to_owned())),
        }
    }
}

impl FromJson for Flavor {
    open spec fn spec_from_json(v: JsonValue) -> Option<Flavor> {
        match (
            spec_str_field(v, "id"@),
            spec_str_field(v, "name"@),
            spec_int_field(v, "vcpus"@),
            spec_int_field(v, "ram"@),
            spec_int_field(v, "disk"@),
        ) {
            (Some(id), Some(name), Some(vcpus), Some(ram), Some(disk)) => Some(
                Flavor { id, name, vcpus, ram, disk, description: spec_str_field(
                    v,
                    "description"@,
                ) },
            ),
            _ => None,
        }
    }

    fn from_json(v: &JsonValue) -> (r: Result<Flavor, Error>) {
        let id = match get_str_field(v, "id") {
            Some(s) => s.clone(),
            None => {
                return Err(Error::Transport("malformed flavor".to_owned()));
            },
        };
        let name = match get_str_field(v, "name") {
            Some(s) => s.clone(),
            None => {
                return Err(Error::Transport("malformed flavor".to_owned()));
            },
        };
        let vcpus = match get_int_field(v, "vcpus") {
            Some(n) => n,
            None => {
                return Err(Error::Transport("malformed flavor".to_owned()));
            },
        };
        let ram = match get_int_field(v, "ram") {
            Some(n) => n,
            None => {
                return Err(Error::Transport("malformed flavor".to_owned()));
            },
        };
        let disk = match get_int_field(v, "disk") {
            Some(n) => n,
            None => {
                return Err(Error::Transport("malformed flavor".to_owned()));
            },
        };
        let description = match get_str_field(v, "description") {
            Some(s) => Some(s.clone()),
            None => None,
        };
        Ok(Flavor { id, name, vcpus, ram, disk, description })
    }
}

impl FromJson for Server {
    open spec fn spec_from_json(v: JsonValue) -> Option<Server> {
        match (spec_str_field(v, "id"@), spec_str_field(v, "name"@)) {
            (Some(id), Some(name)) => Some(
                Server {
                    id,
                    name,
                    status: spec_str_field(v, "status"@),
                    description: spec_str_field(v, "description"@),
                },
            ),
            _ => None,
        }
    }

    fn from_json(v: &JsonValue) -> (r: Result<Server, Error>) {
        let id = match get_str_field(v, "id") {
            Some(s) => s.clone(),
            None => {
                return Err(Error::Transport("malformed server".to_owned()));
            },
        };
        let name = match get_str_field(v, "name") {
            Some(s) => s.clone(),
            None => {
                return Err(Error::Transport("malformed server".to_owned()));
            },
        };
        let status = match get_str_field(v, "status") {
            Some(s) => Some(s.clone()),
            None => None,
        };
        let description = match get_str_field(v, "description") {
            Some(s) => Some(s.clone()),
            None => None,
        };
        Ok(Server { id, name, status, description })
    }
}

/// The value decoded from the field named `key`, when that field is
/// present and well-formed.
pub open spec fn spec_root_field<T: FromJson>(v: JsonValue, key: Seq<char>) -> Option<T> {
    match v.spec_get(key) {
        Some(inner) => T::spec_from_json(inner),
        None => None,
    }
}

/// Decode the single-field root wrapper a response body puts around a
/// resource (`{"keypair": {...}}` and the like).
pub fn parse_root<T: FromJson>(v: &JsonValue, key: &str) -> (r: Result<T, Error>)
    ensures
        match spec_root_field::<T>(*v, key@) {
            Some(x) => r == Ok::<T, Error>(x),
            None => r matches Err(e) && e is Transport,
        },
{
    match v.get(key) {
        Some(inner) => T::from_json(inner),
        None => Err(Error::Transport("missing field in response".to_owned())),
    }
}

/// View of an optional item-wrapper key.
pub open spec fn spec_opt_key(key: Option<&str>) -> Option<Seq<char>> {
    match key {
        None => None,
        Some(k) => Some(k@),
    }
}

/// One list element: the element itself, or, for lists whose elements
/// are individually wrapped, the field under `item_key`.
pub open spec fn spec_item<T: FromJson>(v: JsonValue, item_key: Option<Seq<char>>) -> Option<T> {
    match item_key {
        None => T::spec_from_json(v),
        Some(k) => spec_root_field::<T>(v, k),
    }
}

/// All elements of `s`, in order; `None` as soon as any element is
/// malformed.
pub open spec fn spec_item_seq<T: FromJson>(s: Seq<JsonValue>, item_key: Option<Seq<char>>) -> Option<
    Seq<T>,
>
    decreases s.len(),
{
    if s.len() == 0 {
        Some(Seq::<T>::empty())
    } else {
        match spec_item::<T>(s[0], item_key) {
            None => None,
            Some(x) => match spec_item_seq::<T>(s.drop_first(), item_key) {
                None => None,
                Some(rest) => Some(seq![x] + rest),
            },
        }
    }
}

/// The decoded list under the field named `key`.
pub open spec fn spec_list_field<T: FromJson>(
    v: JsonValue,
    key: Seq<char>,
    item_key: Option<Seq<char>>,
) -> Option<Seq<T>> {
    match v.spec_get(key) {
        Some(JsonValue::Arr(items)) => spec_item_seq::<T>(items@, item_key),
        _ => None,
    }
}

/// Decode a listing body: the array under `key`, each element decoded as
/// a `T`, unwrapped from the field named `item_key` first where the
/// protocol wraps list elements individually.
pub fn parse_list<T: FromJson>(v: &JsonValue, key: &str, item_key: Option<&str>) -> (r: Result<
    Vec<T>,
    Error,
>)
    ensures
        match spec_list_field::<T>(*v, key@, spec_opt_key(item_key)) {
            Some(s) => r matches Ok(items) && items@ == s,
            None => r matches Err(e) && e is Transport,
        },
{
    let items = match v.get(key) {
        Some(JsonValue::Arr(items)) => items,
        _ => {
            return Err(Error::Transport("missing listing in response".to_owned()));
        },
    };
    let ghost ik = spec_opt_key(item_key);
    let mut acc: Vec<T> = Vec::new();
    proof {
        assert(items@.skip(0) =~= items@);
    }
    let mut i: usize = 0;
    while i < items.len()
        invariant
            (*v).spec_get(key@) == Some(JsonValue::Arr(*items)),
            i <= items.len(),
            ik == spec_opt_key(item_key),
            spec_item_seq::<T>(items@, ik) == match spec_item_seq::<T>(
                items@.skip(i as int),
                ik,
            ) {
                None => None::<Seq<T>>,
                Some(rest) => Some(acc@ + rest),
            },
        decreases items.len() - i,
    {
        proof {
            assert(items@.skip(i as int)[0] == items@[i as int]);
            assert(items@.skip(i as int).drop_first() =~= items@.skip(i + 1 as int));
        }
        let parsed: Result<T, Error> = match item_key {
            None => T::from_json(&items[i]),
            Some(k) => parse_root::<T>(&items[i], k),
        };
        match parsed {
            Ok(x) => {
                acc.push(x);
                proof {
                    match spec_item_seq::<T>(items@.skip(i + 1 as int), ik) {
                        Some(rest) => {
                            assert(acc@ + rest =~= acc@.drop_last() + (seq![x] + rest));
                        },
                        None => {},
                    }
                }
            },
            Err(e) => {
                return Err(e);
            },
        }
        i = i + 1;
    }
    proof {
        assert(items@.skip(items@.len() as int) =~= Seq::<JsonValue>::empty());
        assert(acc@ + Seq::<T>::empty() =~= acc@);
    }
    Ok(acc)
}

/// All field values as strings, in field order; `None` as soon as any
/// value is not a string.
pub open spec fn spec_string_pairs(fields: Seq<(String, JsonValue)>) -> Option<
    Seq<(String, String)>,
>
    decreases fields.len(),
{
    if fields.len() == 0 {
        Some(Seq::<(String, String)>::empty())
    } else {
        match fields[0].1 {
            JsonValue::Str(s) => match spec_string_pairs(fields.drop_first()) {
                None => None,
                Some(rest) => Some(seq![(fields[0].0, s)] + rest),
            },
            _ => None,
        }
    }
}

/// The string-to-string map under the field named `key`, as ordered
/// pairs.
pub open spec fn spec_string_map_field(v: JsonValue, key: Seq<char>) -> Option<
    Seq<(String, String)>,
> {
    match v.spec_get(key) {
        Some(JsonValue::Obj(fields)) => spec_string_pairs(fields@),
        _ => None,
    }
}

/// Decode an object of string values (extra specs and the like) from the
/// field named `key`.
pub fn parse_string_map(v: &JsonValue, key: &str) -> (r: Result<Vec<(String, String)>, Error>)
    ensures
        match spec_string_map_field(*v, key@) {
            Some(s) => r matches Ok(pairs) && pairs@ == s,
            None => r matches Err(e) && e is Transport,
        },
{
    let fields = match v.get(key) {
        Some(JsonValue::Obj(fields)) => fields,
        _ => {
            return Err(Error::Transport("missing map in response".to_owned()));
        },
    };
    let mut acc: Vec<(String, String)> = Vec::new();
    proof {
        assert(fields@.skip(0) =~= fields@);
    }
    let mut i: usize = 0;
    while i < fields.len()
        invariant
            (*v).spec_get(key@) == Some(JsonValue::Obj(*fields)),
            i <= fields.len(),
            spec_string_pairs(fields@) == match spec_string_pairs(fields@.skip(i as int)) {
                None => None::<Seq<(String, String)>>,
                Some(rest) => Some(acc@ + rest),
            },
        decreases fields.len() - i,
    {
        proof {
            assert(fields@.skip(i as int)[0] == fields@[i as int]);
            assert(fields@.skip(i as int).drop_first() =~= fields@.skip(i + 1 as int));
        }
        match &fields[i].1 {
            JsonValue::Str(s) => {
                acc.push((fields[i].0.clone(), s.clone()));
                proof {
                    match spec_string_pairs(fields@.skip(i + 1 as int)) {
                        Some(rest) => {
                            assert(acc@ + rest =~= acc@.drop_last() + (seq![
                                (fields@[i as int].0, fields@[i as int].1->Str_0),
                            ] + rest));
                        },
                        None => {},
                    }
                }
            },
            _ => {
                return Err(Error::Transport("malformed map in response".to_owned()));
            },
        }
        i = i + 1;
    }
    proof {
        assert(fields@.skip(fields@.len() as int) =~= Seq::<(String, JsonValue)>::empty());
        assert(acc@ + Seq::<(String, String)>::empty() =~= acc@);
    }
    Ok(acc)
}

/// The payload of a key-pair creation body: the request's fields, under
/// the names the service expects, and nothing else.
pub open spec fn is_keypair_create_inner(inner: JsonValue, request: KeyPairCreate) -> bool {
    &&& spec_str_field(inner, "name"@) == Some(request.name)
    &&& spec_str_field(inner, "public_key"@) == request.public_key
    &&& spec_str_field(inner, "type"@) == request.key_type
}

/// A key-pair creation body: a single `keypair` root field holding the
/// payload.
pub open spec fn is_keypair_create_body(b: JsonValue, request: KeyPairCreate) -> bool {
    &&& b matches JsonValue::Obj(outer) && outer@.len() == 1
    &&& match b.spec_get("keypair"@) {
        Some(inner) => is_keypair_create_inner(inner, request),
        None => false,
    }
}

/// Build the body of a key-pair creation request.
pub fn keypair_create_body(request: &KeyPairCreate) -> (b: JsonValue)
    ensures
        is_keypair_create_body(b, *request),
{
    let mut fields: Vec<(String, JsonValue)> = Vec::new();
    fields.push(("name".to_owned(), JsonValue::Str(request.name.clone())));
    match &request.public_key {
        Some(pk) => {
            fields.push(("public_key".to_owned(), JsonValue::Str(pk.clone())));
        },
        None => {},
    }
    match &request.key_type {
        Some(kt) => {
            fields.push(("type".to_owned(), JsonValue::Str(kt.clone())));
        },
        None => {},
    }
    let inner = JsonValue::Obj(fields);
    proof {
        reveal_with_fuel(spec_lookup, 5);
        reveal_strlit("name");
        reveal_strlit("public_key");
        reveal_strlit("type");
        assert("name"@.len() == 4 && "public_key"@.len() == 10 && "type"@.len() == 4);
        assert("name"@[0] == 'n' && "type"@[0] == 't');
        assert(is_keypair_create_inner(inner, *request));
    }
    let ghost ghost_inner = inner;
    let mut outer: Vec<(String, JsonValue)> = Vec::new();
    outer.push(("keypair".to_owned(), inner));
    let b = JsonValue::Obj(outer);
    proof {
        assert(b.spec_get("keypair"@) == Some(ghost_inner));
    }
    b
}

/// The payload of a server creation body, under the names the service
/// expects.
pub open spec fn is_server_create_inner(inner: JsonValue, request: ServerCreate) -> bool {
    &&& spec_str_field(inner, "name"@) == Some(request.name)
    &&& spec_str_field(inner, "flavorRef"@) == Some(request.flavor_ref)
    &&& spec_str_field(inner, "imageRef"@) == Some(request.image_ref)
    &&& spec_str_field(inner, "key_name"@) == request.key_name
}

/// A server creation body: a single `server` root field holding the
/// payload.
pub open spec fn is_server_create_body(b: JsonValue, request: ServerCreate) -> bool {
    &&& b matches JsonValue::Obj(outer) && outer@.len() == 1
    &&& match b.spec_get("server"@) {
        Some(inner) => is_server_create_inner(inner, request),
        None => false,
    }
}

/// Build the body of a server creation request.
pub fn server_create_body(request: &ServerCreate) -> (b: JsonValue)
    ensures
        is_server_create_body(b, *request),
{
    let mut fields: Vec<(String, JsonValue)> = Vec::new();
    fields.push(("name".to_owned(), JsonValue::Str(request.name.clone())));
    fields.push(("flavorRef".to_owned(), JsonValue::Str(request.flavor_ref.clone())));
    fields.push(("imageRef".to_owned(), JsonValue::Str(request.image_ref.clone())));
    match &request.key_name {
        Some(kn) => {
            fields.push(("key_name".to_owned(), JsonValue::Str(kn.clone())));
        },
        None => {},
    }
    let inner = JsonValue::Obj(fields);
    proof {
        reveal_with_fuel(spec_lookup, 6);
        reveal_strlit("name");
        reveal_strlit("flavorRef");
        reveal_strlit("imageRef");
        reveal_strlit("key_name");
        assert("name"@.len() == 4 && "flavorRef"@.len() == 9 && "imageRef"@.len() == 8
            && "key_name"@.len() == 8);
        assert("imageRef"@[0] == 'i' && "key_name"@[0] == 'k');
        assert(is_server_create_inner(inner, *request));
    }
    let ghost ghost_inner = inner;
    let mut outer: Vec<(String, JsonValue)> = Vec::new();
    outer.push(("server".to_owned(), inner));
    let b = JsonValue::Obj(outer);
    proof {
        assert(b.spec_get("server"@) == Some(ghost_inner));
    }
    b
}

/// A server action body: a single field named after the action, holding
/// its arguments.
pub open spec fn is_action_body(b: JsonValue, action: Seq<char>, args: JsonValue) -> bool {
    &&& b matches JsonValue::Obj(outer)
    &&& outer@.len() == 1
    &&& outer@[0].0@ == action
    &&& outer@[0].1 == args
}

/// Build the body of a server action request.
pub fn action_body(action: &str, args: JsonValue) -> (b: JsonValue)
    ensures
        is_action_body(b, action@, args),
{
    let mut outer: Vec<(String, JsonValue)> = Vec::new();
    outer.push((action.to_owned(), args));
    JsonValue::Obj(outer)
}

} // verus!
