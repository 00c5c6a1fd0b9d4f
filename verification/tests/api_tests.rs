use std::cell::{Cell, RefCell};

use openstack::compute::{
    create_keypair, create_server, delete_keypair, delete_server, get_extra_specs_by_flavor_id,
    get_flavor, get_flavor_by_id, get_flavor_by_name, get_keypair, get_server, get_server_by_id,
    get_server_by_name, list_flavors, list_flavors_detail, list_keypairs, list_servers,
    list_servers_detail, pick_compute_api_version,
    server_simple_action, supports_compute_api_version, supports_keypair_pagination,
    ComputeService, ServiceType,
};
use openstack::{
    ApiVersion, Error, JsonValue, KeyPairCreate, Method, Request, ServerCreate, ServiceInfo,
    Session,
};

fn obj(fields: Vec<(&str, JsonValue)>) -> JsonValue {
    JsonValue::Obj(fields.into_iter().map(|(k, v)| (k.to_string(), v)).collect())
}

fn s(v: &str) -> JsonValue {
    JsonValue::Str(v.to_string())
}

fn keypair_json(name: &str) -> JsonValue {
    obj(vec![
        ("name", s(name)),
        ("fingerprint", s("aa:bb")),
        ("public_key", s("ssh-rsa AAAA")),
    ])
}

fn default_info() -> ServiceInfo {
    ServiceInfo {
        root_url: "https://compute.example/v2.1".to_string(),
        current_version: Some(ApiVersion(2, 60)),
        minimum_version: Some(ApiVersion(2, 1)),
    }
}

fn field<'a>(v: &'a JsonValue, key: &str) -> &'a JsonValue {
    match v.get(key) {
        Some(inner) => inner,
        None => panic!("missing field {}", key),
    }
}

#[test]
fn create_keypair_posts_typed_body_under_keypair_type_version() {
    let seen = RefCell::new(Vec::<(Method, Vec<String>, Option<ApiVersion>, Option<String>)>::new());
    let send = |req: Request| -> Result<JsonValue, Error> {
        let body = req.body.expect("creation must carry a body");
        let inner = field(&body, "keypair");
        match field(inner, "name") {
            JsonValue::Str(n) => assert_eq!(n, "mykey"),
            _ => panic!("name must be a string"),
        }
        match field(inner, "type") {
            JsonValue::Str(t) => assert_eq!(t, "x509"),
            _ => panic!("type must be a string"),
        }
        assert!(inner.get("public_key").is_none());
        seen.borrow_mut().push((req.method, req.path, req.api_version, req.api_version_header));
        Ok(obj(vec![("keypair", keypair_json("mykey"))]))
    };
    let discover = || Ok(default_info());
    let session = Session::new(send, discover);

    let created = create_keypair(
        &session,
        KeyPairCreate { name: "mykey".to_string(), public_key: None, key_type: Some("x509".to_string()) },
    )
    .unwrap();
    assert_eq!(created.name, "mykey");
    assert_eq!(created.fingerprint, "aa:bb");
    assert_eq!(created.public_key, "ssh-rsa AAAA");

    let seen = seen.borrow();
    assert_eq!(seen.len(), 1);
    assert_eq!(seen[0].0, Method::Post);
    assert_eq!(seen[0].1, vec!["os-keypairs".to_string()]);
    assert_eq!(seen[0].2, Some(ApiVersion(2, 2)), "a typed key pair pins the key-type version");
    assert_eq!(seen[0].3.as_deref(), Some("x-openstack-nova-api-version"));
}

#[test]
fn create_keypair_without_type_pins_no_version() {
    let send = |req: Request| -> Result<JsonValue, Error> {
        assert_eq!(req.api_version, None);
        assert_eq!(req.api_version_header, None);
        Ok(obj(vec![("keypair", keypair_json("plain"))]))
    };
    let session = Session::new(send, || Ok(default_info()));
    let created = create_keypair(
        &session,
        KeyPairCreate { name: "plain".to_string(), public_key: None, key_type: None },
    )
    .unwrap();
    assert_eq!(created.key_type, None);
}

#[test]
fn create_server_posts_refs_and_returns_the_bare_reference() {
    let send = |req: Request| -> Result<JsonValue, Error> {
        assert_eq!(req.method, Method::Post);
        assert_eq!(req.path, vec!["servers".to_string()]);
        let body = req.body.expect("creation must carry a body");
        let inner = field(&body, "server");
        match field(inner, "flavorRef") {
            JsonValue::Str(f) => assert_eq!(f, "42"),
            _ => panic!("flavorRef must be a string"),
        }
        match field(inner, "imageRef") {
            JsonValue::Str(i) => assert_eq!(i, "img-1"),
            _ => panic!("imageRef must be a string"),
        }
        Ok(obj(vec![("server", obj(vec![("id", s("srv-9"))]))]))
    };
    let session = Session::new(send, || Ok(default_info()));
    let created = create_server(
        &session,
        ServerCreate {
            name: "web".to_string(),
            flavor_ref: "42".to_string(),
            image_ref: "img-1".to_string(),
            key_name: None,
        },
    )
    .unwrap();
    assert_eq!(created.id, "srv-9");
}

#[test]
fn delete_calls_use_the_delete_method_on_the_resource() {
    let paths = RefCell::new(Vec::<Vec<String>>::new());
    let send = |req: Request| -> Result<JsonValue, Error> {
        assert_eq!(req.method, Method::Delete);
        paths.borrow_mut().push(req.path);
        Ok(JsonValue::Null)
    };
    let session = Session::new(send, || Ok(default_info()));
    delete_keypair(&session, "mykey").unwrap();
    delete_server(&session, "srv-9").unwrap();
    let paths = paths.borrow();
    assert_eq!(paths[0], vec!["os-keypairs".to_string(), "mykey".to_string()]);
    assert_eq!(paths[1], vec!["servers".to_string(), "srv-9".to_string()]);
}

#[test]
fn server_simple_action_posts_a_null_argument_body() {
    let send = |req: Request| -> Result<JsonValue, Error> {
        assert_eq!(req.method, Method::Post);
        assert_eq!(
            req.path,
            vec!["servers".to_string(), "srv-9".to_string(), "action".to_string()]
        );
        let body = req.body.expect("an action carries a body");
        assert!(matches!(field(&body, "reboot"), JsonValue::Null));
        Ok(JsonValue::Null)
    };
    let session = Session::new(send, || Ok(default_info()));
    server_simple_action(&session, "srv-9", "reboot").unwrap();
}

#[test]
fn extra_specs_come_back_as_ordered_pairs() {
    let send = |req: Request| -> Result<JsonValue, Error> {
        assert_eq!(
            req.path,
            vec!["flavors".to_string(), "42".to_string(), "os-extra_specs".to_string()]
        );
        Ok(obj(vec![("extra_specs", obj(vec![("hw:cpu_policy", s("dedicated")), ("gen", s("2"))]))]))
    };
    let session = Session::new(send, || Ok(default_info()));
    let specs = get_extra_specs_by_flavor_id(&session, "42").unwrap();
    assert_eq!(
        specs,
        vec![
            ("hw:cpu_policy".to_string(), "dedicated".to_string()),
            ("gen".to_string(), "2".to_string()),
        ]
    );
}

#[test]
fn malformed_response_is_a_transport_failure() {
    let send = |_req: Request| -> Result<JsonValue, Error> {
        Ok(obj(vec![("flavor", obj(vec![("id", s("42"))]))]))
    };
    let mut session = Session::new(send, || Ok(default_info()));
    assert!(matches!(get_flavor_by_id(&mut session, "42"), Err(Error::Transport(_))));
}

#[test]
fn discovery_runs_once_and_serves_later_version_questions() {
    let discoveries = Cell::new(0u32);
    let send = |_req: Request| -> Result<JsonValue, Error> { Ok(JsonValue::Null) };
    let discover = || {
        discoveries.set(discoveries.get() + 1);
        Ok(default_info())
    };
    let mut session = Session::new(send, discover);
    assert_eq!(supports_keypair_pagination(&mut session).unwrap(), true);
    assert_eq!(supports_compute_api_version(&mut session, ApiVersion(2, 61)).unwrap(), false);
    assert_eq!(
        pick_compute_api_version(&mut session, &[ApiVersion(2, 2), ApiVersion(2, 61)]).unwrap(),
        Some(ApiVersion(2, 2))
    );
    assert_eq!(discoveries.get(), 1, "discovery must run at most once per session");
}

#[test]
fn failed_discovery_is_retried_on_the_next_call() {
    let discoveries = Cell::new(0u32);
    let send = |_req: Request| -> Result<JsonValue, Error> { Ok(JsonValue::Null) };
    let discover = || {
        discoveries.set(discoveries.get() + 1);
        if discoveries.get() == 1 {
            Err(Error::Transport("catalog unreachable".to_string()))
        } else {
            Ok(default_info())
        }
    };
    let mut session = Session::new(send, discover);
    assert!(matches!(
        supports_keypair_pagination(&mut session),
        Err(Error::Transport(_))
    ));
    assert_eq!(supports_keypair_pagination(&mut session).unwrap(), true);
    assert_eq!(discoveries.get(), 2);
}

#[test]
fn get_keypair_negotiates_the_key_type_version() {
    let send = |req: Request| -> Result<JsonValue, Error> {
        assert_eq!(req.path, vec!["os-keypairs".to_string(), "mykey".to_string()]);
        assert_eq!(req.api_version, Some(ApiVersion(2, 2)));
        Ok(obj(vec![("keypair", keypair_json("mykey"))]))
    };
    let mut session = Session::new(send, || Ok(default_info()));
    let kp = get_keypair(&mut session, "mykey").unwrap();
    assert_eq!(kp.name, "mykey");
}

#[test]
fn get_flavor_by_id_prefers_the_extra_specs_version() {
    let send = |req: Request| -> Result<JsonValue, Error> {
        assert_eq!(req.path, vec!["flavors".to_string(), "42".to_string()]);
        // Advertised current is 2.60: only the description version fits.
        assert_eq!(req.api_version, Some(ApiVersion(2, 55)));
        Ok(obj(vec![("flavor", obj(vec![
            ("id", s("42")),
            ("name", s("m1.small")),
            ("vcpus", JsonValue::Int(2)),
            ("ram", JsonValue::Int(2048)),
            ("disk", JsonValue::Int(20)),
        ]))]))
    };
    let mut session = Session::new(send, || Ok(default_info()));
    let fl = get_flavor_by_id(&mut session, "42").unwrap();
    assert_eq!(fl.name, "m1.small");
    assert_eq!(fl.vcpus, 2);
    assert_eq!(fl.ram, 2048);
    assert_eq!(fl.disk, 20);
    assert_eq!(fl.description, None);
}

fn flavor_listing() -> JsonValue {
    obj(vec![("flavors", JsonValue::Arr(vec![
        obj(vec![("id", s("41")), ("name", s("m1.tiny"))]),
        obj(vec![("id", s("42")), ("name", s("m1.small"))]),
    ]))])
}

fn flavor_42() -> JsonValue {
    obj(vec![("flavor", obj(vec![
        ("id", s("42")),
        ("name", s("m1.small")),
        ("vcpus", JsonValue::Int(2)),
        ("ram", JsonValue::Int(2048)),
        ("disk", JsonValue::Int(20)),
    ]))])
}

#[test]
fn get_flavor_by_name_lists_filters_and_reads_the_single_match() {
    let send = |req: Request| -> Result<JsonValue, Error> {
        if req.path.len() == 1 {
            assert_eq!(req.path, vec!["flavors".to_string()]);
            Ok(flavor_listing())
        } else {
            assert_eq!(req.path, vec!["flavors".to_string(), "42".to_string()]);
            Ok(flavor_42())
        }
    };
    let mut session = Session::new(send, || Ok(default_info()));
    let fl = get_flavor_by_name(&mut session, "m1.small").unwrap();
    assert_eq!(fl.id, "42");
}

#[test]
fn get_flavor_by_name_rejects_zero_and_many_matches() {
    let send = |_req: Request| -> Result<JsonValue, Error> {
        Ok(obj(vec![("flavors", JsonValue::Arr(vec![
            obj(vec![("id", s("1")), ("name", s("dup"))]),
            obj(vec![("id", s("2")), ("name", s("dup"))]),
        ]))]))
    };
    let mut session = Session::new(send, || Ok(default_info()));
    match get_flavor_by_name(&mut session, "absent") {
        Err(Error::NotFound(m)) => assert_eq!(m, "Flavor with given name or ID not found"),
        other => panic!("expected NotFound, got {:?}", other),
    }
    match get_flavor_by_name(&mut session, "dup") {
        Err(Error::AmbiguousResult(m)) => assert_eq!(m, "Too many flavors found with given name"),
        other => panic!("expected AmbiguousResult, got {:?}", other),
    }
}

#[test]
fn get_flavor_falls_back_to_name_only_on_not_found() {
    let send = |req: Request| -> Result<JsonValue, Error> {
        if req.path.len() == 2 && req.path[1] == "m1.small" {
            Err(Error::NotFound("no flavor with that ID".to_string()))
        } else if req.path.len() == 1 {
            Ok(flavor_listing())
        } else {
            Ok(flavor_42())
        }
    };
    let mut session = Session::new(send, || Ok(default_info()));
    let fl = get_flavor(&mut session, "m1.small").unwrap();
    assert_eq!(fl.id, "42");
}

#[test]
fn get_flavor_passes_other_failures_through_without_fallback() {
    let sends = Cell::new(0u32);
    let send = |_req: Request| -> Result<JsonValue, Error> {
        sends.set(sends.get() + 1);
        Err(Error::Transport("boom".to_string()))
    };
    let mut session = Session::new(send, || Ok(default_info()));
    assert!(matches!(get_flavor(&mut session, "42"), Err(Error::Transport(_))));
    assert_eq!(sends.get(), 1, "a transport failure must not trigger the name fallback");
}

#[test]
fn get_server_by_name_sends_the_name_filter_query() {
    let send = |req: Request| -> Result<JsonValue, Error> {
        if req.path.len() == 1 {
            assert_eq!(req.query, vec![("name".to_string(), "web".to_string())]);
            Ok(obj(vec![("servers", JsonValue::Arr(vec![
                obj(vec![("id", s("srv-9")), ("name", s("web"))]),
            ]))]))
        } else {
            assert_eq!(req.path, vec!["servers".to_string(), "srv-9".to_string()]);
            assert_eq!(req.api_version, Some(ApiVersion(2, 19)));
            Ok(obj(vec![("server", obj(vec![
                ("id", s("srv-9")),
                ("name", s("web")),
                ("status", s("ACTIVE")),
            ]))]))
        }
    };
    let mut session = Session::new(send, || Ok(default_info()));
    let srv = get_server_by_name(&mut session, "web").unwrap();
    assert_eq!(srv.id, "srv-9");
    assert_eq!(srv.status.as_deref(), Some("ACTIVE"));
}

#[test]
fn get_server_tries_the_identifier_first() {
    let send = |req: Request| -> Result<JsonValue, Error> {
        assert_eq!(req.path, vec!["servers".to_string(), "srv-9".to_string()]);
        Ok(obj(vec![("server", obj(vec![("id", s("srv-9")), ("name", s("web"))]))]))
    };
    let mut session = Session::new(send, || Ok(default_info()));
    let srv = get_server(&mut session, "srv-9").unwrap();
    assert_eq!(srv.name, "web");
    let direct = get_server_by_id(&mut session, "srv-9").unwrap();
    assert_eq!(direct.id, "srv-9");
}

#[test]
fn list_keypairs_unwraps_each_element_and_negotiates_pagination() {
    let send = |req: Request| -> Result<JsonValue, Error> {
        assert_eq!(req.path, vec!["os-keypairs".to_string()]);
        assert_eq!(req.api_version, Some(ApiVersion(2, 35)));
        Ok(obj(vec![("keypairs", JsonValue::Arr(vec![
            obj(vec![("keypair", keypair_json("a"))]),
            obj(vec![("keypair", keypair_json("b"))]),
        ]))]))
    };
    let mut session = Session::new(send, || Ok(default_info()));
    let keys = list_keypairs(&mut session, vec![]).unwrap();
    assert_eq!(keys.len(), 2);
    assert_eq!(keys[0].name, "a");
    assert_eq!(keys[1].name, "b");
}

#[test]
fn plain_listings_keep_service_order_and_forward_the_query() {
    let send = |req: Request| -> Result<JsonValue, Error> {
        let key = if req.path[0] == "flavors" { "flavors" } else { "servers" };
        assert_eq!(req.query, vec![("limit".to_string(), "2".to_string())]);
        Ok(obj(vec![(key, JsonValue::Arr(vec![
            obj(vec![("id", s("2")), ("name", s("two"))]),
            obj(vec![("id", s("1")), ("name", s("one"))]),
        ]))]))
    };
    let session = Session::new(send, || Ok(default_info()));
    let q = vec![("limit".to_string(), "2".to_string())];
    let flavors = list_flavors(&session, q.clone()).unwrap();
    assert_eq!(flavors[0].id, "2");
    assert_eq!(flavors[1].id, "1");
    let servers = list_servers(&session, q).unwrap();
    assert_eq!(servers[0].name, "two");
    assert_eq!(servers[1].name, "one");
}

#[test]
fn compute_service_names_its_catalog_entry_and_major_version() {
    assert_eq!(ComputeService::catalog_type(), "compute");
    assert!(ComputeService::major_version_supported(ApiVersion(2, 60)));
    assert!(!ComputeService::major_version_supported(ApiVersion(3, 0)));
}

#[test]
fn detail_listings_negotiate_their_versions() {
    let send = |req: Request| -> Result<JsonValue, Error> {
        if req.path[0] == "servers" {
            assert_eq!(req.path, vec!["servers".to_string(), "detail".to_string()]);
            assert_eq!(req.api_version, Some(ApiVersion(2, 19)));
            Ok(obj(vec![("servers", JsonValue::Arr(vec![obj(vec![
                ("id", s("srv-9")),
                ("name", s("web")),
                ("status", s("ACTIVE")),
                ("description", s("front end")),
            ])]))]))
        } else {
            assert_eq!(req.path, vec!["flavors".to_string(), "detail".to_string()]);
            // Advertised current is 2.60, so 2.61 is out of reach.
            assert_eq!(req.api_version, None);
            Ok(obj(vec![("flavors", JsonValue::Arr(vec![obj(vec![
                ("id", s("42")),
                ("name", s("m1.small")),
                ("vcpus", JsonValue::Int(2)),
                ("ram", JsonValue::Int(2048)),
                ("disk", JsonValue::Int(20)),
            ])]))]))
        }
    };
    let mut session = Session::new(send, || Ok(default_info()));
    let servers = list_servers_detail(&mut session, vec![]).unwrap();
    assert_eq!(servers[0].description.as_deref(), Some("front end"));
    let flavors = list_flavors_detail(&mut session, vec![]).unwrap();
    assert_eq!(flavors[0].id, "42");
}

#[test]
fn endpoints_resolve_through_the_cached_discovery() {
    let discoveries = Cell::new(0u32);
    let send = |_req: Request| -> Result<JsonValue, Error> { Ok(JsonValue::Null) };
    let discover = || {
        discoveries.set(discoveries.get() + 1);
        Ok(default_info())
    };
    let mut session = Session::new(send, discover);
    assert_eq!(
        session.get_root_endpoint().unwrap(),
        "https://compute.example/v2.1"
    );
    assert_eq!(
        session.get_endpoint("servers").unwrap(),
        "https://compute.example/v2.1/servers"
    );
    assert_eq!(discoveries.get(), 1);
}
