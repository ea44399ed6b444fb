use actix_web_openapi::address::Url;
use actix_web_openapi::components::resolve_parameter;
use actix_web_openapi::version::{VersionValidator, MINIMUM_OPENAPI30_VERSION};
use actix_web::http::Uri;
use actix_web_openapi::components::{Components, ObjectOrReference};
use actix_web_openapi::json::JsonValue;
use actix_web_openapi::operation::Operation;
use actix_web_openapi::ordered_map::OrderedMap;
use actix_web_openapi::path::{Parameter, PathItem};
use actix_web_openapi::request::{Method, RequestTemplate};
use actix_web_openapi::server::{Server, ServerVariable};
use actix_web_openapi::spec::{MediaType, RequestBody, Response, Schema, Spec};
use actix_web_openapi::error::Error;

fn server(url: &str) -> Server {
    Server { url: url.to_string(), description: None, variables: None }
}

fn plain_operation() -> Operation {
    let respns: OrderedMap<Response> = OrderedMap::new();
    Operation {
        tags: None,
        summary: None,
        description: None,
        external_docs: None,
        operation_id: None,
        parameters: None,
        request_body: None,
        responses: respns,
        callbacks: None,
        deprecated: Some(false),
        servers: None,
    }
}

fn parameter(name: &str, location: &str) -> Parameter {
    Parameter { name: name.to_string(), location: location.to_string(), ..Parameter::default() }
}

fn uri_of(t: &RequestTemplate) -> Uri {
    t.url.parse::<Uri>().unwrap()
}

fn petstore() -> Spec {
    let mut paths = OrderedMap::new();
    paths.insert(
        "/pets".to_string(),
        PathItem { get: Some(plain_operation()), post: Some(plain_operation()), ..PathItem::default() },
    );
    paths.insert(
        "/pets/{petId}".to_string(),
        PathItem {
            get: Some(plain_operation()),
            parameters: Some(vec![ObjectOrReference::Inline(parameter("petId", "path"))]),
            ..PathItem::default()
        },
    );
    Spec {
        openapi: "3.0.0".to_string(),
        servers: Some(vec![server("http://petstore.swagger.io/v1")]),
        paths,
        ..Spec::default()
    }
}

fn one_path_spec(version: &str, servers: Option<Vec<Server>>, path: &str, item: PathItem) -> Spec {
    let mut paths = OrderedMap::new();
    paths.insert(path.to_string(), item);
    Spec { openapi: version.to_string(), servers, paths, ..Spec::default() }
}

#[test]
fn operation_test_to_client_request() {
    let operation = plain_operation();
    let servers = vec![server("http://localhost:8000/v1")];
    match operation.to_client_request(Method::Get, "", None, &servers, None) {
        Ok(clients) => {
            assert!(true);
            assert_eq!(clients.len(), 1);
        },
        Err(_err) => assert!(false),
    }
}

#[test]
fn test_to_client_request_default() {
    let servers = vec![server("http://localhost:8000/v1")];
    let paths = PathItem {
        reference: None,
        summary: None,
        description: None,
        get: None,
        put: None,
        post: None,
        delete: None,
        options: None,
        head: None,
        patch: None,
        trace: None,
        servers: None,
        parameters: None,
    };
    let out = paths.to_client_request("", &servers, None);
    for path in out.templates.iter() {
        match path.method {
            Method::Get => assert!(true),
            _ => assert!(false),
        }
    }
    assert!(out.templates.is_empty());
}

#[test]
fn test_to_client_request_multi() {
    let servers = vec![server("http://localhost:8000/v1")];
    let paths = PathItem {
        get: Some(plain_operation()),
        post: Some(plain_operation()),
        ..PathItem::default()
    };
    let clients = paths.to_client_request("", &servers, None).templates;
    assert_eq!(clients.len(), 2);
    for client in clients.iter() {
        match client.method {
            Method::Get => assert!(true),
            Method::Post => assert!(true),
            _ => assert!(false),
        }
        assert_eq!(uri_of(client).path(), "/v1");
    }
}

#[test]
fn server_test_to_client_request() {
    let server = Server {
        url: "http://localhost:8000/v1".to_string(),
        description: None,
        variables: None,
    };
    let client = server.to_client_request(Method::Get, "", Vec::new(), None);
    let uri = uri_of(&client);
    assert_eq!(uri.scheme_str(), Some("http"));
    assert_eq!(uri.host(), Some("localhost"));
    assert_eq!(uri.port_u16(), Some(8000));
    assert_eq!(uri.path(), "/v1");
}

#[test]
fn test_server() {
    let spec = petstore();
    let servers = spec.servers.unwrap();
    for server in servers.iter() {
        let client = server.to_client_request(Method::Get, "", Vec::new(), None);
        let uri = uri_of(&client);
        assert_eq!(uri.scheme_str(), Some("http"));
        assert_eq!(uri.host(), Some("petstore.swagger.io"));
        assert_eq!(uri.port_u16(), None);
        assert_eq!(uri.path(), "/v1");
    }
}

#[test]
fn test_spec() {
    let spec = petstore();
    match spec.to_client_request() {
        Ok(clients) => {
            let urls: Vec<&str> = clients.templates.iter().map(|c| c.url.as_str()).collect();
            assert_eq!(
                urls,
                vec![
                    "http://petstore.swagger.io/v1/pets",
                    "http://petstore.swagger.io/v1/pets",
                    "http://petstore.swagger.io/v1/pets/{petId}",
                ]
            );
            for client in clients.templates.iter().take(2) {
                let uri = uri_of(client);
                assert_eq!(uri.scheme_str(), Some("http"));
                assert_eq!(uri.host(), Some("petstore.swagger.io"));
                assert_eq!(uri.port_u16(), None);
                assert_eq!(uri.path(), "/v1/pets");
            }
            assert!(clients.diagnostics.is_empty());
        },
        Err(_err) => assert!(false),
    }
}

#[test]
fn versions_in_range_pass() {
    for v in ["3.0.0", "3.0.3", "3.1.0-pre"] {
        let spec = Spec { openapi: v.to_string(), ..Spec::default() };
        let parsed = spec.validate_version().unwrap();
        assert_eq!(parsed.major, 3);
    }
    let spec = Spec { openapi: "3.1.0-pre".to_string(), ..Spec::default() };
    let parsed = spec.validate_version().unwrap();
    assert_eq!((parsed.minor, parsed.patch, parsed.pre.as_str()), (1, 0, "pre"));
}

#[test]
fn versions_out_of_range_fail() {
    for v in ["2.0", "4.0.0", "2.9.9", "3.0.0-rc.1", "4.0.0-alpha", "not a version"] {
        let spec = Spec { openapi: v.to_string(), ..Spec::default() };
        assert_eq!(spec.validate_version(), Err(Error::UnsupportedVersion(v.to_string())));
    }
}

#[test]
fn configured_minimum_moves_the_range() {
    let v = VersionValidator::new("3.1.0").unwrap();
    assert!(v.validate("3.0.3").is_err());
    assert!(v.validate("3.1.0").is_ok());
    assert!(v.validate("3.2.5+build").is_ok());
    assert!(v.validate("4.0.0").is_err());
    assert!(VersionValidator::new("3.1.0-pre").is_none());
    assert!(VersionValidator::new("3.1").is_none());
    assert_eq!(VersionValidator::openapi30(), VersionValidator::new(MINIMUM_OPENAPI30_VERSION).unwrap());
}

#[test]
fn unsupported_version_stops_synthesis() {
    let mut spec = petstore();
    spec.openapi = "2.0".to_string();
    assert_eq!(spec.to_client_request().unwrap_err(), Error::UnsupportedVersion("2.0".to_string()));
}

#[test]
fn end_to_end_get_and_post() {
    let item = PathItem { get: Some(plain_operation()), post: Some(plain_operation()), ..PathItem::default() };
    let spec = one_path_spec("3.0.0", Some(vec![server("http://localhost:8000/v1")]), "/pets", item);
    let out = spec.to_client_request().unwrap();
    assert_eq!(out.templates.len(), 2);
    assert_eq!(out.templates[0].method, Method::Get);
    assert_eq!(out.templates[1].method, Method::Post);
    for t in out.templates.iter() {
        assert_eq!(t.url, "http://localhost:8000/v1/pets");
    }
}

#[test]
fn path_servers_override_document() {
    let item = PathItem {
        get: Some(plain_operation()),
        servers: Some(vec![server("https://alt.example.com")]),
        ..PathItem::default()
    };
    let spec = one_path_spec("3.0.0", Some(vec![server("http://localhost:8000/v1")]), "/pets", item);
    let out = spec.to_client_request().unwrap();
    assert_eq!(out.templates.len(), 1);
    assert_eq!(out.templates[0].url, "https://alt.example.com/pets");
}

#[test]
fn operation_servers_override_path_and_document() {
    let mut op = plain_operation();
    op.servers = Some(vec![server("https://op.example.com")]);
    let item = PathItem {
        get: Some(op),
        put: Some(plain_operation()),
        servers: Some(vec![server("https://alt.example.com")]),
        ..PathItem::default()
    };
    let spec = one_path_spec("3.0.0", Some(vec![server("http://doc.example.com")]), "/x", item);
    let out = spec.to_client_request().unwrap();
    let urls: Vec<&str> = out.templates.iter().map(|t| t.url.as_str()).collect();
    assert_eq!(urls, vec!["https://op.example.com/x", "https://alt.example.com/x"]);
}

#[test]
fn template_count_is_methods_times_servers() {
    let item = PathItem {
        get: Some(plain_operation()),
        delete: Some(plain_operation()),
        trace: Some(plain_operation()),
        ..PathItem::default()
    };
    let spec = one_path_spec(
        "3.0.1",
        Some(vec![server("http://a"), server("http://b")]),
        "/items",
        item,
    );
    let out = spec.to_client_request().unwrap();
    assert_eq!(out.templates.len(), 6);
    let order: Vec<(Method, &str)> = out.templates.iter().map(|t| (t.method, t.url.as_str())).collect();
    assert_eq!(
        order,
        vec![
            (Method::Get, "http://a/items"),
            (Method::Get, "http://b/items"),
            (Method::Delete, "http://a/items"),
            (Method::Delete, "http://b/items"),
            (Method::Trace, "http://a/items"),
            (Method::Trace, "http://b/items"),
        ]
    );
}

#[test]
fn no_servers_falls_back_to_root() {
    let item = PathItem { get: Some(plain_operation()), ..PathItem::default() };
    let spec = one_path_spec("3.0.0", None, "/pets", item);
    let out = spec.to_client_request().unwrap();
    assert_eq!(out.templates.len(), 1);
    assert_eq!(out.templates[0].url, "/pets");
    let item = PathItem { get: Some(plain_operation()), ..PathItem::default() };
    let spec = one_path_spec("3.0.0", Some(Vec::new()), "/pets", item);
    assert_eq!(spec.to_client_request().unwrap().templates[0].url, "/pets");
}

#[test]
fn synthesis_twice_is_identical() {
    let spec = petstore();
    let a = spec.to_client_request().unwrap();
    let b = spec.to_client_request().unwrap();
    assert_eq!(a, b);
}

#[test]
fn server_variables_are_substituted() {
    let mut vars = OrderedMap::new();
    vars.insert(
        "port".to_string(),
        ServerVariable { default: "8443".to_string(), substitutions_enum: None, description: None },
    );
    vars.insert(
        "base".to_string(),
        ServerVariable { default: "v2".to_string(), substitutions_enum: None, description: None },
    );
    let s = Server {
        url: "https://{host}:{port}/{base}/".to_string(),
        description: None,
        variables: Some(vars),
    };
    assert_eq!(s.base_url(), "https://{host}:8443/v2/");
    let t = s.to_client_request(Method::Head, "/status", Vec::new(), None);
    assert_eq!(t.url, "https://{host}:8443/v2/status");
}

#[test]
fn parameters_merge_and_headers() {
    let mut path_header = parameter("X-Trace", "header");
    path_header.required = Some(true);
    let mut op_header = parameter("X-Trace", "header");
    op_header.schema = Some(Schema {
        default: Some(JsonValue::Text("abc".to_string())),
        ..Schema::default()
    });
    let mut count = parameter("X-Count", "header");
    count.schema = Some(Schema { default: Some(JsonValue::Number("7".to_string())), ..Schema::default() });
    let mut op = plain_operation();
    op.parameters = Some(vec![
        ObjectOrReference::Inline(op_header),
        ObjectOrReference::Inline(parameter("q", "query")),
    ]);
    let item = PathItem {
        get: Some(op),
        parameters: Some(vec![
            ObjectOrReference::Inline(path_header),
            ObjectOrReference::Inline(count),
        ]),
        ..PathItem::default()
    };
    let out = item.to_client_request("/s", &vec![server("http://h")], None);
    assert_eq!(out.templates.len(), 1);
    let h: Vec<(&str, bool, Option<&str>)> =
        out.templates[0].headers.iter().map(|h| (h.name, h.required, h.default)).collect();
    assert_eq!(h, vec![("X-Count", false, Some("7")), ("X-Trace", false, Some("abc"))]);
}

#[test]
fn duplicate_parameter_skips_only_that_operation() {
    let mut bad = plain_operation();
    bad.parameters = Some(vec![
        ObjectOrReference::Inline(parameter("id", "query")),
        ObjectOrReference::Inline(parameter("id", "query")),
    ]);
    let item = PathItem { get: Some(bad), post: Some(plain_operation()), ..PathItem::default() };
    let spec = one_path_spec("3.0.0", Some(vec![server("http://h")]), "/d", item);
    let out = spec.to_client_request().unwrap();
    assert_eq!(out.templates.len(), 1);
    assert_eq!(out.templates[0].method, Method::Post);
    assert_eq!(out.diagnostics.len(), 1);
    assert_eq!(out.diagnostics[0].path, "/d");
    assert_eq!(out.diagnostics[0].method, Method::Get);
    assert_eq!(
        out.diagnostics[0].error,
        Error::DuplicateParameter("id".to_string(), "query".to_string())
    );
}

fn components_with_parameters(entries: Vec<(&str, ObjectOrReference<Parameter>)>) -> Components {
    let mut m = OrderedMap::new();
    for (k, v) in entries {
        m.insert(k.to_string(), v);
    }
    Components { parameters: Some(m), ..Components::default() }
}

fn reference<T>(p: &str) -> ObjectOrReference<T> {
    ObjectOrReference::Reference { pointer: p.to_string() }
}

#[test]
fn resolving_inline_gives_it() {
    let r = ObjectOrReference::Inline(parameter("a", "query"));
    assert_eq!(resolve_parameter(None, &r).unwrap().name, "a");
}

#[test]
fn resolving_reference_to_inline_component() {
    let c = components_with_parameters(vec![
        ("limit", ObjectOrReference::Inline(parameter("limit", "query"))),
        ("alias", reference("#/components/parameters/limit")),
    ]);
    let direct = reference("#/components/parameters/limit");
    let alias = reference("#/components/parameters/alias");
    let p = resolve_parameter(Some(&c), &direct).unwrap();
    assert_eq!(p.name, "limit");
    let q = resolve_parameter(Some(&c), &alias).unwrap();
    assert_eq!(q.name, "limit");
    assert!(std::ptr::eq(p, q));
}

#[test]
fn resolving_missing_component_is_unresolved() {
    let c = components_with_parameters(vec![(
        "limit",
        ObjectOrReference::Inline(parameter("limit", "query")),
    )]);
    for p in ["#/components/parameters/offset", "#/components/schemas/limit", "limit"] {
        assert_eq!(
            resolve_parameter(Some(&c), &reference(p)).unwrap_err(),
            Error::UnresolvedReference(p.to_string())
        );
    }
    assert_eq!(
        resolve_parameter(None, &reference("#/components/parameters/limit")).unwrap_err(),
        Error::UnresolvedReference("#/components/parameters/limit".to_string())
    );
}

#[test]
fn resolving_two_hop_cycle_is_cyclic() {
    let c = components_with_parameters(vec![
        ("a", reference("#/components/parameters/b")),
        ("b", reference("#/components/parameters/a")),
    ]);
    match resolve_parameter(Some(&c), &reference("#/components/parameters/a")) {
        Err(Error::CyclicReference(chain)) => {
            assert_eq!(chain[0], "#/components/parameters/a");
            assert_eq!(chain[1], "#/components/parameters/b");
            assert_eq!(chain[2], "#/components/parameters/a");
        },
        other => panic!("expected a cycle, got {:?}", other),
    }
}

#[test]
fn unresolved_parameter_becomes_a_diagnostic() {
    let mut op = plain_operation();
    op.parameters = Some(vec![reference("#/components/parameters/missing")]);
    let item = PathItem { put: Some(op), ..PathItem::default() };
    let spec = one_path_spec("3.0.0", None, "/u", item);
    let out = spec.to_client_request().unwrap();
    assert!(out.templates.is_empty());
    assert_eq!(
        out.diagnostics[0].error,
        Error::UnresolvedReference("#/components/parameters/missing".to_string())
    );
    assert_eq!(out.diagnostics[0].method, Method::Put);
}

#[test]
fn request_body_gives_media_type_and_resolved_schema() {
    let pet = Schema { schema_type: Some("object".to_string()), ..Schema::default() };
    let mut schemas = OrderedMap::new();
    schemas.insert("Pet".to_string(), ObjectOrReference::Inline(pet));
    let mut content = OrderedMap::new();
    content.insert(
        "application/json".to_string(),
        MediaType { schema: Some(reference("#/components/schemas/Pet")), examples: None, encoding: None },
    );
    content.insert("text/plain".to_string(), MediaType::default());
    let mut op = plain_operation();
    op.request_body = Some(ObjectOrReference::Inline(RequestBody { description: None, content, required: None }));
    let item = PathItem { post: Some(op), ..PathItem::default() };
    let mut spec = one_path_spec("3.0.0", None, "/pets", item);
    spec.components = Some(Components { schemas: Some(schemas), ..Components::default() });
    let out = spec.to_client_request().unwrap();
    let body = out.templates[0].body.unwrap();
    assert_eq!(body.media_type, "application/json");
    assert_eq!(body.schema.unwrap().schema_type.as_deref(), Some("object"));
}

#[test]
fn ordered_map_keeps_insertion_order_and_replaces() {
    let mut m = OrderedMap::new();
    m.insert("b".to_string(), 1u32);
    m.insert("a".to_string(), 2u32);
    m.insert("b".to_string(), 3u32);
    assert_eq!(m.len(), 2);
    assert_eq!(m.entries[0], ("b".to_string(), 3));
    assert_eq!(m.get("a"), Some(&2));
    assert_eq!(m.get("c"), None);
}

#[test]
fn url_parts() {
    let u = Url::parse("http://localhost:8000/v1").unwrap();
    assert_eq!(u.scheme, "http");
    assert_eq!(u.host.as_deref(), Some("localhost"));
    assert_eq!(u.port, Some(8000));
    assert_eq!(u.path, "/v1");
    let u = Url::parse("https://example.com:443").unwrap();
    assert_eq!((u.port, u.path.as_str(), u.text.as_str()), (None, "/", "https://example.com/"));
    assert!(Url::parse("/relative").is_none());
}

#[test]
fn method_names() {
    assert_eq!(Method::Get.as_str(), "GET");
    assert_eq!(Method::Trace.as_str(), "TRACE");
}

#[test]
fn boolean_default_and_non_scalar_default() {
    let mut flag = parameter("X-Flag", "header");
    flag.schema = Some(Schema { default: Some(JsonValue::Bool(true)), ..Schema::default() });
    let mut list = parameter("X-List", "header");
    list.schema = Some(Schema { default: Some(JsonValue::Array(Vec::new())), ..Schema::default() });
    let mut op = plain_operation();
    op.parameters = Some(vec![ObjectOrReference::Inline(flag), ObjectOrReference::Inline(list)]);
    let item = PathItem { get: Some(op), ..PathItem::default() };
    let out = item.to_client_request("/b", &Vec::new(), None);
    let t = &out.templates[0];
    assert_eq!(t.url, "/b");
    assert_eq!(t.headers[0].default, Some("true"));
    assert_eq!(t.headers[1].default, None);
}

#[test]
fn request_body_without_content_has_no_body() {
    let mut op = plain_operation();
    op.request_body = Some(ObjectOrReference::Inline(RequestBody::default()));
    let item = PathItem { patch: Some(op), ..PathItem::default() };
    let out = item.to_client_request("/e", &vec![server("http://h/")], None);
    assert_eq!(out.templates[0].url, "http://h/e");
    assert!(out.templates[0].body.is_none());
}

#[test]
fn empty_operation_servers_fall_back_to_path() {
    let mut op = plain_operation();
    op.servers = Some(Vec::new());
    let item = PathItem {
        options: Some(op),
        servers: Some(vec![server("http://path.example")]),
        ..PathItem::default()
    };
    let out = item.to_client_request("/o", &vec![server("http://doc.example")], None);
    assert_eq!(out.templates.len(), 1);
    assert_eq!(out.templates[0].url, "http://path.example/o");
    assert_eq!(out.templates[0].method, Method::Options);
}

#[test]
fn cyclic_request_body_becomes_a_diagnostic() {
    let mut bodies = OrderedMap::new();
    bodies.insert("A".to_string(), reference("#/components/requestBodies/B"));
    bodies.insert("B".to_string(), reference("#/components/requestBodies/A"));
    let mut op = plain_operation();
    op.request_body = Some(reference("#/components/requestBodies/A"));
    let item = PathItem { post: Some(op), get: Some(plain_operation()), ..PathItem::default() };
    let mut spec = one_path_spec("3.0.2", None, "/c", item);
    spec.components = Some(Components { request_bodies: Some(bodies), ..Components::default() });
    let out = spec.to_client_request().unwrap();
    assert_eq!(out.templates.len(), 1);
    assert_eq!(out.templates[0].method, Method::Get);
    assert_eq!(out.diagnostics.len(), 1);
    assert!(matches!(out.diagnostics[0].error, Error::CyclicReference(_)));
}

#[test]
fn version_parts_are_kept() {
    let v = VersionValidator::openapi30().validate("3.0.3+build.7").unwrap();
    assert_eq!((v.major, v.minor, v.patch), (3, 0, 3));
    assert_eq!(v.build, "build.7");
    assert_eq!(v.pre, "");
}
