use nyanpasu_ipc::client::{
    Client, Method, Operation, Placeholder, CORE_START_ENDPOINT, SERVICE_PLACEHOLDER,
};

#[test]
fn new_borrows_the_given_endpoint() {
    let name = String::from("custom_instance");
    let client = Client::new(&name);
    assert_eq!(client.placeholder(), "custom_instance");
    match client.placeholder {
        Placeholder::Borrowed(s) => assert!(std::ptr::eq(s, name.as_str())),
        Placeholder::Owned(_) => panic!("the name was copied"),
    }
}

#[test]
fn from_owned_keeps_the_endpoint() {
    let client = Client::from_owned(String::from("owned_instance"));
    assert_eq!(client.placeholder(), "owned_instance");
    assert!(matches!(client.placeholder, Placeholder::Owned(ref s) if s == "owned_instance"));
}

#[test]
fn service_default_is_the_same_twice() {
    let first = Client::service_default();
    let second = Client::service_default();
    assert_eq!(first.placeholder(), SERVICE_PLACEHOLDER);
    assert_eq!(first.placeholder(), second.placeholder());
    assert_eq!(first.placeholder(), "nyanpasu_ipc");
}

#[test]
fn status_request_is_a_get_without_body() {
    let client = Client::new("svc");
    let r = client.status();
    assert_eq!(r.placeholder, "svc");
    assert_eq!(r.operation, Operation::Status);
    assert_eq!(r.method, Method::Get);
    assert_eq!(r.path, "/status");
    assert!(r.body.is_none());
    assert!(r.content_type.is_none());
}

#[test]
fn start_core_request_sends_the_payload_as_it_is() {
    let client = Client::new("svc");
    let payload = String::from("{\"core_type\":\"mihomo\",\"config_file\":\"/tmp/a b.yaml\"}");
    let r = client.start_core(payload.clone());
    assert_eq!(r.method, Method::Post);
    assert_eq!(r.path, CORE_START_ENDPOINT);
    assert_eq!(r.path, "/core/start");
    assert_eq!(r.content_type, Some("application/json"));
    assert_eq!(r.body.as_deref(), Some(payload.as_str()));
}

#[test]
fn command_requests_are_posts_without_body() {
    let client = Client::new("svc");
    let stop = client.stop_core();
    assert_eq!((stop.method, stop.path), (Method::Post, "/core/stop"));
    assert!(stop.body.is_none());
    let restart = client.restart_core();
    assert_eq!((restart.method, restart.path), (Method::Post, "/core/restart"));
    assert!(restart.body.is_none());
}

#[test]
fn log_requests_are_gets_on_distinct_routes() {
    let client = Client::new("svc");
    let inspect = client.inspect_logs();
    let retrieve = client.retrieve_logs();
    assert_eq!((inspect.method, inspect.path), (Method::Get, "/logs/inspect"));
    assert_eq!((retrieve.method, retrieve.path), (Method::Get, "/logs/retrieve"));
    assert_eq!(inspect.operation, Operation::LogsInspect);
    assert_eq!(retrieve.operation, Operation::LogsRetrieve);
}

#[test]
fn start_core_body_decodes_to_the_encoded_parameters() {
    let mut text = r#"{"core_type":"mihomo","config_file":"/tmp/é \"q\".yaml","log_level":3}"#.as_bytes().to_vec();
    let params = simd_json::to_owned_value(&mut text).unwrap();
    let encoded = simd_json::to_string(&params).unwrap();
    let client = Client::new("svc");
    let request = client.start_core(encoded.clone());
    let body = request.body.unwrap();
    assert_eq!(body, encoded);
    let mut bytes = body.into_bytes();
    let decoded = simd_json::to_owned_value(&mut bytes).unwrap();
    assert_eq!(decoded, params);
}
