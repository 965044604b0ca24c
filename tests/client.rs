use tellme_client::wire::{boolean, decimal};
use tellme_client::{check_status, ClientError, Method, Request, Service, TellmeClient};

fn s(x: &str) -> String {
    String::from(x)
}

fn pairs(r: &Request) -> Vec<(&str, &str)> {
    r.params.iter().map(|(k, v)| (k.as_str(), v.as_str())).collect()
}

fn admin() -> TellmeClient {
    TellmeClient::new(s("http://localhost:8080"), Some(s("login")), Some(s("password")))
}

#[test]
fn it_works() {
    let my_port = 4567;

    let client = TellmeClient::new(
        s("http://localhost:8080"),
        Some(String::from("login")),
        Some(String::from("password")),
    );

    let token_request = client.newtoken().expect("Failed to get access token!");
    assert_eq!(token_request.url, "http://localhost:8080/newtoken");
    // The token comes from the registry's reply to the request above.
    let access_token = s("token");

    client
        .register(my_port, "/healthcheck_endpoint".to_owned(), access_token, "storage node".to_owned())
        .expect("Failed to register self in service registry!");
    // The identifier comes from the registry's reply to the registration.
    let identifier = s("identifier");

    client
        .accept_service(identifier.clone())
        .expect("Failed to accept self in service registry");

    client
        .disable_service(identifier.clone())
        .expect("Failed to disable self in service registry");

    client
        .subscribe(identifier.clone(), true, false, s("/hook/on_registration"))
        .expect("Failed to subscribe to service registration");

    client
        .subscribe(identifier, false, true, s("/hook/on_acceptance"))
        .expect("Failed to subscribe to service acceptance");
}

#[test]
fn missing_credentials_refuse_guarded_operations() {
    let clients = [
        TellmeClient::new(s("http://localhost:8080"), None, Some(s("password"))),
        TellmeClient::new(s("http://localhost:8080"), Some(s("login")), None),
        TellmeClient::new(s("http://localhost:8080"), None, None),
    ];
    for c in clients.iter() {
        assert!(!c.has_credentials());
        assert_eq!(c.accept_service(s("id")).unwrap_err(), ClientError::MissingCredentials);
        assert_eq!(c.disable_service(s("id")).unwrap_err(), ClientError::MissingCredentials);
        assert_eq!(c.newtoken().unwrap_err(), ClientError::MissingCredentials);
        assert_eq!(
            c.subscribe(s("id"), true, false, s("/hook")).unwrap_err(),
            ClientError::MissingCredentials
        );
    }
}

#[test]
fn missing_credentials_precede_url_errors() {
    let c = TellmeClient::new(s("not a url"), None, None);
    assert_eq!(c.newtoken().unwrap_err(), ClientError::MissingCredentials);
}

#[test]
fn public_operations_need_no_credentials() {
    let c = TellmeClient::new(s("http://localhost:8080"), None, None);
    assert!(c.find(None, None, None).is_ok());
    assert!(c.register(1, s("/hc"), s("tok"), s("t")).is_ok());
}

#[test]
fn find_without_filters_sends_empty_query() {
    let r = admin().find(None, None, None).unwrap();
    assert_eq!(r.method, Method::Get);
    assert_eq!(r.url, "http://localhost:8080/find");
    assert!(r.params.is_empty());
}

#[test]
fn find_with_only_limit_sends_only_limit() {
    let r = admin().find(None, Some(10), None).unwrap();
    assert_eq!(pairs(&r), vec![("limit", "10")]);
}

#[test]
fn find_with_all_filters_keeps_order() {
    let r = admin().find(Some(s("storage node")), Some(0), Some(false)).unwrap();
    assert_eq!(
        pairs(&r),
        vec![("service_type", "storage node"), ("limit", "0"), ("available", "false")]
    );
    let r = admin().find(None, None, Some(true)).unwrap();
    assert_eq!(pairs(&r), vec![("available", "true")]);
}

#[test]
fn register_builds_form() {
    let r = admin().register(4567, s("/hc"), s("tok"), s("storage node")).unwrap();
    assert_eq!(r.method, Method::Post);
    assert_eq!(r.url, "http://localhost:8080/me");
    assert_eq!(
        pairs(&r),
        vec![
            ("healthcheck_endpoint", "/hc"),
            ("access_token", "tok"),
            ("service_type", "storage node"),
            ("port", "4567"),
        ]
    );
}

#[test]
fn accept_and_disable_build_forms() {
    let r = admin().accept_service(s("abc123")).unwrap();
    assert_eq!(r.method, Method::Post);
    assert_eq!(r.url, "http://localhost:8080/accept_service");
    assert_eq!(pairs(&r), vec![("identifier", "abc123"), ("login", "login"), ("password", "password")]);
    let r = admin().disable_service(s("abc123")).unwrap();
    assert_eq!(r.url, "http://localhost:8080/disable_service");
    assert_eq!(pairs(&r), vec![("identifier", "abc123"), ("login", "login"), ("password", "password")]);
}

#[test]
fn newtoken_builds_form() {
    let r = admin().newtoken().unwrap();
    assert_eq!(r.method, Method::Post);
    assert_eq!(pairs(&r), vec![("login", "login"), ("password", "password")]);
}

#[test]
fn two_subscriptions_have_opposite_flags() {
    let a = admin().subscribe(s("id"), true, false, s("/hook/on_registration")).unwrap();
    let b = admin().subscribe(s("id"), false, true, s("/hook/on_acceptance")).unwrap();
    assert_eq!(a.url, "http://localhost:8080/subscribe");
    assert_eq!(
        pairs(&a),
        vec![
            ("login", "login"),
            ("password", "password"),
            ("identifier", "id"),
            ("endpoint", "/hook/on_registration"),
            ("on_registration", "true"),
            ("on_acceptance", "false"),
        ]
    );
    assert_eq!(pairs(&b)[4], ("on_registration", "false"));
    assert_eq!(pairs(&b)[5], ("on_acceptance", "true"));
    assert_ne!(a.params, b.params);
}

#[test]
fn paths_replace_the_base_path() {
    let c = TellmeClient::new(s("https://registry.example/api/v1"), None, None);
    assert_eq!(c.find(None, None, None).unwrap().url, "https://registry.example/find");
}

#[test]
fn unreadable_base_is_url_error() {
    let c = TellmeClient::new(s("not a url"), Some(s("l")), Some(s("p")));
    assert_eq!(c.find(None, None, None).unwrap_err(), ClientError::InvalidUrl);
    assert_eq!(c.newtoken().unwrap_err(), ClientError::InvalidUrl);
    let c = TellmeClient::new(s("mailto:someone@example.com"), None, None);
    assert_eq!(c.register(1, s("/hc"), s("t"), s("x")).unwrap_err(), ClientError::InvalidUrl);
}

#[test]
fn statuses_outside_success_are_errors() {
    assert_eq!(check_status(200), Ok(()));
    assert_eq!(check_status(204), Ok(()));
    assert_eq!(check_status(299), Ok(()));
    assert_eq!(check_status(199), Err(ClientError::Status(199)));
    assert_eq!(check_status(300), Err(ClientError::Status(300)));
    assert_eq!(check_status(401), Err(ClientError::Status(401)));
    assert_eq!(check_status(500), Err(ClientError::Status(500)));
}

#[test]
fn decimal_rendering() {
    assert_eq!(decimal(0), "0");
    assert_eq!(decimal(7), "7");
    assert_eq!(decimal(10), "10");
    assert_eq!(decimal(65535), "65535");
    assert_eq!(decimal(u64::MAX), "18446744073709551615");
    assert_eq!(boolean(true), "true");
    assert_eq!(boolean(false), "false");
}

#[test]
fn service_record_keeps_fields() {
    let svc = Service {
        service_type: s("storage node"),
        available: true,
        healthcheck_endpoint: s("/hc"),
        is_accepted: false,
        identifier: s("abc123"),
        ip: s("http://10.0.0.1:4567/"),
    };
    let copy = svc.clone();
    assert_eq!(copy.service_type, "storage node");
    assert!(copy.available);
    assert_eq!(copy.healthcheck_endpoint, "/hc");
    assert!(!copy.is_accepted);
    assert_eq!(copy.identifier, "abc123");
    assert_eq!(copy.ip, "http://10.0.0.1:4567/");
}
