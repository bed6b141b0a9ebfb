use zotero_client::error::{classify_status, ZoteroError};
use zotero_client::request::{Method, Request};
use zotero_client::zotero_api::backoff_delay;
use zotero_client::{InteractionMode, ZoteroAPI, ZoteroAPIBuilder};

fn scoped_client(mode: InteractionMode) -> ZoteroAPI {
    let mut builder = ZoteroAPIBuilder::default();
    builder.api_key("12345");
    builder.mode(mode);
    builder.build().unwrap()
}

#[test]
fn builder_defaults() {
    let mut builder = ZoteroAPIBuilder::default();
    builder.api_key("12345");
    let client = builder.build().unwrap();
    assert_eq!(client.endpoint.as_str(), "https://api.zotero.org/");
    assert_eq!(client.version, 3);
    assert_eq!(client.api_key.as_str(), "12345");
    assert!(client.mode.is_none());
}

#[test]
fn builder_missing_key_error() {
    let builder = ZoteroAPIBuilder::default();
    assert!(matches!(
        builder.build(),
        Err(ZoteroError::MissingCredentials)
    ));
}

#[test]
fn builder_invalid_endpoint_error() {
    let mut builder = ZoteroAPIBuilder::default();
    assert!(matches!(
        builder.try_endpoint("not a url"),
        Err(ZoteroError::InvalidEndpoint)
    ));
    // A failed endpoint attempt leaves the default in place.
    builder.api_key("12345");
    let client = builder.build().unwrap();
    assert_eq!(client.endpoint.as_str(), "https://api.zotero.org/");
}

#[test]
fn user_prefix() {
    assert_eq!(
        InteractionMode::User("999".to_owned()).prefix().as_str(),
        "users/999/"
    );
}

#[test]
fn group_prefix() {
    assert_eq!(
        InteractionMode::Group("42".to_owned()).prefix().as_str(),
        "groups/42/"
    );
}

#[test]
fn group_scope_url() {
    let client = scoped_client(InteractionMode::Group("42".to_owned()));
    let req = client
        .compose_request(Method::Get, "items", None, None)
        .unwrap();
    assert_eq!(req.url.as_str(), "https://api.zotero.org/groups/42/items");
}

#[test]
fn compose_end_to_end() {
    let mut builder = ZoteroAPIBuilder::default();
    builder.api_key("12345");
    let client = builder.build().unwrap();

    // Without a scope, composing a scoped path must fail.
    let res = client.compose_request(Method::Get, "items", None, None);
    assert!(matches!(res, Err(ZoteroError::ScopeRequired)));

    // With a user scope set, the same call addresses the user library.
    builder.mode(InteractionMode::User("555".to_owned()));
    let client = builder.build().unwrap();
    let req = client
        .compose_request(Method::Get, "items", None, None)
        .unwrap();
    assert_eq!(req.url.as_str(), "https://api.zotero.org/users/555/items");
}

#[test]
fn composed_headers_present() {
    let client = scoped_client(InteractionMode::User("555".to_owned()));
    let req = client
        .compose_request(Method::Get, "items", None, None)
        .unwrap();
    assert_eq!(req.headers.len(), 2);
    assert_eq!(req.headers[0].0.as_str(), "Zotero-API-Version");
    assert_eq!(req.headers[0].1.as_str(), "3");
    assert_eq!(req.headers[1].0.as_str(), "Authorization");
    assert_eq!(req.headers[1].1.as_str(), "Bearer 12345");
}

#[test]
fn configured_version_header() {
    let mut builder = ZoteroAPIBuilder::default();
    builder.api_key("12345");
    builder.version(250);
    builder.mode(InteractionMode::User("555".to_owned()));
    let client = builder.build().unwrap();
    let req = client
        .compose_request(Method::Get, "items", None, None)
        .unwrap();
    assert_eq!(req.headers[0].1.as_str(), "250");
}

#[test]
fn positional_args_become_query_params() {
    let client = scoped_client(InteractionMode::User("555".to_owned()));
    let args = vec![
        ("format".to_owned(), "json".to_owned()),
        ("format".to_owned(), "keys".to_owned()),
    ];
    let req = client
        .compose_request(Method::Get, "items", Some(&args), None)
        .unwrap();
    // Duplicate keys are preserved as repeated parameters, in order.
    assert_eq!(
        req.url.as_str(),
        "https://api.zotero.org/users/555/items?format=json&format=keys"
    );
}

#[test]
fn raw_query_overrides_args() {
    let client = scoped_client(InteractionMode::User("555".to_owned()));
    let args = vec![("format".to_owned(), "json".to_owned())];
    let req = client
        .compose_request(Method::Get, "items", Some(&args), Some("limit=25"))
        .unwrap();
    assert_eq!(
        req.url.as_str(),
        "https://api.zotero.org/users/555/items?limit=25"
    );
}

#[test]
fn unresolvable_path_is_invalid_call() {
    let client = scoped_client(InteractionMode::User("555".to_owned()));
    // An absolute URL with an empty host cannot be resolved against the base.
    let res = client.compose_request(Method::Get, "https://", None, None);
    match res {
        Err(ZoteroError::InvalidAPICall { call }) => assert_eq!(call.as_str(), "https://"),
        other => panic!("expected InvalidAPICall, got {:?}", other),
    }
}

#[test]
fn control_character_key_is_invalid_credentials() {
    let client = scoped_client(InteractionMode::User("555".to_owned()));
    let mut bad = client.clone();
    bad.api_key = "line\nbreak".to_owned();
    let res = bad.compose_request(Method::Get, "items", None, None);
    assert!(matches!(res, Err(ZoteroError::InvalidCredentials)));
}

#[test]
fn key_info_has_no_scope_prefix_and_no_headers() {
    let client = scoped_client(InteractionMode::User("555".to_owned()));
    let req = client.get_key_info().unwrap();
    assert_eq!(req.url.as_str(), "https://api.zotero.org/keys/12345");
    assert!(req.headers.is_empty());
    assert_eq!(req.method, Method::Get);
}

#[test]
fn resolve_user_scope_binds_user_id() {
    let mut builder = ZoteroAPIBuilder::default();
    builder.api_key("12345");
    let client = builder.build().unwrap();

    let body = "{\"key\": \"12345\", \"userID\": 555, \"username\": \"someone\"}";
    let resolved = client.resolve_user_scope(body).unwrap();
    assert_eq!(
        resolved.mode,
        Some(InteractionMode::User("555".to_owned()))
    );
    // The rest of the configuration is carried over unchanged.
    assert_eq!(resolved.endpoint.as_str(), client.endpoint.as_str());
    assert_eq!(resolved.api_key.as_str(), client.api_key.as_str());
    assert_eq!(resolved.version, client.version);

    // Resolving again from the same account's key info binds the same scope.
    let again = client.resolve_user_scope(body).unwrap();
    assert_eq!(again.mode, resolved.mode);
}

#[test]
fn resolve_user_scope_failures() {
    let mut builder = ZoteroAPIBuilder::default();
    builder.api_key("12345");
    let client = builder.build().unwrap();

    let res = client.resolve_user_scope("not json at all");
    assert!(matches!(res, Err(ZoteroError::DiscoveryFailed)));

    let res = client.resolve_user_scope("{\"username\": \"someone\"}");
    assert!(matches!(res, Err(ZoteroError::DiscoveryFailed)));
}

#[test]
fn status_code_mapping() {
    assert!(classify_status(200).is_ok());
    assert!(classify_status(204).is_ok());
    assert!(classify_status(299).is_ok());
    assert!(matches!(classify_status(409), Err(ZoteroError::Conflict)));
    assert!(matches!(
        classify_status(412),
        Err(ZoteroError::PreConditionFailed)
    ));
    assert!(matches!(
        classify_status(413),
        Err(ZoteroError::RequestEntityTooLarge)
    ));
    assert!(matches!(
        classify_status(428),
        Err(ZoteroError::PreConditionRequired)
    ));
    assert!(matches!(
        classify_status(429),
        Err(ZoteroError::TooManyRequests)
    ));
    assert!(matches!(
        classify_status(404),
        Err(ZoteroError::HTTPError(404))
    ));
    assert!(matches!(
        classify_status(500),
        Err(ZoteroError::HTTPError(500))
    ));
    assert!(matches!(
        classify_status(301),
        Err(ZoteroError::HTTPError(301))
    ));
}

#[test]
fn backoff_doubles_until_cap() {
    assert_eq!(backoff_delay(0).unwrap(), 1);
    assert_eq!(backoff_delay(1).unwrap(), 2);
    assert_eq!(backoff_delay(2).unwrap(), 4);
    assert_eq!(backoff_delay(3).unwrap(), 8);
    assert_eq!(backoff_delay(4).unwrap(), 16);
    assert_eq!(backoff_delay(5).unwrap(), 32);
    assert!(matches!(
        backoff_delay(6),
        Err(ZoteroError::TooManyRetries)
    ));
    assert!(matches!(
        backoff_delay(1000),
        Err(ZoteroError::TooManyRetries)
    ));
}

#[test]
fn builder_setters_chain() {
    let client = ZoteroAPIBuilder::default()
        .api_key("12345")
        .version(2)
        .mode(InteractionMode::Group("42".to_owned()))
        .build()
        .unwrap();
    assert_eq!(client.version, 2);
    assert_eq!(client.mode, Some(InteractionMode::Group("42".to_owned())));
}

#[test]
fn empty_path_addresses_scope_root() {
    let client = scoped_client(InteractionMode::User("555".to_owned()));
    let req = client
        .compose_request(Method::Get, "", None, None)
        .unwrap();
    assert_eq!(req.url.as_str(), "https://api.zotero.org/users/555/");
}

#[test]
fn tab_in_key_is_still_a_header_value() {
    let client = scoped_client(InteractionMode::User("with\ttab".to_owned()));
    let mut with_tab = client.clone();
    with_tab.api_key = "a\tb".to_owned();
    let req = with_tab
        .compose_request(Method::Get, "items", None, None)
        .unwrap();
    assert_eq!(req.headers[1].1.as_str(), "Bearer a\tb");
}

#[test]
fn insert_headers_replaces_stale_entries() {
    let client = scoped_client(InteractionMode::User("555".to_owned()));
    let mut req = Request::new(Method::Get, client.endpoint.clone());
    req.headers.push(("X-Custom".to_owned(), "kept".to_owned()));

    client.insert_headers(&mut req).unwrap();
    // Attaching again must replace the managed entries, never duplicate them.
    client.insert_headers(&mut req).unwrap();

    assert_eq!(req.headers.len(), 3);
    assert_eq!(req.headers[0].0.as_str(), "X-Custom");
    assert_eq!(req.headers[0].1.as_str(), "kept");
    assert_eq!(req.headers[1].0.as_str(), "Zotero-API-Version");
    assert_eq!(req.headers[1].1.as_str(), "3");
    assert_eq!(req.headers[2].0.as_str(), "Authorization");
    assert_eq!(req.headers[2].1.as_str(), "Bearer 12345");
}
