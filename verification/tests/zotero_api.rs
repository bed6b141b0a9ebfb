use zotero_client::error::ZoteroError;
use zotero_client::request::{Method, Request};
use zotero_client::{InteractionMode, ZoteroAPI, ZoteroAPIBuilder};

const API_KEY: &str = "12345";
const USER_ID: &str = "555";

fn test_api() -> ZoteroAPI {
    let mut builder = ZoteroAPIBuilder::default();
    builder.api_key(API_KEY);
    builder.build().unwrap()
}

fn test_api_with_mode() -> ZoteroAPI {
    let mut builder = ZoteroAPIBuilder::default();
    builder.api_key(API_KEY);
    builder.mode(InteractionMode::User(USER_ID.to_owned()));
    builder.build().unwrap()
}

#[test]
fn zotero_api_builder() {
    let mut builder = ZoteroAPIBuilder::default();

    // The API key field is required.
    assert!(builder.build().is_err());

    // The API key should be the only required field.
    assert!(ZoteroAPIBuilder::default().api_key("12345").build().is_ok());

    assert!(builder.try_endpoint("invalid url address").is_err());
    assert!(builder.try_endpoint("https://api.test_zotero.org").is_ok());
    builder.api_key("12345");

    let client = builder.build();
    assert!(client.is_ok());

    let client = client.unwrap();

    assert_eq!(client.endpoint.as_str(), "https://api.test_zotero.org/");
}

#[test]
fn get_key_info() {
    let api = test_api();

    let keys_request = api.get_key_info().unwrap();
    assert_eq!(
        keys_request.url.as_str(),
        format!("https://api.zotero.org/keys/{}", API_KEY),
    );
}

#[test]
fn set_nonblank_url() {
    let api = test_api();
    let mut req = api.get_key_info().unwrap();

    let res = api.set_url(&mut req, "items", None, None);
    assert!(matches!(res, Err(ZoteroError::NotBlankURLError)));
}

#[test]
fn set_nomode_url() {
    let api = test_api();
    let mut req = Request::new(Method::Get, api.endpoint.clone());

    let res = api.set_url(&mut req, "items", None, None);
    assert!(matches!(res, Err(ZoteroError::ScopeRequired)));
}

#[test]
fn set_url() {
    let api = test_api_with_mode();
    let mut req = Request::new(Method::Get, api.endpoint.clone());
    let res = api.set_url(&mut req, "items", None, None);

    assert!(res.is_ok());

    assert_eq!(
        req.url.as_str(),
        format!("https://api.zotero.org/users/{}/items", USER_ID)
    );
}
