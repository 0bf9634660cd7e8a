use webdriver_client::locator::WebDriverLocatorStrategy;
use webdriver_client::webdriver::{
    accept, create_session, element_body, navigate_body, new_session_body, create_session_request, decode_element, decode_session_id,
    decode_text, delete_session, delete_session_request, element_from_document, get_element,
    get_element_request, get_text, get_text_request, make_webdriver_session_url,
    make_webdriver_url, navigate, navigate_request, Config, HttpMethod, HttpResponse,
    WebDriverContext, WebDriverError,
};

fn context(capabilities: &str) -> WebDriverContext {
    WebDriverContext {
        config: Config {
            gecko_driver_host: "localhost".to_string(),
            gecko_driver_port: "4444".to_string(),
            gecko_driver_capabilities: capabilities.to_string(),
        },
        session_id: None,
    }
}

fn with_session(id: &str) -> WebDriverContext {
    let mut c = context("{}");
    c.session_id = Some(id.to_string());
    c
}

fn ok(body: &str) -> Result<HttpResponse, String> {
    Ok(HttpResponse { status: 200, body: body.to_string() })
}

#[test]
fn session_url_is_built_verbatim() {
    let c = context("{}");
    assert_eq!(
        make_webdriver_session_url(&c, "abc", "/url"),
        "http://localhost:4444/session/abc/url"
    );
    assert_eq!(
        make_webdriver_session_url(&c, "abc", "//a/../b"),
        "http://localhost:4444/session/abc//a/../b"
    );
}

#[test]
fn server_url_is_built_verbatim() {
    let c = context("{}");
    assert_eq!(make_webdriver_url(&c, "/session"), "http://localhost:4444/session");
    assert_eq!(make_webdriver_url(&c, ""), "http://localhost:4444");
}

#[test]
fn locator_tokens() {
    let all = [
        (WebDriverLocatorStrategy::Css, "css selector"),
        (WebDriverLocatorStrategy::LinkText, "link text"),
        (WebDriverLocatorStrategy::PartialLinkText, "partial link text"),
        (WebDriverLocatorStrategy::TagName, "tag name"),
        (WebDriverLocatorStrategy::XPath, "xpath"),
    ];
    for (s, token) in all.iter() {
        assert_eq!(s.as_str(), *token);
    }
    for (a, _) in all.iter() {
        for (b, _) in all.iter() {
            assert_eq!(a == b, a.as_str() == b.as_str());
        }
    }
}

#[test]
fn element_handle_ignores_key_name() {
    let body = r#"{"value": {"element-6066-11e4-a52e-4f735466cecf": "elem-1"}}"#;
    assert_eq!(decode_element(body), Ok("elem-1".to_string()));
    assert_eq!(decode_element(r#"{"value": {"other": "elem-2"}}"#), Ok("elem-2".to_string()));
}

#[test]
fn element_lookup_empty_is_no_such_element() {
    assert_eq!(decode_element(r#"{"value": {}}"#), Err(WebDriverError::NoSuchElement));
}

#[test]
fn element_lookup_bad_shapes_do_not_decode() {
    assert_eq!(decode_element(r#"{"value": {"a": "x", "b": "y"}}"#), Err(WebDriverError::Decode));
    assert_eq!(decode_element(r#"{"value": {"a": 3}}"#), Err(WebDriverError::Decode));
    assert_eq!(decode_element(r#"{"value": "x"}"#), Err(WebDriverError::Decode));
    assert_eq!(decode_element(r#"{"other": {"a": "x"}}"#), Err(WebDriverError::Decode));
    assert_eq!(decode_element("not json"), Err(WebDriverError::Decode));
}

#[test]
fn element_from_parsed_document() {
    let doc: serde_json::Value = serde_json::from_str(r#"{"value": {"k": "elem-9"}}"#).unwrap();
    assert_eq!(element_from_document(&doc), Ok("elem-9".to_string()));
}

#[test]
fn text_is_returned_exactly() {
    assert_eq!(decode_text(r#"{"value": "Hello, World"}"#), Ok("Hello, World".to_string()));
    assert_eq!(decode_text(r#"{"value": "  padded \n"}"#), Ok("  padded \n".to_string()));
    assert_eq!(decode_text(r#"{"value": "café"}"#), Ok("café".to_string()));
}

#[test]
fn text_bad_shapes_do_not_decode() {
    assert_eq!(decode_text(r#"{"value": 5}"#), Err(WebDriverError::Decode));
    assert_eq!(decode_text(r#"{}"#), Err(WebDriverError::Decode));
    assert_eq!(decode_text(r#"["value"]"#), Err(WebDriverError::Decode));
}

#[test]
fn session_id_is_decoded() {
    let body = r#"{"value": {"sessionId": "s-1", "capabilities": {"browserName": "firefox"}}}"#;
    assert_eq!(decode_session_id(body), Ok("s-1".to_string()));
    assert_eq!(decode_session_id(r#"{"value": {"id": "s-1"}}"#), Err(WebDriverError::Decode));
    assert_eq!(decode_session_id(r#"{"value": {"sessionId": 1}}"#), Err(WebDriverError::Decode));
}

#[test]
fn accept_separates_transport_and_status() {
    assert_eq!(accept(ok("b")), Ok("b".to_string()));
    assert_eq!(
        accept(Ok(HttpResponse { status: 204, body: String::new() })),
        Ok(String::new())
    );
    assert_eq!(
        accept(Ok(HttpResponse { status: 404, body: "x".to_string() })),
        Err(WebDriverError::Status(404))
    );
    assert_eq!(
        accept(Ok(HttpResponse { status: 300, body: "x".to_string() })),
        Err(WebDriverError::Status(300))
    );
    assert_eq!(
        accept(Err("refused".to_string())),
        Err(WebDriverError::Transport("refused".to_string()))
    );
}

#[test]
fn no_session_means_usage_error() {
    let mut c = context("{}");
    assert!(matches!(navigate_request(&c, "http://example.com"), Err(WebDriverError::NoActiveSession)));
    assert!(matches!(
        get_element_request(&c, WebDriverLocatorStrategy::TagName, "html"),
        Err(WebDriverError::NoActiveSession)
    ));
    assert!(matches!(get_text_request(&c, "e"), Err(WebDriverError::NoActiveSession)));
    assert!(matches!(delete_session_request(&c), Err(WebDriverError::NoActiveSession)));
    assert_eq!(navigate(&c, ok("{}")), Err(WebDriverError::NoActiveSession));
    assert_eq!(get_element(&c, ok(r#"{"value": {"k": "e"}}"#)), Err(WebDriverError::NoActiveSession));
    assert_eq!(get_text(&c, ok(r#"{"value": "t"}"#)), Err(WebDriverError::NoActiveSession));
    assert_eq!(delete_session(&mut c, ok("{}")), Err(WebDriverError::NoActiveSession));
}

#[test]
fn create_then_delete_round_trip() {
    let mut c = context(r#"{"browserName":"firefox"}"#);
    let q = create_session_request(&c);
    assert_eq!(q.method, HttpMethod::Post);
    assert_eq!(q.url, "http://localhost:4444/session");
    assert_eq!(q.body.as_deref(), Some(r#"{"capabilities":{"browserName":"firefox"}}"#));
    assert_eq!(create_session(&mut c, ok(r#"{"value": {"sessionId": "s-7"}}"#)), Ok(()));
    assert_eq!(c.session_id.as_deref(), Some("s-7"));
    let q = delete_session_request(&c).unwrap();
    assert_eq!(q.method, HttpMethod::Delete);
    assert_eq!(q.url, "http://localhost:4444/session/s-7");
    assert!(q.body.is_none());
    assert_eq!(delete_session(&mut c, ok("{\"value\": null}")), Ok(()));
    assert!(c.session_id.is_none());
}

#[test]
fn failed_create_leaves_no_session() {
    let mut c = context("{}");
    assert_eq!(
        create_session(&mut c, Ok(HttpResponse { status: 500, body: "{}".to_string() })),
        Err(WebDriverError::Status(500))
    );
    assert!(c.session_id.is_none());
    assert_eq!(create_session(&mut c, ok("{\"value\": {}}")), Err(WebDriverError::Decode));
    assert!(c.session_id.is_none());
    assert_eq!(
        create_session(&mut c, Err("refused".to_string())),
        Err(WebDriverError::Transport("refused".to_string()))
    );
    assert!(c.session_id.is_none());
}

#[test]
fn failed_delete_keeps_session() {
    let mut c = with_session("s-1");
    assert_eq!(
        delete_session(&mut c, Ok(HttpResponse { status: 404, body: String::new() })),
        Err(WebDriverError::Status(404))
    );
    assert_eq!(c.session_id.as_deref(), Some("s-1"));
}

#[test]
fn request_bodies_escape_strings() {
    let c = with_session("s-1");
    let q = navigate_request(&c, "http://e.com/\"x\"").unwrap();
    assert_eq!(q.body.as_deref(), Some(r#"{"url":"http://e.com/\"x\""}"#));
    let q = get_element_request(&c, WebDriverLocatorStrategy::Css, "a[href=\"b\"]").unwrap();
    assert_eq!(q.body.as_deref(), Some(r#"{"using":"css selector","value":"a[href=\"b\"]"}"#));
}

#[test]
fn end_to_end_scenario() {
    let mut c = context("{}");

    let q = create_session_request(&c);
    assert_eq!(q.method, HttpMethod::Post);
    assert_eq!(q.url, "http://localhost:4444/session");
    assert_eq!(q.body.as_deref(), Some(r#"{"capabilities":{}}"#));
    assert_eq!(create_session(&mut c, ok(r#"{"value": {"sessionId": "abc"}}"#)), Ok(()));

    let q = navigate_request(&c, "http://example.com").unwrap();
    assert_eq!(q.method, HttpMethod::Post);
    assert_eq!(q.url, "http://localhost:4444/session/abc/url");
    assert_eq!(q.body.as_deref(), Some(r#"{"url":"http://example.com"}"#));
    assert_eq!(navigate(&c, ok(r#"{"value": null}"#)), Ok(()));

    let q = get_element_request(&c, WebDriverLocatorStrategy::TagName, "html").unwrap();
    assert_eq!(q.method, HttpMethod::Post);
    assert_eq!(q.url, "http://localhost:4444/session/abc/element");
    assert_eq!(q.body.as_deref(), Some(r#"{"using":"tag name","value":"html"}"#));
    let element = get_element(
        &c,
        ok(r#"{"value": {"element-6066-11e4-a52e-4f735466cecf": "elem-1"}}"#),
    )
    .unwrap();
    assert_eq!(element, "elem-1");

    let q = get_text_request(&c, &element).unwrap();
    assert_eq!(q.method, HttpMethod::Get);
    assert_eq!(q.url, "http://localhost:4444/session/abc/element/elem-1/text");
    assert!(q.body.is_none());
    assert_eq!(get_text(&c, ok(r#"{"value": "Example Domain"}"#)), Ok("Example Domain".to_string()));

    let q = delete_session_request(&c).unwrap();
    assert_eq!(q.method, HttpMethod::Delete);
    assert_eq!(q.url, "http://localhost:4444/session/abc");
    assert_eq!(delete_session(&mut c, ok(r#"{"value": null}"#)), Ok(()));
    assert!(c.session_id.is_none());
}

#[test]
fn element_lookup_reports_status_failure() {
    let c = with_session("s-1");
    assert_eq!(
        get_element(&c, Ok(HttpResponse { status: 404, body: "{}".to_string() })),
        Err(WebDriverError::Status(404))
    );
    assert_eq!(get_element(&c, ok(r#"{"value": {}}"#)), Err(WebDriverError::NoSuchElement));
}

#[test]
fn bodies_from_quoted_pieces() {
    assert_eq!(new_session_body("{}"), r#"{"capabilities":{}}"#);
    assert_eq!(navigate_body(r#""http://example.com""#), r#"{"url":"http://example.com"}"#);
    assert_eq!(
        element_body(r#""tag name""#, r#""html""#),
        r#"{"using":"tag name","value":"html"}"#
    );
}
