use vstd::prelude::*;
use vstd::string::*;
use crate::json::{
    field, json_document, json_string, map_first_value, map_get, parse_json, quote_json,
    value_model, Json,
};
use crate::locator::{locator_token, WebDriverLocatorStrategy};

verus! {

/// Where the WebDriver server listens, and the capabilities that a new
/// session asks for, written as JSON text and sent as they are.
pub struct Config {
    pub gecko_driver_host: String,
    pub gecko_driver_port: String,
    pub gecko_driver_capabilities: String,
}

/// All the data the protocol operations need: the server to address and the
/// session, once one has been created.
pub struct WebDriverContext {
    pub config: Config,
    pub session_id: Option<String>,
}

#[derive(Clone, Copy, Debug, PartialEq, Eq, Structural)]
/// The HTTP methods the protocol operations use.
pub enum HttpMethod {
    Get,
    Post,
    Delete,
}

/// One request for the caller to send to the WebDriver server. A body, when
/// there is one, is JSON text.
pub struct HttpRequest {
    pub method: HttpMethod,
    pub url: String,
    pub body: Option<String>,
}

/// The answer of the WebDriver server to a request.
pub struct HttpResponse {
    pub status: u16,
    pub body: String,
}

#[derive(Debug, PartialEq, Eq)]
pub enum WebDriverError {
    /// The server could not be reached; the transport's own description.
    Transport(String),
    /// The server answered with a status outside the success class.
    Status(u16),
    /// The answer does not have the shape the operation expects.
    Decode,
    /// A session-scoped operation was asked for while no session is active.
    NoActiveSession,
    /// An element lookup found no element.
    NoSuchElement,
}

/// `http://{host}:{port}{path}`.
pub open spec fn server_url(config: Config, path: Seq<char>) -> Seq<char> {
    "http://"@ + config.gecko_driver_host@ + ":"@ + config.gecko_driver_port@ + path
}

/// `http://{host}:{port}/session/{session_id}{path}`.
pub open spec fn session_url(config: Config, session_id: Seq<char>, path: Seq<char>) -> Seq<char> {
    server_url(config, "/session/"@ + session_id + path)
}

/// `http://{host}:{port}{path}`.
pub fn make_webdriver_url(context: &WebDriverContext, path: &str) -> (r: String)
    ensures
        r@ == server_url(context.config, path@),
{
    let mut url = String::from_str("http://");
    url.append(context.config.gecko_driver_host.as_str());
    url.append(":");
    url.append(context.config.gecko_driver_port.as_str());
    url.append(path);
    url
}

/// `http://{host}:{port}/session/{session_id}{path}`.
pub fn make_webdriver_session_url(context: &WebDriverContext, session_id: &str, path: &str) -> (r: String)
    ensures
        r@ == session_url(context.config, session_id@, path@),
{
    let mut url = String::from_str("http://");
    url.append(context.config.gecko_driver_host.as_str());
    url.append(":");
    url.append(context.config.gecko_driver_port.as_str());
    url.append("/session/");
    url.append(session_id);
    url.append(path);
    assert(url@ =~= session_url(context.config, session_id@, path@));
    url
}

/// A decoded result, given as the text it carries, agrees with the exec result.
pub open spec fn agrees(r: Result<String, WebDriverError>, expected: Result<Seq<char>, WebDriverError>) -> bool {
    match r {
        Ok(s) => expected == Ok::<Seq<char>, WebDriverError>(s@),
        Err(e) => expected == Err::<Seq<char>, WebDriverError>(e),
    }
}

/// A new-session reply `{"value": {"sessionId": id, ...}}` gives `id`.
pub open spec fn session_id_in(doc: Json) -> Result<Seq<char>, WebDriverError> {
    match field(doc, "value"@) {
        Some(v) => match field(v, "sessionId"@) {
            Some(Json::Str(id)) => Ok(id),
            _ => Err(WebDriverError::Decode),
        },
        None => Err(WebDriverError::Decode),
    }
}

/// An element reply `{"value": {key: handle}}` gives `handle`, whatever the
/// key; an empty object means that no element matched.
pub open spec fn element_in(doc: Json) -> Result<Seq<char>, WebDriverError> {
    match field(doc, "value"@) {
        Some(Json::Object(entries)) => if entries.len() == 0 {
            Err(WebDriverError::NoSuchElement)
        } else if entries.len() == 1 {
            match entries[0].1 {
                Json::Str(handle) => Ok(handle),
                _ => Err(WebDriverError::Decode),
            }
        } else {
            Err(WebDriverError::Decode)
        },
        _ => Err(WebDriverError::Decode),
    }
}

/// A text reply `{"value": text}` gives `text`, exactly.
pub open spec fn text_in(doc: Json) -> Result<Seq<char>, WebDriverError> {
    match field(doc, "value"@) {
        Some(Json::Str(text)) => Ok(text),
        _ => Err(WebDriverError::Decode),
    }
}

/// Reads a reply body with `read`; a body that is no JSON document does not decode.
pub open spec fn read_body(body: Seq<char>, read: spec_fn(Json) -> Result<Seq<char>, WebDriverError>) -> Result<Seq<char>, WebDriverError> {
    match json_document(body) {
        Some(doc) => read(doc),
        None => Err(WebDriverError::Decode),
    }
}

/// What a new-session reply body gives.
pub open spec fn session_id_of(body: Seq<char>) -> Result<Seq<char>, WebDriverError> {
    read_body(body, |doc: Json| session_id_in(doc))
}

/// What an element reply body gives.
pub open spec fn element_of(body: Seq<char>) -> Result<Seq<char>, WebDriverError> {
    read_body(body, |doc: Json| element_in(doc))
}

/// What a text reply body gives.
pub open spec fn text_of(body: Seq<char>) -> Result<Seq<char>, WebDriverError> {
    read_body(body, |doc: Json| text_in(doc))
}

/// The member `key` of `v`, when `v` is an object that has it.
fn member_of<'a>(v: &'a serde_json::Value, key: &str) -> (r: Option<&'a serde_json::Value>)
    ensures
        match field(value_model(*v), key@) {
            Some(j) => r matches Some(m) && value_model(*m) == j,
            None => r is None,
        },
{
    match v.as_object() {
        Some(m) => map_get(m, key),
        None => None,
    }
}

/// Reads the session id out of a parsed new-session reply.
pub fn session_id_from_document(doc: &serde_json::Value) -> (r: Result<String, WebDriverError>)
    ensures
        agrees(r, session_id_in(value_model(*doc))),
{
    let value = match member_of(doc, "value") {
        Some(value) => value,
        None => return Err(WebDriverError::Decode),
    };
    match member_of(value, "sessionId") {
        Some(id) => match id.as_str() {
            Some(id) => Ok(String::from_str(id)),
            None => Err(WebDriverError::Decode),
        },
        None => Err(WebDriverError::Decode),
    }
}

/// Reads the element handle out of a parsed element reply: the one value of
/// the `value` object, whatever its key.
pub fn element_from_document(doc: &serde_json::Value) -> (r: Result<String, WebDriverError>)
    ensures
        agrees(r, element_in(value_model(*doc))),
{
    let value = match member_of(doc, "value") {
        Some(value) => value,
        None => return Err(WebDriverError::Decode),
    };
    let entries = match value.as_object() {
        Some(entries) => entries,
        None => return Err(WebDriverError::Decode),
    };
    let count = entries.len();
    if count == 0 {
        return Err(WebDriverError::NoSuchElement);
    }
    if count > 1 {
        return Err(WebDriverError::Decode);
    }
    match map_first_value(entries) {
        Some(handle) => match handle.as_str() {
            Some(handle) => Ok(String::from_str(handle)),
            None => Err(WebDriverError::Decode),
        },
        None => Err(WebDriverError::Decode),
    }
}

/// Reads the text out of a parsed text reply, exactly as sent.
pub fn text_from_document(doc: &serde_json::Value) -> (r: Result<String, WebDriverError>)
    ensures
        agrees(r, text_in(value_model(*doc))),
{
    match member_of(doc, "value") {
        Some(value) => match value.as_str() {
            Some(text) => Ok(String::from_str(text)),
            None => Err(WebDriverError::Decode),
        },
        None => Err(WebDriverError::Decode),
    }
}

/// Reads the session id out of a new-session reply body.
pub fn decode_session_id(body: &str) -> (r: Result<String, WebDriverError>)
    ensures
        agrees(r, session_id_of(body@)),
{
    match parse_json(body) {
        Some(doc) => session_id_from_document(&doc),
        None => Err(WebDriverError::Decode),
    }
}

/// Reads the element handle out of an element reply body.
pub fn decode_element(body: &str) -> (r: Result<String, WebDriverError>)
    ensures
        agrees(r, element_of(body@)),
{
    match parse_json(body) {
        Some(doc) => element_from_document(&doc),
        None => Err(WebDriverError::Decode),
    }
}

/// Reads the text out of a text reply body.
pub fn decode_text(body: &str) -> (r: Result<String, WebDriverError>)
    ensures
        agrees(r, text_of(body@)),
{
    match parse_json(body) {
        Some(doc) => text_from_document(&doc),
        None => Err(WebDriverError::Decode),
    }
}

/// A request as method, URL and body text.
pub type RequestView = (HttpMethod, Seq<char>, Option<Seq<char>>);

/// The method, URL and body text of a request.
pub open spec fn request_view(q: HttpRequest) -> RequestView {
    (q.method, q.url@, match q.body {
        Some(b) => Some(b@),
        None => None,
    })
}

/// The request built agrees with the one expected, or both are the same error.
pub open spec fn issues(r: Result<HttpRequest, WebDriverError>, expected: Result<RequestView, WebDriverError>) -> bool {
    match r {
        Ok(q) => expected == Ok::<RequestView, WebDriverError>(request_view(q)),
        Err(e) => expected == Err::<RequestView, WebDriverError>(e),
    }
}

/// The session a context holds, as text.
pub open spec fn session_of(context: WebDriverContext) -> Option<Seq<char>> {
    match context.session_id {
        Some(id) => Some(id@),
        None => None,
    }
}

/// `{"capabilities": caps}`, with the capabilities as JSON text.
pub open spec fn new_session_body_of(capabilities: Seq<char>) -> Seq<char> {
    "{\"capabilities\":"@ + capabilities + "}"@
}

/// `{"url": url}`, with the URL already written as a JSON string.
pub open spec fn navigate_body_of(quoted_url: Seq<char>) -> Seq<char> {
    "{\"url\":"@ + quoted_url + "}"@
}

/// `{"using": token, "value": value}`, with both already written as JSON strings.
pub open spec fn element_body_of(quoted_using: Seq<char>, quoted_value: Seq<char>) -> Seq<char> {
    "{\"using\":"@ + quoted_using + ",\"value\":"@ + quoted_value + "}"@
}

/// The body of the new-session request.
pub fn new_session_body(capabilities: &str) -> (r: String)
    ensures
        r@ == new_session_body_of(capabilities@),
{
    let mut body = String::from_str("{\"capabilities\":");
    body.append(capabilities);
    body.append("}");
    body
}

/// The body of the navigate request, from the URL written as a JSON string.
pub fn navigate_body(quoted_url: &str) -> (r: String)
    ensures
        r@ == navigate_body_of(quoted_url@),
{
    let mut body = String::from_str("{\"url\":");
    body.append(quoted_url);
    body.append("}");
    body
}

/// The body of the element request, from the strategy token and the locator
/// written as JSON strings.
pub fn element_body(quoted_using: &str, quoted_value: &str) -> (r: String)
    ensures
        r@ == element_body_of(quoted_using@, quoted_value@),
{
    let mut body = String::from_str("{\"using\":");
    body.append(quoted_using);
    body.append(",\"value\":");
    body.append(quoted_value);
    body.append("}");
    assert(body@ =~= element_body_of(quoted_using@, quoted_value@));
    body
}

/// `POST /session` with `{"capabilities": caps}`.
pub open spec fn new_session_request(config: Config) -> RequestView {
    (
        HttpMethod::Post,
        server_url(config, "/session"@),
        Some(new_session_body_of(config.gecko_driver_capabilities@)),
    )
}

/// A request addressed under the active session; none without a session.
pub open spec fn in_session(
    config: Config,
    session: Option<Seq<char>>,
    method: HttpMethod,
    path: Seq<char>,
    body: Option<Seq<char>>,
) -> Result<RequestView, WebDriverError> {
    match session {
        Some(id) => Ok((method, session_url(config, id, path), body)),
        None => Err(WebDriverError::NoActiveSession),
    }
}

/// `DELETE /session/{id}`.
pub open spec fn delete_session_request_of(config: Config, session: Option<Seq<char>>) -> Result<RequestView, WebDriverError> {
    in_session(config, session, HttpMethod::Delete, Seq::empty(), None)
}

/// `POST /session/{id}/url` with `{"url": url}`.
pub open spec fn navigate_request_of(config: Config, session: Option<Seq<char>>, url: Seq<char>) -> Result<RequestView, WebDriverError> {
    in_session(config, session, HttpMethod::Post, "/url"@, Some(navigate_body_of(json_string(url))))
}

/// `POST /session/{id}/element` with `{"using": token, "value": value}`.
pub open spec fn element_request_of(
    config: Config,
    session: Option<Seq<char>>,
    using: WebDriverLocatorStrategy,
    value: Seq<char>,
) -> Result<RequestView, WebDriverError> {
    in_session(
        config,
        session,
        HttpMethod::Post,
        "/element"@,
        Some(element_body_of(json_string(locator_token(using)), json_string(value))),
    )
}

/// `GET /session/{id}/element/{element}/text`.
pub open spec fn text_request_of(config: Config, session: Option<Seq<char>>, element: Seq<char>) -> Result<RequestView, WebDriverError> {
    in_session(config, session, HttpMethod::Get, "/element/"@ + element + "/text"@, None)
}

/// The request that creates a session.
pub fn create_session_request(context: &WebDriverContext) -> (r: HttpRequest)
    ensures
        request_view(r) == new_session_request(context.config),
{
    let url = make_webdriver_url(context, "/session");
    let body = new_session_body(context.config.gecko_driver_capabilities.as_str());
    HttpRequest { method: HttpMethod::Post, url, body: Some(body) }
}

/// The request that deletes the active session.
pub fn delete_session_request(context: &WebDriverContext) -> (r: Result<HttpRequest, WebDriverError>)
    ensures
        issues(r, delete_session_request_of(context.config, session_of(*context))),
{
    let id = match &context.session_id {
        Some(id) => id,
        None => return Err(WebDriverError::NoActiveSession),
    };
    let url = make_webdriver_session_url(context, id.as_str(), "");
    proof {
        reveal_strlit("");
    }
    assert(url@ =~= session_url(context.config, id@, Seq::empty()));
    Ok(HttpRequest { method: HttpMethod::Delete, url, body: None })
}

/// The request that sends the active session to `url`.
pub fn navigate_request(context: &WebDriverContext, url: &str) -> (r: Result<HttpRequest, WebDriverError>)
    ensures
        issues(r, navigate_request_of(context.config, session_of(*context), url@)),
{
    let id = match &context.session_id {
        Some(id) => id,
        None => return Err(WebDriverError::NoActiveSession),
    };
    let target = make_webdriver_session_url(context, id.as_str(), "/url");
    let quoted = quote_json(url);
    let body = navigate_body(quoted.as_str());
    Ok(HttpRequest { method: HttpMethod::Post, url: target, body: Some(body) })
}

/// The request that looks up an element of the active session.
pub fn get_element_request(context: &WebDriverContext, using: WebDriverLocatorStrategy, value: &str) -> (r: Result<HttpRequest, WebDriverError>)
    ensures
        issues(r, element_request_of(context.config, session_of(*context), using, value@)),
{
    let id = match &context.session_id {
        Some(id) => id,
        None => return Err(WebDriverError::NoActiveSession),
    };
    let target = make_webdriver_session_url(context, id.as_str(), "/element");
    let token = quote_json(using.as_str());
    let quoted = quote_json(value);
    let body = element_body(token.as_str(), quoted.as_str());
    Ok(HttpRequest { method: HttpMethod::Post, url: target, body: Some(body) })
}

/// The request that reads the visible text of `element`.
pub fn get_text_request(context: &WebDriverContext, element: &str) -> (r: Result<HttpRequest, WebDriverError>)
    ensures
        issues(r, text_request_of(context.config, session_of(*context), element@)),
{
    let id = match &context.session_id {
        Some(id) => id,
        None => return Err(WebDriverError::NoActiveSession),
    };
    let mut path = String::from_str("/element/");
    path.append(element);
    path.append("/text");
    let target = make_webdriver_session_url(context, id.as_str(), path.as_str());
    Ok(HttpRequest { method: HttpMethod::Get, url: target, body: None })
}

/// What the caller's exchange with the server came to: the server's answer,
/// or the transport's description of why there was none.
pub type Outcome = Result<HttpResponse, String>;

/// The body of an answer in the success class (2xx), or the error the
/// exchange came to.
pub open spec fn accepted(outcome: Outcome) -> Result<Seq<char>, WebDriverError> {
    match outcome {
        Ok(response) => if 200 <= response.status < 300 {
            Ok(response.body@)
        } else {
            Err(WebDriverError::Status(response.status))
        },
        Err(message) => Err(WebDriverError::Transport(message)),
    }
}

/// Decodes an accepted body with `decode`; an exchange that failed keeps its error.
pub open spec fn decoded(outcome: Outcome, decode: spec_fn(Seq<char>) -> Result<Seq<char>, WebDriverError>) -> Result<Seq<char>, WebDriverError> {
    match accepted(outcome) {
        Ok(body) => decode(body),
        Err(e) => Err(e),
    }
}

/// What a session-scoped operation comes to: a usage error without a session.
pub open spec fn scoped<T>(session: Option<Seq<char>>, result: Result<T, WebDriverError>) -> Result<T, WebDriverError> {
    match session {
        Some(_) => result,
        None => Err(WebDriverError::NoActiveSession),
    }
}

/// The session state after create-session: the new session id, or the error.
pub open spec fn create_step(outcome: Outcome) -> Result<Option<Seq<char>>, WebDriverError> {
    match decoded(outcome, |b: Seq<char>| session_id_of(b)) {
        Ok(id) => Ok(Some(id)),
        Err(e) => Err(e),
    }
}

/// The session state after delete-session: no session, or the error.
pub open spec fn delete_step(session: Option<Seq<char>>, outcome: Outcome) -> Result<Option<Seq<char>>, WebDriverError> {
    scoped(session, match accepted(outcome) {
        Ok(_) => Ok(None),
        Err(e) => Err(e),
    })
}

/// What navigate comes to.
pub open spec fn navigate_step(session: Option<Seq<char>>, outcome: Outcome) -> Result<(), WebDriverError> {
    scoped(session, match accepted(outcome) {
        Ok(_) => Ok(()),
        Err(e) => Err(e),
    })
}

/// What an element lookup comes to: the element handle, or the error.
pub open spec fn element_step(session: Option<Seq<char>>, outcome: Outcome) -> Result<Seq<char>, WebDriverError> {
    scoped(session, decoded(outcome, |b: Seq<char>| element_of(b)))
}

/// What reading an element's text comes to: the text, or the error.
pub open spec fn text_step(session: Option<Seq<char>>, outcome: Outcome) -> Result<Seq<char>, WebDriverError> {
    scoped(session, decoded(outcome, |b: Seq<char>| text_of(b)))
}

/// The body of an answer in the success class, or the error.
pub fn accept(outcome: Outcome) -> (r: Result<String, WebDriverError>)
    ensures
        agrees(r, accepted(outcome)),
{
    match outcome {
        Ok(response) => if 200 <= response.status && response.status < 300 {
            Ok(response.body)
        } else {
            Err(WebDriverError::Status(response.status))
        },
        Err(message) => Err(WebDriverError::Transport(message)),
    }
}

/// Takes the server's answer to the create-session request: on success the
/// context holds the new session; on failure it is left as it was.
pub fn create_session(context: &mut WebDriverContext, outcome: Outcome) -> (r: Result<(), WebDriverError>)
    ensures
        final(context).config == old(context).config,
        match create_step(outcome) {
            Ok(session) => r is Ok && session_of(*final(context)) == session,
            Err(e) => r == Err::<(), WebDriverError>(e) && *final(context) == *old(context),
        },
{
    let body = match accept(outcome) {
        Ok(body) => body,
        Err(e) => return Err(e),
    };
    match decode_session_id(body.as_str()) {
        Ok(id) => {
            context.session_id = Some(id);
            Ok(())
        },
        Err(e) => Err(e),
    }
}

/// Takes the server's answer to the delete-session request: on success the
/// context holds no session; on failure it is left as it was.
pub fn delete_session(context: &mut WebDriverContext, outcome: Outcome) -> (r: Result<(), WebDriverError>)
    ensures
        final(context).config == old(context).config,
        match delete_step(session_of(*old(context)), outcome) {
            Ok(session) => r is Ok && session_of(*final(context)) == session,
            Err(e) => r == Err::<(), WebDriverError>(e) && *final(context) == *old(context),
        },
{
    if context.session_id.is_none() {
        return Err(WebDriverError::NoActiveSession);
    }
    match accept(outcome) {
        Ok(_) => {
            context.session_id = None;
            Ok(())
        },
        Err(e) => Err(e),
    }
}

/// Takes the server's answer to the navigate request.
pub fn navigate(context: &WebDriverContext, outcome: Outcome) -> (r: Result<(), WebDriverError>)
    ensures
        r == navigate_step(session_of(*context), outcome),
{
    if context.session_id.is_none() {
        return Err(WebDriverError::NoActiveSession);
    }
    match accept(outcome) {
        Ok(_) => Ok(()),
        Err(e) => Err(e),
    }
}

/// Takes the server's answer to the element lookup: the element handle.
pub fn get_element(context: &WebDriverContext, outcome: Outcome) -> (r: Result<String, WebDriverError>)
    ensures
        agrees(r, element_step(session_of(*context), outcome)),
{
    if context.session_id.is_none() {
        return Err(WebDriverError::NoActiveSession);
    }
    match accept(outcome) {
        Ok(body) => decode_element(body.as_str()),
        Err(e) => Err(e),
    }
}

/// Takes the server's answer to the text request: the element's visible text.
pub fn get_text(context: &WebDriverContext, outcome: Outcome) -> (r: Result<String, WebDriverError>)
    ensures
        agrees(r, text_step(session_of(*context), outcome)),
{
    if context.session_id.is_none() {
        return Err(WebDriverError::NoActiveSession);
    }
    match accept(outcome) {
        Ok(body) => decode_text(body.as_str()),
        Err(e) => Err(e),
    }
}

/// Creating a session and deleting it right away succeeds with no call in
/// between: when the server accepts both requests, create-session leaves a
/// session, the delete request is addressed to that session, and
/// delete-session leaves none.
pub proof fn lemma_create_then_delete(config: Config, created: Outcome, deleted: Outcome)
    requires
        create_step(created) is Ok,
        accepted(deleted) is Ok,
    ensures
        create_step(created) matches Ok(Some(id)) && delete_session_request_of(config, Some(id))
            == Ok::<RequestView, WebDriverError>((HttpMethod::Delete, session_url(config, id, Seq::empty()), None))
            && delete_step(Some(id), deleted) == Ok::<Option<Seq<char>>, WebDriverError>(None),
{
}

/// Without an active session every session-scoped operation is a usage
/// error: no request is built, whatever the arguments, and no answer is read,
/// whatever it holds.
pub proof fn lemma_no_session_no_request(
    config: Config,
    url: Seq<char>,
    using: WebDriverLocatorStrategy,
    value: Seq<char>,
    element: Seq<char>,
    outcome: Outcome,
)
    ensures
        navigate_request_of(config, None, url) == Err::<RequestView, WebDriverError>(WebDriverError::NoActiveSession),
        element_request_of(config, None, using, value) == Err::<RequestView, WebDriverError>(WebDriverError::NoActiveSession),
        text_request_of(config, None, element) == Err::<RequestView, WebDriverError>(WebDriverError::NoActiveSession),
        delete_session_request_of(config, None) == Err::<RequestView, WebDriverError>(WebDriverError::NoActiveSession),
        navigate_step(None, outcome) == Err::<(), WebDriverError>(WebDriverError::NoActiveSession),
        element_step(None, outcome) == Err::<Seq<char>, WebDriverError>(WebDriverError::NoActiveSession),
        text_step(None, outcome) == Err::<Seq<char>, WebDriverError>(WebDriverError::NoActiveSession),
        delete_step(None, outcome) == Err::<Option<Seq<char>>, WebDriverError>(WebDriverError::NoActiveSession),
{
}

/// A session URL ends with the path exactly as given, after
/// `/session/{id}`: the path is neither checked nor normalised.
pub proof fn lemma_session_url_keeps_path(config: Config, session_id: Seq<char>, path: Seq<char>)
    ensures
        ({
            let u = session_url(config, session_id, path);
            let prefix = server_url(config, "/session/"@ + session_id);
            &&& u.len() == prefix.len() + path.len()
            &&& u.subrange(0, prefix.len() as int) == prefix
            &&& u.subrange(prefix.len() as int, u.len() as int) == path
        }),
{
    let u = session_url(config, session_id, path);
    let prefix = server_url(config, "/session/"@ + session_id);
    assert(u =~= prefix + path);
    assert(u.subrange(0, prefix.len() as int) =~= prefix);
    assert(u.subrange(prefix.len() as int, u.len() as int) =~= path);
}

} // verus!
