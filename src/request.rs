use vstd::prelude::*;

use crate::button::{token_of, Button};

verus! {

/// The HTTP client that carries the requests of a [`TransportSpeculosHttp`].
#[verifier::external_type_specification]
#[verifier::external_body]
pub struct ExClient(reqwest::Client);

/// The HTTP method of a request.
#[derive(Debug, Clone, Copy, PartialEq, Eq, Structural)]
pub enum Method {
    Get,
    Post,
    Delete,
}

/// One `key=value` pair of a query string.
#[derive(Debug)]
pub struct QueryParam {
    pub key: String,
    pub value: String,
}

impl View for QueryParam {
    type V = (Seq<char>, Seq<char>);

    open spec fn view(&self) -> (Seq<char>, Seq<char>) {
        (self.key@, self.value@)
    }
}

/// A request to the emulator, described as plain values: what is to be sent,
/// not the sending of it.
#[derive(Debug)]
pub struct Request {
    pub method: Method,
    /// The full URL, without the query string.
    pub url: String,
    /// The query parameters, in the order in which they are to be sent.
    pub query: Vec<QueryParam>,
    /// Whether the request declares that it accepts a JSON response.
    pub accept_json: bool,
    /// The JSON text sent as the body, if any.
    pub json_body: Option<String>,
}

pub struct RequestView {
    pub method: Method,
    pub url: Seq<char>,
    pub query: Seq<(Seq<char>, Seq<char>)>,
    pub accept_json: bool,
    pub json_body: Option<Seq<char>>,
}

impl View for Request {
    type V = RequestView;

    open spec fn view(&self) -> RequestView {
        RequestView {
            method: self.method,
            url: self.url@,
            query: self.query@.map_values(|p: QueryParam| p@),
            accept_json: self.accept_json,
            json_body: match self.json_body {
                Some(b) => Some(b@),
                None => None,
            },
        }
    }
}

/// The body of a button request: a single press followed by a release.
pub open spec fn press_body() -> Seq<char> {
    "{\"action\":\"press-and-release\"}"@
}

pub open spec fn button_url(base: Seq<char>, b: Button) -> Seq<char> {
    base + "/button/"@ + token_of(b)
}

pub open spec fn events_url(base: Seq<char>) -> Seq<char> {
    base + "/events"@
}

/// The query of an event listing: `currentscreenonly=true` only when asked
/// for, then always `stream=false`.
pub open spec fn events_query(current_screen_only: bool) -> Seq<(Seq<char>, Seq<char>)> {
    if current_screen_only {
        seq![("currentscreenonly"@, "true"@), ("stream"@, "false"@)]
    } else {
        seq![("stream"@, "false"@)]
    }
}

/// A request is the press of a button.
pub open spec fn is_button_request(r: RequestView, base: Seq<char>, b: Button) -> bool {
    &&& r.method == Method::Post
    &&& r.url == button_url(base, b)
    &&& r.query.len() == 0
    &&& !r.accept_json
    &&& r.json_body == Some(press_body())
}

/// A request lists the emulator's events.
pub open spec fn is_events_request(r: RequestView, base: Seq<char>, current_screen_only: bool) -> bool {
    &&& r.method == Method::Get
    &&& r.url == events_url(base)
    &&& r.query == events_query(current_screen_only)
    &&& r.accept_json
    &&& r.json_body is None
}

/// A request clears the emulator's event log.
pub open spec fn is_reset_request(r: RequestView, base: Seq<char>) -> bool {
    &&& r.method == Method::Delete
    &&& r.url == events_url(base)
    &&& r.query.len() == 0
    &&& !r.accept_json
    &&& r.json_body is None
}

/// Listing the current screen's events sends `currentscreenonly=true`;
/// listing all events leaves that parameter out altogether, rather than
/// sending it as `false`. Both send `stream=false`.
pub proof fn lemma_events_query(r: RequestView, base: Seq<char>, current_screen_only: bool)
    requires
        is_events_request(r, base, current_screen_only),
    ensures
        r.query.contains(("stream"@, "false"@)),
        current_screen_only ==> r.query.contains(("currentscreenonly"@, "true"@)),
        !current_screen_only ==> forall|i: int|
            0 <= i < r.query.len() ==> (#[trigger] r.query[i]).0 != "currentscreenonly"@,
{
    reveal_strlit("stream");
    reveal_strlit("currentscreenonly");
    if current_screen_only {
        assert(r.query[0] == ("currentscreenonly"@, "true"@));
        assert(r.query[1] == ("stream"@, "false"@));
    } else {
        assert(r.query[0] == ("stream"@, "false"@));
        assert("stream"@[0] != "currentscreenonly"@[0]);
    }
}

fn query_param(key: &str, value: &str) -> (r: QueryParam)
    ensures
        r@ == (key@, value@),
{
    QueryParam { key: String::from_str(key), value: String::from_str(value) }
}

/// The emulator's HTTP interface, reached under one base URL through one
/// client.
pub struct TransportSpeculosHttp {
    pub url: String,
    pub client: reqwest::Client,
}

impl TransportSpeculosHttp {
    pub fn new(url: String, client: reqwest::Client) -> (r: Self)
        ensures
            r.url@ == url@,
    {
        TransportSpeculosHttp { url, client }
    }

    /// The request that presses and releases `button`.
    pub fn button(&self, button: Button) -> (r: Request)
        ensures
            is_button_request(r@, self.url@, button),
    {
        let url = self.url.clone().concat("/button/").concat(button.token());
        let body = String::from_str("{\"action\":\"press-and-release\"}");
        Request {
            method: Method::Post,
            url,
            query: Vec::new(),
            accept_json: false,
            json_body: Some(body),
        }
    }

    /// The request that lists the events that the app has produced, all of
    /// them or those of the current screen only.
    pub fn events(&self, current_screen_only: bool) -> (r: Request)
        ensures
            is_events_request(r@, self.url@, current_screen_only),
    {
        let url = self.url.clone().concat("/events");
        let mut query: Vec<QueryParam> = Vec::new();
        if current_screen_only {
            query.push(query_param("currentscreenonly", "true"));
        }
        query.push(query_param("stream", "false"));
        let r = Request { method: Method::Get, url, query, accept_json: true, json_body: None };
        assert(r@.query =~= events_query(current_screen_only));
        r
    }

    /// The request that clears the device's event list.
    pub fn reset_events(&self) -> (r: Request)
        ensures
            is_reset_request(r@, self.url@),
    {
        let url = self.url.clone().concat("/events");
        Request { method: Method::Delete, url, query: Vec::new(), accept_json: false, json_body: None }
    }

    /// Taking a screenshot is not supported: this does nothing and sends
    /// nothing.
    pub fn screenshot(&self) {
    }
}

} // verus!
