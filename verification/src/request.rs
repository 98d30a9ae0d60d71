use vstd::prelude::*;
use vstd::string::*;
use crate::json::{spec_members, Json, JsonView};

verus! {

/// The HTTP method of a request.
#[derive(Debug, Clone, Copy, PartialEq, Eq, Structural)]
pub enum Method {
    Get,
    Post,
}

/// One HTTP request for the driver: where it goes and what it carries.
#[derive(Debug, PartialEq, Eq)]
pub struct Request {
    pub method: Method,
    pub url: String,
    pub body: Option<Json>,
}

/// A request as a mathematical value.
pub struct RequestView {
    pub method: Method,
    pub url: Seq<char>,
    pub body: Option<JsonView>,
}

impl View for Request {
    type V = RequestView;

    open spec fn view(&self) -> RequestView {
        RequestView {
            method: self.method,
            url: self.url@,
            body: match self.body {
                Some(doc) => Some(doc@),
                None => None,
            },
        }
    }
}

/// A `GET` of `url`, which carries no body.
pub open spec fn spec_get(url: Seq<char>) -> RequestView {
    RequestView { method: Method::Get, url, body: None }
}

/// A `POST` of `body` to `url`.
pub open spec fn spec_post(url: Seq<char>, body: JsonView) -> RequestView {
    RequestView { method: Method::Post, url, body: Some(body) }
}

/// The document `{"capabilities": caps}`.
pub open spec fn spec_capabilities_body(caps: JsonView) -> JsonView {
    JsonView::Object(seq![("capabilities"@, caps)])
}

/// The document `{"url": url}`.
pub open spec fn spec_url_body(url: Seq<char>) -> JsonView {
    JsonView::Object(seq![("url"@, JsonView::Text(url))])
}

/// The document `{"width": width, "height": height}`.
pub open spec fn spec_rect_body(width: u64, height: u64) -> JsonView {
    JsonView::Object(
        seq![("width"@, JsonView::Unsigned(width)), ("height"@, JsonView::Unsigned(height))],
    )
}

/// The document `{"script": code, "args": []}`.
pub open spec fn spec_script_body(code: Seq<char>) -> JsonView {
    JsonView::Object(
        seq![("script"@, JsonView::Text(code)), ("args"@, JsonView::Array(Seq::empty()))],
    )
}

/// The document `{"using": "css selector", "value": selector}`.
pub open spec fn spec_selector_body(selector: Seq<char>) -> JsonView {
    JsonView::Object(
        seq![("using"@, JsonView::Text("css selector"@)), ("value"@, JsonView::Text(selector))],
    )
}

/// An object with one member.
fn object_of_one(name: &str, value: Json) -> (r: Json)
    ensures
        r@ == JsonView::Object(seq![(name@, value@)]),
{
    let mut entries: Vec<(String, Json)> = Vec::new();
    entries.push((String::from_str(name), value));
    assert(spec_members(entries@) =~= seq![(name@, value@)]);
    Json::Object(entries)
}

/// An object with two members.
fn object_of_two(first: &str, a: Json, second: &str, b: Json) -> (r: Json)
    ensures
        r@ == JsonView::Object(seq![(first@, a@), (second@, b@)]),
{
    let mut entries: Vec<(String, Json)> = Vec::new();
    entries.push((String::from_str(first), a));
    entries.push((String::from_str(second), b));
    assert(spec_members(entries@) =~= seq![(first@, a@), (second@, b@)]);
    Json::Object(entries)
}

/// The body that asks for a session with the given capabilities, which are
/// passed on as they are.
pub fn capabilities_body(caps: Json) -> (r: Json)
    ensures
        r@ == spec_capabilities_body(caps@),
{
    object_of_one("capabilities", caps)
}

/// The body that names the page to open.
pub fn url_body(url: &str) -> (r: Json)
    ensures
        r@ == spec_url_body(url@),
{
    object_of_one("url", Json::Text(String::from_str(url)))
}

/// The body that asks for a window of the given size.
pub fn rect_body(width: usize, height: usize) -> (r: Json)
    ensures
        r@ == spec_rect_body(width as u64, height as u64),
{
    object_of_two("width", Json::Unsigned(width as u64), "height", Json::Unsigned(height as u64))
}

/// The body that carries a script to run, without arguments.
pub fn script_body(code: &str) -> (r: Json)
    ensures
        r@ == spec_script_body(code@),
{
    let args = Json::Array(Vec::new());
    assert(args@->Array_0 =~= Seq::<JsonView>::empty());
    object_of_two("script", Json::Text(String::from_str(code)), "args", args)
}

/// The body that looks an element up by a CSS selector.
pub fn selector_body(selector: &str) -> (r: Json)
    ensures
        r@ == spec_selector_body(selector@),
{
    object_of_two(
        "using",
        Json::Text(String::from_str("css selector")),
        "value",
        Json::Text(String::from_str(selector)),
    )
}

} // verus!
