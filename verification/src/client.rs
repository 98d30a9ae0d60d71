use vstd::prelude::*;
use vstd::string::*;
use crate::error::WebDriverError;
use crate::json::Json;
use crate::reply::{spec_session_id, Reply};
use crate::request::{
    rect_body, script_body, selector_body, spec_get, spec_post, spec_rect_body, spec_script_body,
    spec_selector_body, spec_url_body, url_body, Method, Request,
};
use crate::text::{
    base_url, command_url, element_screenshot_path, spec_base_url, spec_command_url,
    spec_element_screenshot_path,
};

verus! {

/// An open session with a driver: the driver's address and the identifier
/// that the driver gave the session. Both are set once, when the session is
/// opened, and never change.
#[derive(Debug, PartialEq, Eq)]
pub struct WebDriver {
    url: String,
    session_id: String,
}

/// What a session is made of.
pub struct WebDriverView {
    pub url: Seq<char>,
    pub session_id: Seq<char>,
}

impl View for WebDriver {
    type V = WebDriverView;

    closed spec fn view(&self) -> WebDriverView {
        WebDriverView { url: self.url@, session_id: self.session_id@ }
    }
}

impl WebDriver {
    /// The address of the command `path` in this session.
    pub open spec fn spec_url_of(self, path: Seq<char>) -> Seq<char> {
        spec_command_url(self@.url, self@.session_id, path)
    }

    /// Opens the session from the driver's answer to the session request:
    /// the answer must wrap an object whose member `sessionId` is a text,
    /// and that text becomes the session identifier. Anything else is a
    /// `ProtocolError`.
    pub fn new(port: usize, reply: Reply) -> (r: Result<WebDriver, WebDriverError>)
        ensures
            match r {
                Ok(driver) => spec_session_id(reply@) == Ok::<Seq<char>, WebDriverError>(
                    driver@.session_id,
                ) && driver@.url == spec_base_url(port as nat),
                Err(e) => spec_session_id(reply@) == Err::<Seq<char>, WebDriverError>(e),
            },
    {
        match reply.into_session_id() {
            Ok(session_id) => Ok(WebDriver { url: base_url(port), session_id }),
            Err(e) => Err(e),
        }
    }

    /// The driver's address.
    pub fn url(&self) -> (r: &str)
        ensures
            r@ == self@.url,
    {
        self.url.as_str()
    }

    /// The session identifier.
    pub fn session_id(&self) -> (r: &str)
        ensures
            r@ == self@.session_id,
    {
        self.session_id.as_str()
    }

    /// A `GET` of the command `path`.
    pub fn get(&self, path: &str) -> (r: Request)
        ensures
            r@ == spec_get(self.spec_url_of(path@)),
    {
        Request {
            method: Method::Get,
            url: command_url(self.url.as_str(), self.session_id.as_str(), path),
            body: None,
        }
    }

    /// A `POST` of `body` to the command `path`.
    pub fn post(&self, path: &str, body: Json) -> (r: Request)
        ensures
            r@ == spec_post(self.spec_url_of(path@), body@),
    {
        Request {
            method: Method::Post,
            url: command_url(self.url.as_str(), self.session_id.as_str(), path),
            body: Some(body),
        }
    }

    /// The request that opens the page `url`.
    pub fn set_url(&self, url: &str) -> (r: Request)
        ensures
            r@ == spec_post(self.spec_url_of("url"@), spec_url_body(url@)),
    {
        self.post("url", url_body(url))
    }

    /// The request that resizes the window to `w` by `h`.
    pub fn set_window_size(&self, w: usize, h: usize) -> (r: Request)
        ensures
            r@ == spec_post(self.spec_url_of("window/rect"@), spec_rect_body(w as u64, h as u64)),
    {
        self.post("window/rect", rect_body(w, h))
    }

    /// The request that runs the script `code` without arguments.
    pub fn execute(&self, code: &str) -> (r: Request)
        ensures
            r@ == spec_post(self.spec_url_of("execute/sync"@), spec_script_body(code@)),
    {
        self.post("execute/sync", script_body(code))
    }

    /// The request that captures the viewport.
    pub fn screenshot(&self) -> (r: Request)
        ensures
            r@ == spec_get(self.spec_url_of("screenshot"@)),
    {
        self.get("screenshot")
    }

    /// The request that looks an element up by a CSS selector.
    pub fn element(&self, selector: &str) -> (r: Request)
        ensures
            r@ == spec_post(self.spec_url_of("element"@), spec_selector_body(selector@)),
    {
        self.post("element", selector_body(selector))
    }

    /// The request that captures the element `element`.
    pub fn element_screenshot(&self, element: &str) -> (r: Request)
        ensures
            r@ == spec_get(self.spec_url_of(spec_element_screenshot_path(element@))),
    {
        let path = element_screenshot_path(element);
        self.get(path.as_str())
    }
}

} // verus!
