use vstd::prelude::*;
use vstd::string::*;
use crate::error::WebDriverError;
use crate::json::{lemma_member_step, parse, parsed_json, Json, JsonView};
use crate::request::spec_rect_body;

verus! {

/// What came back for one request.
#[derive(Debug, PartialEq, Eq)]
pub enum Reply {
    /// No answer arrived: the connection could not be made or broke.
    Failed,
    /// The driver answered with a status code and a body.
    Received { status: u16, body: Vec<u8> },
}

/// What came back for one request, as a mathematical value.
pub enum ReplyView {
    Failed,
    Received { status: u16, body: Seq<u8> },
}

impl View for Reply {
    type V = ReplyView;

    open spec fn view(&self) -> ReplyView {
        match self {
            Reply::Failed => ReplyView::Failed,
            Reply::Received { status, body } => ReplyView::Received { status: *status, body: body@ },
        }
    }
}

/// The name under which every answer of the driver wraps its payload.
pub open spec fn envelope_key() -> Seq<char> {
    "value"@
}

/// The name of the session identifier in the answer that opens a session.
pub open spec fn session_key() -> Seq<char> {
    "sessionId"@
}

/// The name of the element reference in the answer to an element lookup.
pub open spec fn element_key() -> Seq<char> {
    "element-6066-11e4-a52e-4f735466cecf"@
}

/// Whether a status code reports success.
pub open spec fn is_success(status: u16) -> bool {
    200 <= status < 300
}

/// The payload of a parsed body: the member `value` of an object.
pub open spec fn spec_unwrap(doc: Option<JsonView>) -> Result<JsonView, WebDriverError> {
    match doc {
        Some(d) => match d.field(envelope_key()) {
            Some(payload) => Ok(payload),
            None => Err(WebDriverError::ProtocolError),
        },
        None => Err(WebDriverError::ProtocolError),
    }
}

/// The payload of the answer to a command.
pub open spec fn spec_payload(reply: ReplyView) -> Result<JsonView, WebDriverError> {
    match reply {
        ReplyView::Failed => Err(WebDriverError::ProtocolError),
        ReplyView::Received { status, body } => if is_success(status) {
            spec_unwrap(parsed_json(body))
        } else {
            Err(WebDriverError::ProtocolError)
        },
    }
}

/// The payload of the answer to the request that opens a session, whose
/// status code is not looked at.
pub open spec fn spec_session_payload(reply: ReplyView) -> Result<JsonView, WebDriverError> {
    match reply {
        ReplyView::Failed => Err(WebDriverError::ProtocolError),
        ReplyView::Received { status, body } => spec_unwrap(parsed_json(body)),
    }
}

/// A payload read as nothing: it must be `null`.
pub open spec fn spec_unit(payload: JsonView) -> Result<(), WebDriverError> {
    match payload {
        JsonView::Null => Ok(()),
        _ => Err(WebDriverError::ProtocolError),
    }
}

/// A payload read as a text.
pub open spec fn spec_text(payload: JsonView) -> Result<Seq<char>, WebDriverError> {
    match payload.text() {
        Some(s) => Ok(s),
        None => Err(WebDriverError::ProtocolError),
    }
}

/// A payload read as an object with a textual member `key`.
pub open spec fn spec_text_member(payload: JsonView, key: Seq<char>) -> Result<
    Seq<char>,
    WebDriverError,
> {
    match payload.field(key) {
        Some(found) => spec_text(found),
        None => Err(WebDriverError::ProtocolError),
    }
}

/// A payload read as an object with a member `key` that is a whole number
/// which fits a `usize`.
pub open spec fn spec_size_member(payload: JsonView, key: Seq<char>) -> Result<
    nat,
    WebDriverError,
> {
    match payload.field(key) {
        Some(JsonView::Unsigned(n)) => if n <= usize::MAX {
            Ok(n as nat)
        } else {
            Err(WebDriverError::ProtocolError)
        },
        _ => Err(WebDriverError::ProtocolError),
    }
}

/// A payload read as a window size, `(width, height)`.
pub open spec fn spec_rect(payload: JsonView) -> Result<(nat, nat), WebDriverError> {
    match (spec_size_member(payload, "width"@), spec_size_member(payload, "height"@)) {
        (Ok(w), Ok(h)) => Ok((w, h)),
        _ => Err(WebDriverError::ProtocolError),
    }
}

/// An image from what base64 decoding made of its text.
pub open spec fn spec_image_of(decoded: Option<Seq<u8>>) -> Result<Seq<u8>, WebDriverError> {
    match decoded {
        Some(bytes) => Ok(bytes),
        None => Err(WebDriverError::DecodeError),
    }
}

/// A payload read as an image: a text that holds the image in base64.
pub open spec fn spec_image(payload: JsonView) -> Result<Seq<u8>, WebDriverError> {
    match payload.text() {
        Some(s) => spec_image_of(base64_decoded(s)),
        None => Err(WebDriverError::ProtocolError),
    }
}

/// The answer to a command, read with `read`.
pub open spec fn spec_read<T>(
    reply: ReplyView,
    read: spec_fn(JsonView) -> Result<T, WebDriverError>,
) -> Result<T, WebDriverError> {
    match spec_payload(reply) {
        Ok(payload) => read(payload),
        Err(e) => Err(e),
    }
}

/// The answer to a command that reports nothing.
pub open spec fn spec_done(reply: ReplyView) -> Result<(), WebDriverError> {
    spec_read(reply, |p: JsonView| spec_unit(p))
}

/// The answer to a command that reports a text.
pub open spec fn spec_answer_text(reply: ReplyView) -> Result<Seq<char>, WebDriverError> {
    spec_read(reply, |p: JsonView| spec_text(p))
}

/// The answer to a command that reports a window size.
pub open spec fn spec_window_size(reply: ReplyView) -> Result<(nat, nat), WebDriverError> {
    spec_read(reply, |p: JsonView| spec_rect(p))
}

/// The answer to a command that reports an image.
pub open spec fn spec_screenshot(reply: ReplyView) -> Result<Seq<u8>, WebDriverError> {
    spec_read(reply, |p: JsonView| spec_image(p))
}

/// The answer to an element lookup.
pub open spec fn spec_element(reply: ReplyView) -> Result<Seq<char>, WebDriverError> {
    spec_read(reply, |p: JsonView| spec_text_member(p, element_key()))
}

/// The session identifier in the answer that opens a session.
pub open spec fn spec_session_id(reply: ReplyView) -> Result<Seq<char>, WebDriverError> {
    match spec_session_payload(reply) {
        Ok(payload) => spec_text_member(payload, session_key()),
        Err(e) => Err(e),
    }
}

/// A parsed body, or its absence, as a mathematical value.
pub open spec fn document_view(doc: Option<Json>) -> Option<JsonView> {
    match doc {
        Some(d) => Some(d@),
        None => None,
    }
}

/// Whether a document result is the one that `expected` describes.
pub open spec fn json_result_is(
    got: Result<Json, WebDriverError>,
    expected: Result<JsonView, WebDriverError>,
) -> bool {
    match got {
        Ok(doc) => expected == Ok::<JsonView, WebDriverError>(doc@),
        Err(e) => expected == Err::<JsonView, WebDriverError>(e),
    }
}

/// Whether a textual result is the one that `expected` describes.
pub open spec fn text_result_is(
    got: Result<String, WebDriverError>,
    expected: Result<Seq<char>, WebDriverError>,
) -> bool {
    match got {
        Ok(s) => expected == Ok::<Seq<char>, WebDriverError>(s@),
        Err(e) => expected == Err::<Seq<char>, WebDriverError>(e),
    }
}

/// Whether a result of bytes is the one that `expected` describes.
pub open spec fn bytes_result_is(
    got: Result<Vec<u8>, WebDriverError>,
    expected: Result<Seq<u8>, WebDriverError>,
) -> bool {
    match got {
        Ok(b) => expected == Ok::<Seq<u8>, WebDriverError>(b@),
        Err(e) => expected == Err::<Seq<u8>, WebDriverError>(e),
    }
}

/// Whether a window size is the one that `expected` describes.
pub open spec fn rect_result_is(
    got: Result<(usize, usize), WebDriverError>,
    expected: Result<(nat, nat), WebDriverError>,
) -> bool {
    match got {
        Ok(size) => expected == Ok::<(nat, nat), WebDriverError>((size.0 as nat, size.1 as nat)),
        Err(e) => expected == Err::<(nat, nat), WebDriverError>(e),
    }
}

/// What `base64::decode` makes of a text: the bytes, or `None` where that
/// function rejects the text as base64 in the standard alphabet.
pub uninterp spec fn base64_decoded(text: Seq<char>) -> Option<Seq<u8>>;

/// The error type of `base64`, carried through unread.
#[verifier::external_type_specification]
#[verifier::external_body]
pub struct ExBase64Error(base64::DecodeError);

/// Calls `base64::decode`. The contract claims only that the outcome is a
/// function of the text, `base64_decoded`: `Ok` with the bytes where there
/// are any, `Err` where there are none.
#[verifier::external_body]
fn decode_base64(text: &str) -> (r: Result<Vec<u8>, base64::DecodeError>)
    ensures
        match r {
            Ok(bytes) => base64_decoded(text@) == Some(bytes@),
            Err(_) => base64_decoded(text@) is None,
        },
{
    base64::decode(text)
}

/// Takes the payload out of a parsed body.
pub fn unwrap_document(doc: Option<Json>) -> (r: Result<Json, WebDriverError>)
    ensures
        json_result_is(r, spec_unwrap(document_view(doc))),
{
    match doc {
        Some(d) => match d.into_member("value") {
            Some(payload) => Ok(payload),
            None => Err(WebDriverError::ProtocolError),
        },
        None => Err(WebDriverError::ProtocolError),
    }
}

/// Reads a payload as nothing.
pub fn read_unit(payload: &Json) -> (r: Result<(), WebDriverError>)
    ensures
        r == spec_unit(payload@),
{
    match payload {
        Json::Null => Ok(()),
        _ => Err(WebDriverError::ProtocolError),
    }
}

/// Reads a payload as a text.
pub fn read_text(payload: &Json) -> (r: Result<String, WebDriverError>)
    ensures
        text_result_is(r, spec_text(payload@)),
{
    match payload {
        Json::Text(s) => Ok(s.clone()),
        _ => Err(WebDriverError::ProtocolError),
    }
}

/// Reads the textual member `key` of a payload.
pub fn read_text_member(payload: &Json, key: &str) -> (r: Result<String, WebDriverError>)
    ensures
        text_result_is(r, spec_text_member(payload@, key@)),
{
    match payload.member(key) {
        Some(found) => read_text(found),
        None => Err(WebDriverError::ProtocolError),
    }
}

/// Reads the member `key` of a payload as a size.
pub fn read_size_member(payload: &Json, key: &str) -> (r: Result<usize, WebDriverError>)
    ensures
        match r {
            Ok(n) => spec_size_member(payload@, key@) == Ok::<nat, WebDriverError>(n as nat),
            Err(e) => spec_size_member(payload@, key@) == Err::<nat, WebDriverError>(e),
        },
{
    match payload.member(key) {
        Some(Json::Unsigned(n)) => {
            if *n <= usize::MAX as u64 {
                Ok(*n as usize)
            } else {
                Err(WebDriverError::ProtocolError)
            }
        },
        _ => Err(WebDriverError::ProtocolError),
    }
}

/// Reads a payload as a window size, `(width, height)`.
pub fn read_rect(payload: &Json) -> (r: Result<(usize, usize), WebDriverError>)
    ensures
        rect_result_is(r, spec_rect(payload@)),
{
    match read_size_member(payload, "width") {
        Ok(w) => match read_size_member(payload, "height") {
            Ok(h) => Ok((w, h)),
            Err(_) => Err(WebDriverError::ProtocolError),
        },
        Err(_) => Err(WebDriverError::ProtocolError),
    }
}

/// Decodes a base64 text.
pub fn decode_text(text: &str) -> (r: Option<Vec<u8>>)
    ensures
        match r {
            Some(bytes) => base64_decoded(text@) == Some(bytes@),
            None => base64_decoded(text@) is None,
        },
{
    match decode_base64(text) {
        Ok(bytes) => Some(bytes),
        Err(_) => None,
    }
}

/// Turns the outcome of decoding into an image or a `DecodeError`.
pub fn image_of(decoded: Option<Vec<u8>>) -> (r: Result<Vec<u8>, WebDriverError>)
    ensures
        match decoded {
            Some(bytes) => r == Ok::<Vec<u8>, WebDriverError>(bytes),
            None => r == Err::<Vec<u8>, WebDriverError>(WebDriverError::DecodeError),
        },
{
    match decoded {
        Some(bytes) => Ok(bytes),
        None => Err(WebDriverError::DecodeError),
    }
}

/// Reads a payload as an image.
pub fn read_image(payload: &Json) -> (r: Result<Vec<u8>, WebDriverError>)
    ensures
        bytes_result_is(r, spec_image(payload@)),
{
    match payload {
        Json::Text(s) => image_of(decode_text(s.as_str())),
        _ => Err(WebDriverError::ProtocolError),
    }
}

impl Reply {
    /// The payload of the answer to a command: the transport must have
    /// worked, the status must report success, and the body must be a JSON
    /// object with a member `value`.
    pub fn into_payload(self) -> (r: Result<Json, WebDriverError>)
        ensures
            json_result_is(r, spec_payload(self@)),
    {
        match self {
            Reply::Failed => Err(WebDriverError::ProtocolError),
            Reply::Received { status, body } => {
                if 200 <= status && status < 300 {
                    unwrap_document(parse(body.as_slice()))
                } else {
                    Err(WebDriverError::ProtocolError)
                }
            },
        }
    }

    /// Reads the answer to a command that reports nothing.
    pub fn into_unit(self) -> (r: Result<(), WebDriverError>)
        ensures
            r == spec_done(self@),
    {
        match self.into_payload() {
            Ok(payload) => read_unit(&payload),
            Err(e) => Err(e),
        }
    }

    /// Reads the answer to a command that reports a text, such as a script
    /// whose result is a string.
    pub fn into_text(self) -> (r: Result<String, WebDriverError>)
        ensures
            text_result_is(r, spec_answer_text(self@)),
    {
        match self.into_payload() {
            Ok(payload) => read_text(&payload),
            Err(e) => Err(e),
        }
    }

    /// Reads the answer to a command that reports a window size.
    pub fn into_window_size(self) -> (r: Result<(usize, usize), WebDriverError>)
        ensures
            rect_result_is(r, spec_window_size(self@)),
    {
        match self.into_payload() {
            Ok(payload) => read_rect(&payload),
            Err(e) => Err(e),
        }
    }

    /// Reads the answer to a command that reports an image.
    pub fn into_image(self) -> (r: Result<Vec<u8>, WebDriverError>)
        ensures
            bytes_result_is(r, spec_screenshot(self@)),
    {
        match self.into_payload() {
            Ok(payload) => read_image(&payload),
            Err(e) => Err(e),
        }
    }

    /// Reads the answer to an element lookup: the element reference.
    pub fn into_element(self) -> (r: Result<String, WebDriverError>)
        ensures
            text_result_is(r, spec_element(self@)),
    {
        match self.into_payload() {
            Ok(payload) => read_text_member(&payload, "element-6066-11e4-a52e-4f735466cecf"),
            Err(e) => Err(e),
        }
    }

    /// Reads the answer that opens a session: the session identifier.
    pub fn into_session_id(self) -> (r: Result<String, WebDriverError>)
        ensures
            text_result_is(r, spec_session_id(self@)),
    {
        match self.into_session_payload() {
            Ok(payload) => read_text_member(&payload, "sessionId"),
            Err(e) => Err(e),
        }
    }

    /// The payload of the answer to the request that opens a session.
    pub fn into_session_payload(self) -> (r: Result<Json, WebDriverError>)
        ensures
            json_result_is(r, spec_session_payload(self@)),
    {
        match self {
            Reply::Failed => Err(WebDriverError::ProtocolError),
            Reply::Received { status, body } => unwrap_document(parse(body.as_slice())),
        }
    }
}

/// A driver that answers a resize with the size it was asked for reports
/// that size: the body of the request, read as a payload, gives back the
/// width and the height that went into it.
pub proof fn lemma_rect_echo(width: usize, height: usize)
    ensures
        spec_rect(spec_rect_body(width as u64, height as u64)) == Ok::<(nat, nat), WebDriverError>(
            (width as nat, height as nat),
        ),
{
    reveal_strlit("width");
    reveal_strlit("height");
    let members = spec_rect_body(width as u64, height as u64)->Object_0;
    assert("width"@ != "height"@) by {
        assert("width"@.len() != "height"@.len());
    }
    assert(members.skip(0) =~= members);
    lemma_member_step(members, "width"@, 0);
    lemma_member_step(members, "height"@, 0);
    lemma_member_step(members, "height"@, 1);
}

} // verus!
