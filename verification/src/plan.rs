//! What the engine hands back: responses, outbound calls and plans.

use crate::error::RequestError;
use crate::event::RpcEvent;
use vstd::prelude::*;
use vstd::string::StringExecFns;

verus! {

/// HTTP 200.
pub const STATUS_OK: u16 = 200;

/// HTTP 408.
pub const STATUS_REQUEST_TIMEOUT: u16 = 408;

/// HTTP 429.
pub const STATUS_TOO_MANY_REQUESTS: u16 = 429;

/// The value of `apiVersion` in the answer to a query for a fabricated
/// signature.
pub open spec fn spec_api_version() -> Seq<char> {
    "1.10.24"@
}

/// The body that answers a transaction with the fabricated `signature`.
pub open spec fn falsified_body(signature: Seq<char>) -> Seq<char> {
    "{\"id\":1,\"jsonrpc\":\"2.0\",\"result\":\""@ + signature + "\"}"@
}

/// The body that answers a query for a fabricated signature: one status,
/// and that one `null`.
pub open spec fn unconfirmed_body() -> Seq<char> {
    "{\"id\":1,\"jsonrpc\":\"2.0\",\"result\":{\"context\":{\"apiVersion\":\""@
        + spec_api_version() + "\",\"slot\":1},\"value\":[null]}}"@
}

/// The name of the header that tells which event answered.
pub open spec fn spec_event_header() -> Seq<char> {
    "X-ATC-Event"@
}

/// The name of the header that gives the content type.
pub open spec fn spec_content_type_header() -> Seq<char> {
    "Content-Type"@
}

/// The content type of JSON.
pub open spec fn spec_json_content_type() -> Seq<char> {
    "application/json"@
}

/// The name of the header that tells which event answered.
pub fn event_header() -> (name: &'static str)
    ensures
        name@ == spec_event_header(),
{
    "X-ATC-Event"
}

/// The name of the header that gives the content type.
pub fn content_type_header() -> (name: &'static str)
    ensures
        name@ == spec_content_type_header(),
{
    "Content-Type"
}

/// The content type of JSON, with which bodies go out and calls go
/// upstream.
pub fn json_content_type() -> (value: &'static str)
    ensures
        value@ == spec_json_content_type(),
{
    "application/json"
}

/// An HTTP response, reduced to what the engine decides.
#[derive(Debug)]
pub struct Response {
    /// The status code.
    pub status: u16,
    /// The event named in the header `X-ATC-Event`; `None` leaves the header
    /// out.
    pub event: Option<RpcEvent>,
    /// Whether the response is sent with content type `application/json`.
    pub json: bool,
    /// The body.
    pub body: String,
}

/// The model of a [`Response`].
pub struct ResponseView {
    pub status: u16,
    pub event: Option<RpcEvent>,
    pub json: bool,
    pub body: Seq<char>,
}

impl View for Response {
    type V = ResponseView;

    open spec fn view(&self) -> ResponseView {
        ResponseView { status: self.status, event: self.event, json: self.json, body: self.body@ }
    }
}

impl ResponseView {
    /// The response of the event `RateLimit`.
    pub open spec fn rate_limit() -> ResponseView {
        ResponseView {
            status: STATUS_TOO_MANY_REQUESTS,
            event: Some(RpcEvent::RateLimit),
            json: false,
            body: Seq::empty(),
        }
    }

    /// The response of the event `Timeout`.
    pub open spec fn timeout() -> ResponseView {
        ResponseView {
            status: STATUS_REQUEST_TIMEOUT,
            event: Some(RpcEvent::Timeout),
            json: false,
            body: Seq::empty(),
        }
    }

    /// The response of the event `FalsifiedSignature` with `signature`.
    pub open spec fn falsified(signature: Seq<char>) -> ResponseView {
        ResponseView {
            status: STATUS_OK,
            event: Some(RpcEvent::FalsifiedSignature),
            json: true,
            body: falsified_body(signature),
        }
    }

    /// The response of the event `UnconfirmedSignature`.
    pub open spec fn unconfirmed() -> ResponseView {
        ResponseView {
            status: STATUS_OK,
            event: Some(RpcEvent::UnconfirmedSignature),
            json: true,
            body: unconfirmed_body(),
        }
    }

    /// The response that relays the node's answer under the tag `event`.
    pub open spec fn relayed(
        status: u16,
        body: Seq<char>,
        event: Option<RpcEvent>,
    ) -> ResponseView {
        ResponseView { status, event, json: true, body }
    }

    /// The response of the health probe.
    pub open spec fn healthy() -> ResponseView {
        ResponseView { status: STATUS_OK, event: None, json: false, body: Seq::empty() }
    }

    /// The headers of the response, each a name and a value: the event
    /// header where the response has an event, then the content type where
    /// the body is JSON.
    pub open spec fn headers(self) -> Seq<(Seq<char>, Seq<char>)> {
        let tag = match self.event {
            Some(event) => seq![(spec_event_header(), event.spec_name())],
            None => seq![],
        };
        let content = if self.json {
            seq![(spec_content_type_header(), spec_json_content_type())]
        } else {
            seq![]
        };
        tag + content
    }
}

impl Response {
    /// HTTP 429 with an empty body, tagged `RateLimit`.
    pub fn rate_limit() -> (response: Response)
        ensures
            response@ == ResponseView::rate_limit(),
    {
        Response {
            status: STATUS_TOO_MANY_REQUESTS,
            event: Some(RpcEvent::RateLimit),
            json: false,
            body: String::new(),
        }
    }

    /// HTTP 408 with an empty body, tagged `Timeout`.
    pub fn timeout() -> (response: Response)
        ensures
            response@ == ResponseView::timeout(),
    {
        Response {
            status: STATUS_REQUEST_TIMEOUT,
            event: Some(RpcEvent::Timeout),
            json: false,
            body: String::new(),
        }
    }

    /// HTTP 200 with the JSON-RPC envelope whose result is `signature`,
    /// tagged `FalsifiedSignature`. The signature is written between the
    /// quotes as it is.
    pub fn falsified(signature: &str) -> (response: Response)
        ensures
            response@ == ResponseView::falsified(signature@),
    {
        let mut body = String::from_str("{\"id\":1,\"jsonrpc\":\"2.0\",\"result\":\"");
        body.append(signature);
        body.append("\"}");
        Response {
            status: STATUS_OK,
            event: Some(RpcEvent::FalsifiedSignature),
            json: true,
            body,
        }
    }

    /// HTTP 200 with the JSON-RPC envelope of a signature status that is
    /// `null`, tagged `UnconfirmedSignature`.
    pub fn unconfirmed() -> (response: Response)
        ensures
            response@ == ResponseView::unconfirmed(),
    {
        let mut body = String::from_str(
            "{\"id\":1,\"jsonrpc\":\"2.0\",\"result\":{\"context\":{\"apiVersion\":\"",
        );
        body.append(api_version());
        body.append("\",\"slot\":1},\"value\":[null]}}");
        Response {
            status: STATUS_OK,
            event: Some(RpcEvent::UnconfirmedSignature),
            json: true,
            body,
        }
    }

    /// HTTP 200 with an empty body and no tag.
    pub fn healthy() -> (response: Response)
        ensures
            response@ == ResponseView::healthy(),
    {
        Response { status: STATUS_OK, event: None, json: false, body: String::new() }
    }

    /// The headers of the response, each a name and a value.
    pub fn headers(&self) -> (headers: Vec<(String, String)>)
        ensures
            headers@.len() == self@.headers().len(),
            forall|i: int|
                0 <= i < headers@.len() ==> (#[trigger] headers@[i]).0@ == self@.headers()[i].0
                    && headers@[i].1@ == self@.headers()[i].1,
    {
        let mut headers: Vec<(String, String)> = Vec::new();
        match self.event {
            Some(event) => {
                headers.push((String::from_str(event_header()), String::from_str(event.name())));
            },
            None => {},
        }
        if self.json {
            headers.push(
                (String::from_str(content_type_header()), String::from_str(json_content_type())),
            );
        }
        headers
    }
}

/// The value of `apiVersion` in the answer to a query for a fabricated
/// signature.
pub fn api_version() -> (version: &'static str)
    ensures
        version@ == spec_api_version(),
{
    "1.10.24"
}

/// A call to make to the upstream node: a POST of `body` to `endpoint` with
/// content type `application/json`.
#[derive(Debug)]
pub struct Outbound {
    pub endpoint: String,
    pub body: Vec<u8>,
}

/// The model of an [`Outbound`] call.
pub struct OutboundView {
    pub endpoint: Seq<char>,
    pub body: Seq<u8>,
}

impl View for Outbound {
    type V = OutboundView;

    open spec fn view(&self) -> OutboundView {
        OutboundView { endpoint: self.endpoint@, body: self.body@ }
    }
}

/// How a call to the upstream node ended.
#[derive(Debug)]
pub enum Upstream {
    /// The node answered with this status and body.
    Answer { status: u16, body: String },
    /// The call failed or timed out.
    Unreachable,
}

/// What to send once the delay of a plan has passed.
#[derive(Debug)]
pub enum Action {
    /// Send this response.
    Reply(Response),
    /// Make this call to the upstream node and relay its answer under this
    /// tag.
    Forward(Outbound, Option<RpcEvent>),
}

/// The model of an [`Action`].
pub enum ActionView {
    Reply(ResponseView),
    Forward(OutboundView, Option<RpcEvent>),
}

impl View for Action {
    type V = ActionView;

    open spec fn view(&self) -> ActionView {
        match self {
            Action::Reply(response) => ActionView::Reply(response@),
            Action::Forward(outbound, tag) => ActionView::Forward(outbound@, *tag),
        }
    }
}

/// The decision on one request: wait for `delay` seconds, then carry out
/// `action`.
#[derive(Debug)]
pub struct Plan {
    pub delay: u64,
    pub action: Action,
}

/// The model of a [`Plan`].
pub struct PlanView {
    pub delay: u64,
    pub action: ActionView,
}

impl View for Plan {
    type V = PlanView;

    open spec fn view(&self) -> PlanView {
        PlanView { delay: self.delay, action: self.action@ }
    }
}

impl PlanView {
    /// The event that the response of this plan is tagged with, if any.
    pub open spec fn event(self) -> Option<RpcEvent> {
        match self.action {
            ActionView::Reply(response) => response.event,
            ActionView::Forward(_, tag) => tag,
        }
    }

    /// The plan that forwards `outbound` at once and relays the answer
    /// without a tag.
    pub open spec fn passthrough(outbound: OutboundView) -> PlanView {
        PlanView { delay: 0, action: ActionView::Forward(outbound, None) }
    }
}

impl Plan {
    /// The event that the response of this plan is tagged with, if any.
    pub fn event(&self) -> (event: Option<RpcEvent>)
        ensures
            event == self@.event(),
    {
        match &self.action {
            Action::Reply(response) => response.event,
            Action::Forward(_, tag) => *tag,
        }
    }
}

/// The response that ends a forward: the node's status and body as they
/// came, under the tag `tag`, or the error of a node that could not be
/// reached.
pub open spec fn relayed(tag: Option<RpcEvent>, upstream: Upstream) -> Result<
    ResponseView,
    RequestError,
> {
    match upstream {
        Upstream::Answer { status, body } => Ok(ResponseView::relayed(status, body@, tag)),
        Upstream::Unreachable => Err(RequestError::UpstreamUnreachable),
    }
}

/// The model of a response or the error in its place.
pub open spec fn answer_view(answer: Result<Response, RequestError>) -> Result<
    ResponseView,
    RequestError,
> {
    match answer {
        Ok(response) => Ok(response@),
        Err(error) => Err(error),
    }
}

/// Ends a forward: relays the node's status and body as they came, under
/// the tag `tag`. A node that could not be reached is an error, never a
/// synthetic success.
pub fn relay(tag: Option<RpcEvent>, upstream: Upstream) -> (answer: Result<Response, RequestError>)
    ensures
        answer_view(answer) == relayed(tag, upstream),
{
    match upstream {
        Upstream::Answer { status, body } => Ok(Response { status, event: tag, json: true, body }),
        Upstream::Unreachable => Err(RequestError::UpstreamUnreachable),
    }
}

} // verus!
