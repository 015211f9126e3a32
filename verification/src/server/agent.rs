//! What a request carries beside its body, and the health of an agent.

use vstd::prelude::*;
use vstd::string::StringExecFns;
use crate::text_map::{find_first, first_value, pairs, TextMap};

verus! {

/// What is known of a request beside its body.
#[derive(Debug)]
pub struct RequestMetadata {
    /// The headers that were kept, by lower-case name.
    pub headers: TextMap,
    /// The address of the client.
    pub remote_addr: Option<String>,
    /// The identifier of the request, given by the client or made here.
    pub request_id: Option<String>,
    /// The identifier of the trace that the request belongs to.
    pub trace_id: Option<String>,
}

/// An optional string, as plain values.
pub open spec fn opt_text(s: Option<String>) -> Option<Seq<char>> {
    match s {
        Some(t) => Some(t@),
        None => None,
    }
}

/// `m` with `name` mapped to `value`, where there is one.
pub open spec fn with_header(
    m: Map<Seq<char>, Seq<char>>,
    name: Seq<char>,
    value: Option<Seq<char>>,
) -> Map<Seq<char>, Seq<char>> {
    match value {
        Some(v) => m.insert(name, v),
        None => m,
    }
}

impl Default for RequestMetadata {
    /// No headers and nothing else.
    fn default() -> (r: Self)
        ensures
            r.headers@ == Map::<Seq<char>, Seq<char>>::empty(),
            r.remote_addr.is_none(),
            r.request_id.is_none(),
            r.trace_id.is_none(),
    {
        RequestMetadata {
            headers: TextMap::new(),
            remote_addr: None,
            request_id: None,
            trace_id: None,
        }
    }
}

impl RequestMetadata {
    /// The metadata with the given headers and nothing else.
    pub fn with_headers(headers: TextMap) -> (r: Self)
        ensures
            r.headers@ == headers@,
            r.remote_addr.is_none(),
            r.request_id.is_none(),
            r.trace_id.is_none(),
    {
        RequestMetadata { headers, remote_addr: None, request_id: None, trace_id: None }
    }

    /// The same metadata with the address of the client set.
    pub fn with_remote_addr(self, addr: &str) -> (r: Self)
        ensures
            opt_text(r.remote_addr) == Some(addr@),
            r.headers == self.headers,
            r.request_id == self.request_id,
            r.trace_id == self.trace_id,
    {
        let mut m = self;
        m.remote_addr = Some(addr.to_owned());
        m
    }

    /// The same metadata with the identifier of the request set.
    pub fn with_request_id(self, id: &str) -> (r: Self)
        ensures
            opt_text(r.request_id) == Some(id@),
            r.headers == self.headers,
            r.remote_addr == self.remote_addr,
            r.trace_id == self.trace_id,
    {
        let mut m = self;
        m.request_id = Some(id.to_owned());
        m
    }

    /// The same metadata with the identifier of the trace set.
    pub fn with_trace_id(self, id: &str) -> (r: Self)
        ensures
            opt_text(r.trace_id) == Some(id@),
            r.headers == self.headers,
            r.remote_addr == self.remote_addr,
            r.request_id == self.request_id,
    {
        let mut m = self;
        m.trace_id = Some(id.to_owned());
        m
    }

    /// The `authorization` header, where it was kept.
    pub fn authorization(&self) -> (r: Option<&str>)
        ensures
            r.is_some() == self.headers@.dom().contains("authorization"@),
            r matches Some(v) ==> v@ == self.headers@["authorization"@],
    {
        self.headers.get("authorization")
    }

    /// The `content-type` header, where it was kept.
    pub fn content_type(&self) -> (r: Option<&str>)
        ensures
            r.is_some() == self.headers@.dom().contains("content-type"@),
            r matches Some(v) ==> v@ == self.headers@["content-type"@],
    {
        self.headers.get("content-type")
    }

    /// The `accept` header, where it was kept.
    pub fn accept(&self) -> (r: Option<&str>)
        ensures
            r.is_some() == self.headers@.dom().contains("accept"@),
            r matches Some(v) ==> v@ == self.headers@["accept"@],
    {
        self.headers.get("accept")
    }

    /// The metadata of a request with the given headers, as pairs of name
    /// and value in the order of the request.
    ///
    /// Keeps the `authorization` and `user-agent` headers, under these
    /// names, and takes the identifiers of the request and of the trace
    /// from `x-request-id` and `x-trace-id`. Names are compared without
    /// regard to the case of their letters. Where a name comes several
    /// times, its first value counts. Every other header is left out.
    pub fn from_headers(headers: &Vec<(String, String)>) -> (r: Self)
        ensures
            r.headers@ == with_header(
                with_header(
                    Map::empty(),
                    "authorization"@,
                    first_value(pairs(headers@), "authorization"@),
                ),
                "user-agent"@,
                first_value(pairs(headers@), "user-agent"@),
            ),
            opt_text(r.request_id) == first_value(pairs(headers@), "x-request-id"@),
            opt_text(r.trace_id) == first_value(pairs(headers@), "x-trace-id"@),
            r.remote_addr.is_none(),
    {
        let mut metadata = RequestMetadata::default();
        match find_first(headers, "authorization") {
            Some(value) => {
                metadata.headers.insert("authorization".to_owned(), value);
            },
            None => {},
        }
        metadata.request_id = find_first(headers, "x-request-id");
        metadata.trace_id = find_first(headers, "x-trace-id");
        match find_first(headers, "user-agent") {
            Some(value) => {
                metadata.headers.insert("user-agent".to_owned(), value);
            },
            None => {},
        }
        metadata
    }
}

/// How well an agent is.
#[derive(Debug, Clone, PartialEq, Eq)]
pub enum HealthStatus {
    /// The agent works as it should.
    Healthy,
    /// The agent works, with less than it should have.
    Degraded { reason: String },
    /// The agent cannot take requests.
    Unhealthy { reason: String },
}

impl HealthStatus {
    /// Whether the agent can take requests: healthy or degraded.
    pub fn is_healthy(&self) -> (r: bool)
        ensures
            r == !(self is Unhealthy),
    {
        match self {
            HealthStatus::Healthy => true,
            HealthStatus::Degraded { .. } => true,
            HealthStatus::Unhealthy { .. } => false,
        }
    }

    /// Degraded, for the given reason.
    pub fn degraded(reason: &str) -> (r: Self)
        ensures
            r matches HealthStatus::Degraded { reason: x } && x@ == reason@,
    {
        HealthStatus::Degraded { reason: reason.to_owned() }
    }

    /// Unhealthy, for the given reason.
    pub fn unhealthy(reason: &str) -> (r: Self)
        ensures
            r matches HealthStatus::Unhealthy { reason: x } && x@ == reason@,
    {
        HealthStatus::Unhealthy { reason: reason.to_owned() }
    }

    /// The word for the status: `healthy`, `degraded` or `unhealthy`.
    pub open spec fn word(&self) -> Seq<char> {
        match *self {
            HealthStatus::Healthy => "healthy"@,
            HealthStatus::Degraded { .. } => "degraded"@,
            HealthStatus::Unhealthy { .. } => "unhealthy"@,
        }
    }

    /// The reason of the status, where it has one.
    pub open spec fn reason(&self) -> Option<Seq<char>> {
        match *self {
            HealthStatus::Healthy => None,
            HealthStatus::Degraded { reason } => Some(reason@),
            HealthStatus::Unhealthy { reason } => Some(reason@),
        }
    }

    /// The status as text, in specifications: the word and, after a colon,
    /// the reason.
    pub open spec fn text(&self) -> Seq<char> {
        match *self {
            HealthStatus::Healthy => "healthy"@,
            HealthStatus::Degraded { reason } => "degraded: "@ + reason@,
            HealthStatus::Unhealthy { reason } => "unhealthy: "@ + reason@,
        }
    }

    /// The status as text: the word and, after a colon, the reason.
    pub fn to_string(&self) -> (r: String)
        ensures
            r@ == self.text(),
    {
        match self {
            HealthStatus::Healthy => "healthy".to_owned(),
            HealthStatus::Degraded { reason } => "degraded: ".to_owned().concat(reason.as_str()),
            HealthStatus::Unhealthy { reason } => "unhealthy: ".to_owned().concat(reason.as_str()),
        }
    }
}

/// The body of the answer of the health endpoint.
#[derive(Debug, Clone, PartialEq, Eq)]
pub struct HealthResponse {
    /// `healthy`, `degraded`, `unhealthy`, or `error` where the agent
    /// could not say.
    pub status: String,
    /// The name of the agent.
    pub agent: String,
    /// The reason of the status, or the error.
    pub details: Option<String>,
}

/// HTTP 200, OK.
pub const HTTP_OK: u16 = 200;

/// HTTP 400, bad request.
pub const HTTP_BAD_REQUEST: u16 = 400;

/// HTTP 500, internal server error.
pub const HTTP_INTERNAL_SERVER_ERROR: u16 = 500;

/// HTTP 503, service unavailable.
pub const HTTP_SERVICE_UNAVAILABLE: u16 = 503;

/// The answer of the health endpoint for an agent that said how it is:
/// the HTTP status and the body. Only an unhealthy agent is answered with
/// 503; a healthy or degraded one with 200.
pub fn health_response(status: HealthStatus, agent: &str) -> (r: (u16, HealthResponse))
    ensures
        r.0 == (if status is Unhealthy {
            HTTP_SERVICE_UNAVAILABLE
        } else {
            HTTP_OK
        }),
        r.1.status@ == status.word(),
        r.1.agent@ == agent@,
        opt_text(r.1.details) == status.reason(),
{
    let (word, details, code) = match status {
        HealthStatus::Healthy => ("healthy", None, HTTP_OK),
        HealthStatus::Degraded { reason } => ("degraded", Some(reason), HTTP_OK),
        HealthStatus::Unhealthy { reason } => ("unhealthy", Some(reason), HTTP_SERVICE_UNAVAILABLE),
    };
    (code, HealthResponse { status: word.to_owned(), agent: agent.to_owned(), details })
}

/// The answer of the health endpoint for an agent that failed to say how
/// it is: HTTP 500, the status `error`, and the text of the failure.
pub fn health_failure(error: &str, agent: &str) -> (r: (u16, HealthResponse))
    ensures
        r.0 == HTTP_INTERNAL_SERVER_ERROR,
        r.1.status@ == "error"@,
        r.1.agent@ == agent@,
        opt_text(r.1.details) == Some(error@),
{
    (
        HTTP_INTERNAL_SERVER_ERROR,
        HealthResponse {
            status: "error".to_owned(),
            agent: agent.to_owned(),
            details: Some(error.to_owned()),
        },
    )
}

} // verus!
