//! The service's HTTP surface: which handler a (method, path) pair reaches,
//! relative to the configured base path, and the exact status and body each
//! terminal handler emits. Every request reaches exactly one route and every
//! route emits exactly one reply.

use crate::body::body_text;
use crate::body::body_text_of;
use crate::body::consume;
use crate::body::consumed;
use crate::body::BodyError;
use crate::body::BodyEvent;
use crate::health::HealthState;
use crate::page::page_of;
use crate::page::page_of_snapshot;
use crate::page::render_page;
use crate::snapshot::assemble;
use crate::snapshot::spec_dedup;
use crate::snapshot::DiagnosticSnapshot;
use vstd::prelude::*;

verus! {

/// The request methods the router distinguishes; everything else is
/// `Other`.
#[derive(Clone, Copy, PartialEq, Eq, Structural, Debug)]
pub enum Method {
    Get,
    Put,
    Post,
    Other,
}

/// Which method a method name denotes.
pub open spec fn spec_method_of(name: Seq<char>) -> Method {
    if name == "GET"@ {
        Method::Get
    } else if name == "PUT"@ {
        Method::Put
    } else if name == "POST"@ {
        Method::Post
    } else {
        Method::Other
    }
}

/// Classify a request method by its name.
pub fn method_of(name: &str) -> (m: Method)
    ensures
        m == spec_method_of(name@),
{
    let n = name.to_owned();
    if n == "GET".to_owned() {
        Method::Get
    } else if n == "PUT".to_owned() {
        Method::Put
    } else if n == "POST".to_owned() {
        Method::Post
    } else {
        Method::Other
    }
}

/// The handler a request is dispatched to.
#[derive(Clone, Copy, PartialEq, Eq, Structural, Debug)]
pub enum Route {
    /// `GET {base}/health`: report the health flag.
    Health,
    /// `PUT`/`POST {base}/health`: flip the health flag.
    HealthToggle,
    /// `GET {base}/version`: the version string plus the stamp.
    Version,
    /// `PUT`/`POST {base}/logger`: ingest the body into the log.
    Logger,
    /// Any method at `{base}` itself: the introspection page.
    Introspect,
    /// `GET` anywhere else.
    NotFound,
    /// Any other method anywhere else.
    MethodNotAllowed,
}

/// The routing table: exact paths relative to the base path. A known path
/// asked with a method its row does not allow is refused with
/// `MethodNotAllowed`; a path outside the table falls to `NotFound` for
/// `GET` and to `MethodNotAllowed` for every other method.
pub open spec fn spec_route(m: Method, path: Seq<char>, base: Seq<char>) -> Route {
    if path == base + "/health"@ {
        if m is Get {
            Route::Health
        } else if m is Put || m is Post {
            Route::HealthToggle
        } else {
            Route::MethodNotAllowed
        }
    } else if path == base + "/version"@ {
        if m is Get {
            Route::Version
        } else {
            Route::MethodNotAllowed
        }
    } else if path == base + "/logger"@ {
        if m is Put || m is Post {
            Route::Logger
        } else {
            Route::MethodNotAllowed
        }
    } else if path == base {
        Route::Introspect
    } else if m is Get {
        Route::NotFound
    } else {
        Route::MethodNotAllowed
    }
}

/// Dispatch a request to its route.
pub fn route(m: Method, path: &str, base: &str) -> (r: Route)
    ensures
        r == spec_route(m, path@, base@),
{
    let p = path.to_owned();
    if p == base.to_owned().concat("/health") {
        match m {
            Method::Get => Route::Health,
            Method::Put => Route::HealthToggle,
            Method::Post => Route::HealthToggle,
            Method::Other => Route::MethodNotAllowed,
        }
    } else if p == base.to_owned().concat("/version") {
        match m {
            Method::Get => Route::Version,
            _ => Route::MethodNotAllowed,
        }
    } else if p == base.to_owned().concat("/logger") {
        match m {
            Method::Put => Route::Logger,
            Method::Post => Route::Logger,
            _ => Route::MethodNotAllowed,
        }
    } else if p == base.to_owned() {
        Route::Introspect
    } else {
        match m {
            Method::Get => Route::NotFound,
            _ => Route::MethodNotAllowed,
        }
    }
}

/// One HTTP reply: a status code and a body. The transport layer turns it
/// into a response with content type `text/html; charset=utf-8`.
pub struct Reply {
    /// HTTP status code.
    pub status: u16,
    /// Response body.
    pub body: String,
}

/// The released version identifier.
pub open spec fn spec_version() -> Seq<char> {
    "0.2.3"@
}

/// The version identifier as the version endpoint reports it.
pub fn dcr_version() -> (v: &'static str)
    ensures
        v@ == spec_version(),
{
    "0.2.3"
}

/// `GET {base}/health`: `200`/`OK` when the flag is up, `503`/`KO` when it
/// is down. No side effects.
pub fn health_reply(state: &HealthState) -> (r: Reply)
    ensures
        r.status == (if state.is_healthy() {
            200int
        } else {
            503int
        }),
        r.body@ == (if state.is_healthy() {
            "OK"@
        } else {
            "KO"@
        }),
{
    if state.read() {
        Reply { status: 200, body: "OK".to_owned() }
    } else {
        Reply { status: 503, body: "KO".to_owned() }
    }
}

/// `PUT`/`POST {base}/health`: flip the flag and describe the state this
/// very call produced.
pub fn toggle_reply(state: &mut HealthState) -> (r: Reply)
    ensures
        final(state).is_healthy() == !old(state).is_healthy(),
        r.status == 200,
        r.body@ == (if final(state).is_healthy() {
            "healthcheck toggled to true state"@
        } else {
            "healthcheck toggled to false state"@
        }),
{
    let hc = state.toggle();
    if hc {
        Reply { status: 200, body: "healthcheck toggled to true state".to_owned() }
    } else {
        Reply { status: 200, body: "healthcheck toggled to false state".to_owned() }
    }
}

/// `GET {base}/version`: exactly the version identifier followed by the
/// configured stamp — nothing more, even when the stamp is empty.
pub fn version_reply(stamp: &str) -> (r: Reply)
    ensures
        r.status == 200,
        r.body@ == spec_version() + stamp@,
{
    Reply { status: 200, body: dcr_version().to_owned().concat(stamp) }
}

/// `PUT`/`POST {base}/logger`: the text to write to the log at
/// informational severity — the decoded body, or the sentinel when it does
/// not decode — and the confirmation reply. Ingestion is best-effort: it
/// never fails the caller.
pub fn logger_reply(bytes: &[u8]) -> (out: (String, Reply))
    ensures
        out.0@ == body_text_of(bytes@),
        out.1.status == 200,
        out.1.body@ == "data ingested, check the logs."@,
{
    let line = body_text(bytes);
    (line, Reply { status: 200, body: "data ingested, check the logs.".to_owned() })
}

/// `GET` on an unmatched path.
pub fn not_found_reply() -> (r: Reply)
    ensures
        r.status == 404,
        r.body@ == "Oops, you requested an unknown location.\n"@,
{
    Reply { status: 404, body: "Oops, you requested an unknown location.\n".to_owned() }
}

/// Any method other than `GET` on an unmatched path.
pub fn method_not_allowed_reply() -> (r: Reply)
    ensures
        r.status == 405,
        r.body@ == Seq::<char>::empty(),
{
    Reply { status: 405, body: String::new() }
}

/// Any method at `{base}`: the introspection page for the request's
/// snapshot.
pub fn introspect_reply(s: &DiagnosticSnapshot) -> (r: Reply)
    ensures
        r.status == 200,
        r.body@ == page_of_snapshot(*s),
{
    Reply { status: 200, body: render_page(s) }
}

/// The body stream broke before completion: the request fails, and none of
/// the partial data reaches a log or a page.
pub fn transport_error_reply() -> (r: Reply)
    ensures
        r.status == 500,
        r.body@ == "the request body could not be read"@,
{
    Reply { status: 500, body: "the request body could not be read".to_owned() }
}

/// The body overstepped the configured cap: nothing was ingested.
pub fn payload_too_large_reply() -> (r: Reply)
    ensures
        r.status == 413,
        r.body@ == "payload too large"@,
{
    Reply { status: 413, body: "payload too large".to_owned() }
}

/// What a handler that reads the request body emits when the stream fails:
/// a broken stream is a server-side failure, an overlong body is refused,
/// and nothing is logged either way.
pub open spec fn spec_body_failure(e: BodyError, out: (Reply, Option<String>)) -> bool {
    &&& out.1 is None
    &&& (e is TransportError ==> out.0.status == 500 && out.0.body@
        == "the request body could not be read"@)
    &&& (e is PayloadTooLarge ==> out.0.status == 413 && out.0.body@ == "payload too large"@)
}

/// One request as the transport layer hands it to the library: plain
/// strings, header pairs in arrival order, and the observed body stream.
pub struct RequestData {
    /// Method name, e.g. `GET`.
    pub method_name: String,
    /// Path the request addressed, used for routing.
    pub path: String,
    /// Protocol version, e.g. `HTTP/1.1`.
    pub protocol: String,
    /// Full request URI, shown on the introspection page.
    pub uri: String,
    /// Header pairs in arrival order.
    pub headers: Vec<(String, String)>,
    /// The body stream's observations, in order.
    pub body: Vec<BodyEvent>,
}

/// Serve one request: route it, run the one handler the route names, and
/// emit exactly one reply. The second component is the line the logger
/// endpoint asks the embedding program to write to its log, if any. Only
/// the toggle route touches the health flag.
pub fn serve(
    req: RequestData,
    base: &str,
    stamp: &str,
    limit: Option<usize>,
    state: &mut HealthState,
    env: &Vec<(String, String)>,
) -> (out: (Reply, Option<String>))
    ensures
        ({
            let r = spec_route(spec_method_of(req.method_name@), req.path@, base@);
            let gathered = consumed(req.body@, Seq::<u8>::empty(), limit);
            &&& (r is HealthToggle ==> final(state).is_healthy() == !old(state).is_healthy())
            &&& (!(r is HealthToggle) ==> *final(state) == *old(state))
            &&& (r is Health ==> out.0.status == (if old(state).is_healthy() {
                200int
            } else {
                503int
            }) && out.0.body@ == (if old(state).is_healthy() {
                "OK"@
            } else {
                "KO"@
            }) && out.1 is None)
            &&& (r is HealthToggle ==> out.0.status == 200 && out.0.body@ == (if final(state).is_healthy() {
                "healthcheck toggled to true state"@
            } else {
                "healthcheck toggled to false state"@
            }) && out.1 is None)
            &&& (r is Version ==> out.0.status == 200 && out.0.body@ == spec_version() + stamp@
                && out.1 is None)
            &&& (r is Logger ==> match gathered {
                Ok(b) => out.0.status == 200 && out.0.body@ == "data ingested, check the logs."@
                    && out.1 is Some && out.1.unwrap()@ == body_text_of(b),
                Err(e) => spec_body_failure(e, out),
            })
            &&& (r is Introspect ==> match gathered {
                Ok(b) => out.0.status == 200 && out.0.body@ == page_of(
                    req.protocol@,
                    req.method_name@,
                    req.uri@,
                    req.headers@,
                    body_text_of(b),
                    spec_dedup(env@),
                ) && out.1 is None,
                Err(e) => spec_body_failure(e, out),
            })
            &&& (r is NotFound ==> out.0.status == 404 && out.0.body@
                == "Oops, you requested an unknown location.\n"@ && out.1 is None)
            &&& (r is MethodNotAllowed ==> out.0.status == 405 && out.0.body@
                == Seq::<char>::empty() && out.1 is None)
        }),
{
    let m = method_of(req.method_name.as_str());
    let rt = route(m, req.path.as_str(), base);
    match rt {
        Route::Health => (health_reply(state), None),
        Route::HealthToggle => (toggle_reply(state), None),
        Route::Version => (version_reply(stamp), None),
        Route::Logger => {
            match consume(&req.body, limit) {
                Ok(b) => {
                    let (line, rep) = logger_reply(b.as_slice());
                    (rep, Some(line))
                },
                Err(BodyError::TransportError) => (transport_error_reply(), None),
                Err(BodyError::PayloadTooLarge) => (payload_too_large_reply(), None),
            }
        },
        Route::Introspect => {
            match consume(&req.body, limit) {
                Ok(b) => {
                    let text = body_text(b.as_slice());
                    let snap = assemble(
                        req.protocol,
                        req.method_name,
                        req.uri,
                        req.headers,
                        Some(text),
                        env,
                    );
                    (introspect_reply(&snap), None)
                },
                Err(BodyError::TransportError) => (transport_error_reply(), None),
                Err(BodyError::PayloadTooLarge) => (payload_too_large_reply(), None),
            }
        },
        Route::NotFound => (not_found_reply(), None),
        Route::MethodNotAllowed => (method_not_allowed_reply(), None),
    }
}

} // verus!
