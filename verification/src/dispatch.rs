//! The dispatcher: from a snapshot of the request being composed, clear the
//! shared slot, build a concrete network call, and either publish the build
//! failure synchronously or hand the prepared call to the embedding code,
//! which runs it on a background unit and publishes its outcome.
//!
//! Only building the call touches the HTTP client crate; executing it is
//! network I/O and belongs to the embedding code. The method is wired in as
//! the canonical token the verified codec produces; whether the build
//! succeeds is named by [`builds_ok`], so success is pinned to the
//! snapshotted method and URL. Each point of contact with the client crate
//! is one trusted wrapper below.

use vstd::prelude::*;

use crate::models::{encode_method, method_token, Method, Request, Response, ResponseError};
use crate::slot::Slot;
use reqwest::blocking::Client;
use reqwest::blocking::Request as HttpRequest;
use reqwest::Method as HttpMethod;

verus! {

#[verifier::external_type_specification]
#[verifier::external_body]
pub struct ExClient(Client);

#[verifier::external_type_specification]
#[verifier::external_body]
pub struct ExOutgoingRequest(HttpRequest);

/// A concrete network call, built and ready to execute: the client and the
/// request it will run. Opaque here; the embedding code executes it.
pub struct PreparedCall {
    pub client: Client,
    pub request: HttpRequest,
}

/// Whether an outgoing request builds from a method token and a URL: for a
/// default client the build outcome is a function of those two alone — it
/// fails exactly when the URL does not parse as an absolute URL with a
/// host. Named here because spelling out the URL grammar would restate the
/// parser; [`build_outgoing`] ties the name to the client crate's answer.
pub uninterp spec fn builds_ok(token: Seq<char>, url: Seq<char>) -> bool;

/// Relies on `reqwest::blocking::ClientBuilder::build`: constructs a client
/// with the default configuration, or reports why it could not (TLS or
/// resolver setup); the error's display text is carried over. The
/// underlying call panics inside an async runtime; this library is driven
/// from plain threads.
#[verifier::external_body]
fn new_client() -> Result<Client, ResponseError> {
    match Client::builder().build() {
        Ok(c) => Ok(c),
        Err(e) => Err(ResponseError(e.to_string())),
    }
}

/// Relies on `reqwest::Method::from_bytes` — every canonical method token
/// names its method, so the conversion cannot fail on one — and on
/// `reqwest::blocking::Client::request` and `RequestBuilder::build`: the
/// build succeeds exactly when the URL parses, a function of the token and
/// the URL alone for a default client; the error's display text is carried
/// over.
#[verifier::external_body]
fn build_outgoing(client: &Client, token: &String, url: &String) -> (r: Result<
    HttpRequest,
    ResponseError,
>)
    requires
        exists|m: Method| token@ == method_token(m),
    ensures
        r is Ok <==> builds_ok(token@, url@),
{
    let method = match HttpMethod::from_bytes(token.as_bytes()) {
        Ok(m) => m,
        Err(_) => HttpMethod::GET,
    };
    match client.request(method, url.as_str()).build() {
        Ok(rq) => Ok(rq),
        Err(e) => Err(ResponseError(e.to_string())),
    }
}

/// Build a concrete network call from a snapshot of the request: the
/// canonical token of its method and its URL are wired into the outgoing
/// call; params, headers and body are consumed by the form layer but not
/// yet threaded through. A call comes back only if the build over that
/// token and URL succeeds; when it cannot succeed, the reported failure
/// comes back instead. (Client construction may also fail on its own, so
/// the converse of the first clause is not promised.)
pub fn build_call(request: &Request) -> (r: Result<PreparedCall, ResponseError>)
    ensures
        r is Ok ==> builds_ok(method_token(request.method), request.url@),
        !builds_ok(method_token(request.method), request.url@) ==> r is Err,
{
    let token = encode_method(request.method);
    let client = match new_client() {
        Ok(c) => c,
        Err(e) => {
            return Err(e);
        },
    };
    let outgoing = match build_outgoing(&client, &token, &request.url) {
        Ok(rq) => rq,
        Err(e) => {
            return Err(e);
        },
    };
    Ok(PreparedCall { client, request: outgoing })
}

/// Resolve a build outcome against the (already cleared) slot: a failure is
/// published synchronously, exactly as reported, and nothing is handed on; a
/// success leaves the slot alone and hands the prepared call back, to be run
/// on a background unit.
pub fn apply_build_outcome(slot: &mut Slot, build: Result<PreparedCall, ResponseError>) -> (task:
    Option<PreparedCall>)
    ensures
        build matches Err(e) ==> task is None && final(slot)@ == Some(
            Err::<Response, ResponseError>(e),
        ),
        build matches Ok(c) ==> task == Some(c) && final(slot)@ == old(slot)@,
{
    match build {
        Ok(c) => Some(c),
        Err(e) => {
            slot.set(Err(e));
            None
        },
    }
}

/// Trigger a send: clear the slot, then build the call. A task is handed
/// back only when the build over the snapshotted method's token and URL
/// succeeds, and the slot then reads "no result yet"; when that build
/// cannot succeed — or the client itself could not be constructed — no task
/// comes back and the slot already holds the failure. The calling thread
/// never blocks beyond the build step; everything after is communicated
/// through the slot.
pub fn trigger_send(request: &Request, slot: &mut Slot) -> (task: Option<PreparedCall>)
    ensures
        task is Some ==> final(slot)@ is None && builds_ok(
            method_token(request.method),
            request.url@,
        ),
        !builds_ok(method_token(request.method), request.url@) ==> task is None,
        task is None ==> (final(slot)@ matches Some(r) && r is Err),
{
    slot.clear();
    let build = build_call(request);
    apply_build_outcome(slot, build)
}

} // verus!
