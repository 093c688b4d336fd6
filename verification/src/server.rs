//! The server bootstrapper and its route table.
//!
//! Construction has two parts. Building the configuration — a route
//! table with exactly one entry, `GET /health_check` — cannot fail.
//! Attaching the caller's listening socket can: that step happens
//! outside this crate, and [`bootstrap`] turns its outcome into either
//! a configured [`ServerHandle`] or the surfaced attachment error,
//! the construction's only failure mode.
//!
//! A [`ServerHandle`] is inert: it holds the routing decision, not a
//! running accept loop. Whoever drives the real server feeds each
//! inbound request through [`ServerHandle::dispatch`] (or
//! [`ServerHandle::handle_all`] for a whole batch) and serves the
//! returned response, or falls back to its own default for an
//! unmatched request.

use vstd::prelude::*;

use crate::http::{
    health_check, is_success_response, matches_health, Method, Request, Response,
};

verus! {

/// One entry of the route table: a method and a path.
pub struct Route {
    pub method: Method,
    pub path: String,
}

/// Whether a route is the health-check entry: method `GET`, path
/// `/health_check`.
pub open spec fn is_health_route(r: Route) -> bool {
    &&& r.method is Get
    &&& r.path@ == crate::http::health_path()
}

/// A constructed, not-yet-driven server: its route table. The
/// well-formedness invariant says the table has exactly one entry,
/// the health-check route.
pub struct ServerHandle {
    pub routes: Vec<Route>,
}

/// What dispatching a request yields: a response from the one
/// registered handler, or nothing — an unmatched request is left to
/// the surrounding runtime's default behaviour.
pub enum DispatchOutcome {
    Handled(Response),
    Unmatched,
}

/// The dispatch contract for a single request: a request on the
/// health-check route is handled with the fixed success response;
/// every other request is left unmatched.
pub open spec fn outcome_for(req: Request, out: DispatchOutcome) -> bool {
    if matches_health(req) {
        &&& out is Handled
        &&& is_success_response(out->Handled_0)
    } else {
        out is Unmatched
    }
}

impl ServerHandle {
    /// Exactly one route exists, and it is the health-check route.
    pub open spec fn wf(self) -> bool {
        &&& self.routes@.len() == 1
        &&& is_health_route(self.routes@[0])
    }

    /// Route one request against the table. `GET /health_check` — with
    /// any headers and any body — is answered by the handler's success
    /// response; anything else is unmatched.
    pub fn dispatch(&self, req: &Request) -> (out: DispatchOutcome)
        requires
            self.wf(),
        ensures
            outcome_for(*req, out),
    {
        let route_matches = req.method == Method::Get && req.path == self.routes[0].path;
        if route_matches {
            DispatchOutcome::Handled(health_check())
        } else {
            DispatchOutcome::Unmatched
        }
    }

    /// Route a whole batch of requests, one outcome per request: none
    /// is dropped, and each outcome depends on its own request alone.
    pub fn handle_all(&self, reqs: &Vec<Request>) -> (outs: Vec<DispatchOutcome>)
        requires
            self.wf(),
        ensures
            outs@.len() == reqs@.len(),
            forall|i: int| 0 <= i < reqs@.len() ==> outcome_for(reqs@[i], #[trigger] outs@[i]),
    {
        let mut outs: Vec<DispatchOutcome> = Vec::new();
        let mut i: usize = 0;
        while i < reqs.len()
            invariant
                self.wf(),
                i <= reqs@.len(),
                outs@.len() == i,
                forall|j: int| 0 <= j < i ==> outcome_for(reqs@[j], #[trigger] outs@[j]),
            decreases reqs@.len() - i,
        {
            let out = self.dispatch(&reqs[i]);
            outs.push(out);
            i = i + 1;
        }
        outs
    }
}

/// Build the server configuration: the route table with its single
/// entry. This step has no failure path.
pub fn build_routes() -> (h: ServerHandle)
    ensures
        h.wf(),
{
    let mut routes: Vec<Route> = Vec::new();
    routes.push(Route { method: Method::Get, path: "/health_check".to_owned() });
    ServerHandle { routes }
}

/// Finish construction from the outcome of the socket attachment,
/// which the caller performs on its real listener. A successful
/// attachment yields the configured handle; a failed one surfaces the
/// attachment error unchanged, and no handle is produced. This is the
/// construction's only failure mode.
pub fn bootstrap(attach: Result<(), String>) -> (r: Result<ServerHandle, String>)
    ensures
        attach is Ok ==> r is Ok && r->Ok_0.wf(),
        attach is Err ==> r is Err && r->Err_0 == attach->Err_0,
{
    match attach {
        Ok(()) => Ok(build_routes()),
        Err(e) => Err(e),
    }
}

/// The handler is deterministic: any two success responses carry the
/// same status and the same (empty) body, so issuing the same
/// health-check request repeatedly yields indistinguishable responses
/// with no state carried between them.
pub proof fn lemma_health_responses_identical(r1: Response, r2: Response)
    requires
        is_success_response(r1),
        is_success_response(r2),
    ensures
        r1.status == r2.status,
        r1.body@ == r2.body@,
{
}

/// Idempotence of the health-check route: dispatching two requests
/// that both hit it yields two handled outcomes whose responses agree
/// in status and body.
pub proof fn lemma_dispatch_idempotent(
    req1: Request,
    req2: Request,
    out1: DispatchOutcome,
    out2: DispatchOutcome,
)
    requires
        matches_health(req1),
        matches_health(req2),
        outcome_for(req1, out1),
        outcome_for(req2, out2),
    ensures
        out1 is Handled,
        out2 is Handled,
        out1->Handled_0.status == out2->Handled_0.status,
        out1->Handled_0.body@ == out2->Handled_0.body@,
{
}

/// Independence under concurrent load: however many health-check
/// requests are in flight at once, each outcome is determined by its
/// own request alone, so every one of them is a handled success —
/// none is dropped, corrupted or blocked by another.
pub proof fn lemma_concurrent_health_requests(reqs: Seq<Request>, outs: Seq<DispatchOutcome>)
    requires
        outs.len() == reqs.len(),
        forall|i: int| 0 <= i < reqs.len() ==> matches_health(#[trigger] reqs[i]),
        forall|i: int| 0 <= i < reqs.len() ==> outcome_for(reqs[i], #[trigger] outs[i]),
    ensures
        forall|i: int|
            0 <= i < outs.len() ==> (#[trigger] outs[i]) is Handled && is_success_response(
                outs[i]->Handled_0,
            ),
{
}

} // verus!
