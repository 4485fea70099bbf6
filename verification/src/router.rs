//! The router: exact-match tables from (method, path) and from path to
//! handlers, and the dispatch rule that serves one request.
//!
//! Dispatch checks the upgrade table first, so an upgrade route pre-empts
//! method dispatch on its path for every method; otherwise the method
//! table decides; otherwise the call fails with the not-found kind.

use crate::error::Error;
use crate::extractor::FromBody;
use crate::http_request::{str_eq, Method, Request, RequestView};
use crate::middleware::{Layer, Stack};
use crate::response::{outcome_view, Response, ResponseView, STATUS_OK};
use crate::service::{Event, EventView, Service};
use crate::ws::upgrade::{upgrade, upgrade_response_spec};
use vstd::prelude::*;
use vstd::string::StrSliceExecFns;
use vstd::utf8::valid_utf8;

verus! {

/// A registered handler: one operation from a request to an outcome.
/// The registered shape may ignore the request or first extract a typed
/// argument from its body; either way it answers through `call`.
pub trait Handler: Sized {
    /// The outcome this handler owes for a request value.
    spec fn call_spec(&self, req: RequestView) -> Result<ResponseView, Error>;

    /// Handles one request.
    fn call(&self, req: Request) -> (r: Result<Response, Error>)
        ensures
            outcome_view(r) == self.call_spec(req@),
    ;
}

/// One row of the method table.
pub struct Route<H> {
    pub method: Method,
    pub path: String,
    pub handler: H,
}

/// The handler registered for `(m, p)`: the first matching row.
pub open spec fn route_lookup<H>(routes: Seq<Route<H>>, m: Method, p: Seq<char>) -> Option<H>
    decreases routes.len(),
{
    if routes.len() == 0 {
        None
    } else if routes[0].method == m && routes[0].path@ == p {
        Some(routes[0].handler)
    } else {
        route_lookup(routes.drop_first(), m, p)
    }
}

/// Whether an upgrade route is registered at `p`.
pub open spec fn ws_lookup(paths: Seq<String>, p: Seq<char>) -> bool
    decreases paths.len(),
{
    paths.len() != 0 && (paths[0]@ == p || ws_lookup(paths.drop_first(), p))
}

/// The method table never holds two rows for one (method, path) pair.
pub open spec fn routes_wf<H>(routes: Seq<Route<H>>) -> bool {
    forall|i: int, j: int|
        #![trigger routes[i], routes[j]]
        0 <= i < j < routes.len() ==> !(routes[i].method == routes[j].method && routes[i].path@
            == routes[j].path@)
}

/// Exact-match router over handlers of one type.
pub struct Router<H> {
    pub routes: Vec<Route<H>>,
    pub ws_routes: Vec<String>,
}

proof fn lemma_lookup_update<H>(s: Seq<Route<H>>, i: int, rt: Route<H>, m: Method, p: Seq<char>)
    requires
        0 <= i < s.len(),
        s[i].method == rt.method,
        s[i].path@ == rt.path@,
        forall|j: int|
            0 <= j < i ==> !(s[j].method == rt.method && s[j].path@ == rt.path@),
    ensures
        route_lookup(s.update(i, rt), m, p) == (if m == rt.method && p == rt.path@ {
            Some(rt.handler)
        } else {
            route_lookup(s, m, p)
        }),
    decreases i,
{
    let t = s.update(i, rt);
    if i == 0 {
        assert(t[0] == rt);
        if m == rt.method && p == rt.path@ {
        } else {
            assert(t.drop_first() =~= s.drop_first());
        }
    } else {
        assert(t[0] == s[0]);
        if s[0].method == m && s[0].path@ == p {
        } else {
            assert(t.drop_first() =~= s.drop_first().update(i - 1, rt));
            lemma_lookup_update(s.drop_first(), i - 1, rt, m, p);
        }
    }
}

proof fn lemma_lookup_push<H>(s: Seq<Route<H>>, rt: Route<H>, m: Method, p: Seq<char>)
    requires
        route_lookup(s, rt.method, rt.path@) is None,
    ensures
        route_lookup(s.push(rt), m, p) == (if m == rt.method && p == rt.path@ {
            Some(rt.handler)
        } else {
            route_lookup(s, m, p)
        }),
    decreases s.len(),
{
    let t = s.push(rt);
    if s.len() == 0 {
        assert(t[0] == rt);
        assert(t.drop_first() =~= Seq::<Route<H>>::empty());
        assert(route_lookup(Seq::<Route<H>>::empty(), m, p) is None);
    } else {
        assert(t[0] == s[0]);
        if s[0].method == m && s[0].path@ == p {
        } else {
            assert(t.drop_first() =~= s.drop_first().push(rt));
            lemma_lookup_push(s.drop_first(), rt, m, p);
        }
    }
}

proof fn lemma_no_match_lookup_none<H>(s: Seq<Route<H>>, m: Method, p: Seq<char>)
    requires
        forall|i: int| 0 <= i < s.len() ==> !(s[i].method == m && s[i].path@ == p),
    ensures
        route_lookup(s, m, p) is None,
    decreases s.len(),
{
    if s.len() != 0 {
        assert(forall|i: int|
            0 <= i < s.drop_first().len() ==> s.drop_first()[i] == s[i + 1]);
        lemma_no_match_lookup_none(s.drop_first(), m, p);
    }
}

proof fn lemma_ws_lookup_push(s: Seq<String>, x: String, p: Seq<char>)
    ensures
        ws_lookup(s.push(x), p) == (x@ == p || ws_lookup(s, p)),
    decreases s.len(),
{
    let t = s.push(x);
    if s.len() == 0 {
        assert(t[0] == x);
        assert(t.drop_first() =~= Seq::<String>::empty());
        assert(!ws_lookup(Seq::<String>::empty(), p));
    } else {
        assert(t[0] == s[0]);
        assert(t.drop_first() =~= s.drop_first().push(x));
        lemma_ws_lookup_push(s.drop_first(), x, p);
    }
}

impl<H: Handler> Router<H> {
    /// The router's data invariant.
    pub open spec fn wf(&self) -> bool {
        routes_wf(self.routes@)
    }

    /// An empty router: nothing registered, everything falls through.
    pub fn new() -> (r: Router<H>)
        ensures
            r.wf(),
            r.routes@ == Seq::<Route<H>>::empty(),
            r.ws_routes@ == Seq::<String>::empty(),
    {
        Router { routes: Vec::new(), ws_routes: Vec::new() }
    }

    /// Registers `handler` for GET requests on exactly `path`; a handler
    /// already registered there is replaced. Paths match only by equality:
    /// no normalization, so paths differing by a trailing slash stay
    /// distinct routes.
    #[verifier::loop_isolation(false)]
    pub fn get(self, path: &str, handler: H) -> (r: Router<H>)
        requires
            self.wf(),
        ensures
            r.wf(),
            r.ws_routes@ == self.ws_routes@,
            forall|m: Method, p: Seq<char>|
                #[trigger] route_lookup(r.routes@, m, p) == (if m == Method::Get && p == path@ {
                    Some(handler)
                } else {
                    route_lookup(self.routes@, m, p)
                }),
    {
        let ghost orig = self.routes@;
        let mut routes = self.routes;
        let ws_routes = self.ws_routes;
        let n = routes.len();
        let mut i: usize = 0;
        while i < n
            invariant
                n == routes@.len(),
                routes@ == orig,
                i <= n,
                forall|j: int|
                    0 <= j < i ==> !(orig[j].method == Method::Get && orig[j].path@ == path@),
            decreases n - i,
        {
            let found = routes[i].method == Method::Get && str_eq(
                routes[i].path.as_str(),
                path,
            );
            if found {
                let rt = Route { method: Method::Get, path: path.to_owned(), handler };
                let ghost gi = i as int;
                let ghost grt = rt;
                routes[i] = rt;
                proof {
                    assert(routes@ == orig.update(gi, grt));
                    assert forall|a: int, b: int|
                        0 <= a < b < routes@.len() implies !(routes@[a].method
                        == routes@[b].method && routes@[a].path@ == routes@[b].path@) by {
                        assert(!(orig[a].method == orig[b].method && orig[a].path@
                            == orig[b].path@));
                        if a == gi {
                            assert(routes@[a] == grt);
                            assert(routes@[b] == orig[b]);
                        } else if b == gi {
                            assert(routes@[a] == orig[a]);
                            assert(routes@[b] == grt);
                        } else {
                            assert(routes@[a] == orig[a]);
                            assert(routes@[b] == orig[b]);
                        }
                    }
                    assert forall|m: Method, p: Seq<char>| true implies #[trigger] route_lookup(
                        routes@,
                        m,
                        p,
                    ) == (if m == Method::Get && p == path@ {
                        Some(grt.handler)
                    } else {
                        route_lookup(orig, m, p)
                    }) by {
                        lemma_lookup_update(orig, gi, grt, m, p);
                    }
                }
                return Router { routes, ws_routes };
            }
            i += 1;
        }
        let rt = Route { method: Method::Get, path: path.to_owned(), handler };
        proof {
            lemma_no_match_lookup_none(orig, Method::Get, path@);
        }
        let ghost grt = rt;
        routes.push(rt);
        proof {
            assert(routes@ == orig.push(grt));
            assert forall|a: int, b: int|
                0 <= a < b < routes@.len() implies !(routes@[a].method == routes@[b].method
                && routes@[a].path@ == routes@[b].path@) by {
                if b == orig.len() {
                    assert(routes@[a] == orig[a]);
                    assert(routes@[b] == grt);
                    assert(!(orig[a].method == Method::Get && orig[a].path@ == path@));
                } else {
                    assert(routes@[a] == orig[a]);
                    assert(routes@[b] == orig[b]);
                    assert(!(orig[a].method == orig[b].method && orig[a].path@ == orig[b].path@));
                }
            }
            assert forall|m: Method, p: Seq<char>| true implies #[trigger] route_lookup(
                routes@,
                m,
                p,
            ) == (if m == Method::Get && p == path@ {
                Some(grt.handler)
            } else {
                route_lookup(orig, m, p)
            }) by {
                lemma_lookup_push(orig, grt, m, p);
            }
        }
        Router { routes, ws_routes }
    }

    /// Registers an upgrade route at exactly `path`. A request for that
    /// path is answered with the handshake reply before the method table
    /// is ever consulted.
    pub fn ws(self, path: &str) -> (r: Router<H>)
        requires
            self.wf(),
        ensures
            r.wf(),
            r.routes@ == self.routes@,
            forall|p: Seq<char>|
                #[trigger] ws_lookup(r.ws_routes@, p) == (p == path@ || ws_lookup(
                    self.ws_routes@,
                    p,
                )),
    {
        let ghost orig = self.ws_routes@;
        let routes = self.routes;
        let mut ws_routes = self.ws_routes;
        let owned = path.to_owned();
        let ghost gowned = owned;
        ws_routes.push(owned);
        proof {
            assert forall|p: Seq<char>| true implies #[trigger] ws_lookup(ws_routes@, p) == (p
                == path@ || ws_lookup(orig, p)) by {
                lemma_ws_lookup_push(orig, gowned, p);
            }
        }
        Router { routes, ws_routes }
    }

    /// Wraps this router in a layer; the layer acts on every dispatch
    /// before the router does.
    pub fn layer<L: Layer<Router<H>>>(self, layer: L) -> (r: Stack<L, Router<H>>)
        ensures
            r.layer == layer,
            r.service == self,
    {
        Stack::new(layer, self)
    }
}

impl<H: Handler> Default for Router<H> {
    /// The default router is the empty one.
    fn default() -> (r: Router<H>)
        ensures
            r.wf(),
            r.routes@ == Seq::<Route<H>>::empty(),
            r.ws_routes@ == Seq::<String>::empty(),
    {
        Router::new()
    }
}

impl<H: Handler> Service<Request> for Router<H> {
    /// Dispatch: the upgrade table first, then the method table, then the
    /// not-found failure.
    open spec fn call_spec(&self, req: RequestView) -> Result<ResponseView, Error> {
        if ws_lookup(self.ws_routes@, req.path) {
            Ok(upgrade_response_spec(req))
        } else {
            match route_lookup(self.routes@, req.method, req.path) {
                Some(h) => h.call_spec(req),
                None => Err(Error::NotFound),
            }
        }
    }

    /// The router itself emits no observable effects.
    open spec fn effects_spec(&self, req: RequestView) -> Seq<EventView> {
        Seq::<EventView>::empty()
    }

    #[verifier::loop_isolation(false)]
    fn call(&self, req: Request, trace: &mut Vec<Event>) -> (r: Result<Response, Error>) {
        proof {
            assert(crate::service::trace_view(trace@) + Seq::<EventView>::empty() =~= crate::service::trace_view(trace@));
        }
        let wn = self.ws_routes.len();
        let mut i: usize = 0;
        proof {
            assert(self.ws_routes@.skip(0) =~= self.ws_routes@);
        }
        while i < wn
            invariant
                wn == self.ws_routes@.len(),
                i <= wn,
                ws_lookup(self.ws_routes@, req.path@) == ws_lookup(
                    self.ws_routes@.skip(i as int),
                    req.path@,
                ),
            decreases wn - i,
        {
            proof {
                assert(self.ws_routes@.skip(i as int)[0] == self.ws_routes@[i as int]);
            }
            if str_eq(self.ws_routes[i].as_str(), req.path.as_str()) {
                return Ok(upgrade(&req));
            }
            proof {
                assert(self.ws_routes@.skip(i as int).drop_first() =~= self.ws_routes@.skip(
                    i as int + 1,
                ));
            }
            i += 1;
        }
        proof {
            assert(self.ws_routes@.skip(wn as int) =~= Seq::<String>::empty());
        }
        let rn = self.routes.len();
        let mut j: usize = 0;
        proof {
            assert(self.routes@.skip(0) =~= self.routes@);
        }
        while j < rn
            invariant
                rn == self.routes@.len(),
                j <= rn,
                !ws_lookup(self.ws_routes@, req.path@),
                route_lookup(self.routes@, req.method, req.path@) == route_lookup(
                    self.routes@.skip(j as int),
                    req.method,
                    req.path@,
                ),
            decreases rn - j,
        {
            proof {
                assert(self.routes@.skip(j as int)[0] == self.routes@[j as int]);
            }
            let matched = self.routes[j].method == req.method && str_eq(
                self.routes[j].path.as_str(),
                req.path.as_str(),
            );
            if matched {
                return self.routes[j].handler.call(req);
            }
            proof {
                assert(self.routes@.skip(j as int).drop_first() =~= self.routes@.skip(
                    j as int + 1,
                ));
            }
            j += 1;
        }
        proof {
            assert(self.routes@.skip(rn as int) =~= Seq::<Route<H>>::empty());
        }
        Err(Error::NotFound)
    }
}

/// Dispatching a request whose (method, path) is registered, on a path
/// with no upgrade route, answers with that handler's outcome and no
/// other's.
pub proof fn lemma_registered_handler_dispatched<H: Handler>(
    router: &Router<H>,
    req: RequestView,
    h: H,
)
    requires
        !ws_lookup(router.ws_routes@, req.path),
        route_lookup(router.routes@, req.method, req.path) == Some(h),
    ensures
        router.call_spec(req) == h.call_spec(req),
{
}

/// An upgrade route at a path pre-empts method dispatch there for every
/// method: the reply is the handshake reply, whatever the method and
/// whatever the method table holds for that path.
pub proof fn lemma_upgrade_preempts<H: Handler>(router: &Router<H>, req: RequestView)
    requires
        ws_lookup(router.ws_routes@, req.path),
    ensures
        router.call_spec(req) == Ok::<ResponseView, Error>(upgrade_response_spec(req)),
{
}

/// A request whose path has no upgrade route and whose (method, path)
/// pair is absent from the method table fails with the not-found kind,
/// which the runtime answers with the one fallback reply.
pub proof fn lemma_unmatched_request_falls_back<H: Handler>(router: &Router<H>, req: RequestView)
    requires
        !ws_lookup(router.ws_routes@, req.path),
        route_lookup(router.routes@, req.method, req.path) is None,
    ensures
        router.call_spec(req) == Err::<ResponseView, Error>(Error::NotFound),
        crate::server::completed_view(router.call_spec(req)) == crate::server::fallback_view(),
{
}

/// The zero-argument handler shape: it ignores the request and answers
/// with a fixed status and body.
pub struct StaticHandler {
    pub status: u16,
    pub body: Vec<u8>,
}

impl Handler for StaticHandler {
    open spec fn call_spec(&self, req: RequestView) -> Result<ResponseView, Error> {
        Ok(
            ResponseView {
                status: self.status,
                headers: Seq::<(Seq<char>, Seq<char>)>::empty(),
                body: self.body@,
            },
        )
    }

    #[verifier::loop_isolation(false)]
    fn call(&self, req: Request) -> (r: Result<Response, Error>) {
        let n = self.body.len();
        let mut body: Vec<u8> = Vec::new();
        let mut i: usize = 0;
        while i < n
            invariant
                i <= n,
                body@ == self.body@.take(i as int),
            decreases n - i,
        {
            body.push(self.body[i]);
            proof {
                assert(self.body@.take(i as int).push(self.body@[i as int]) =~= self.body@.take(
                    i as int + 1,
                ));
            }
            i += 1;
        }
        proof {
            assert(self.body@.take(n as int) =~= self.body@);
        }
        Ok(Response::new(body).status(self.status))
    }
}

/// The one-argument handler shape: it splits the request, discards the
/// head, extracts the body as text, and echoes that text back. A body
/// that is not valid UTF-8 fails extraction with the not-found kind.
pub struct EchoHandler;

impl Handler for EchoHandler {
    open spec fn call_spec(&self, req: RequestView) -> Result<ResponseView, Error> {
        if valid_utf8(req.body) {
            Ok(
                ResponseView {
                    status: STATUS_OK,
                    headers: Seq::<(Seq<char>, Seq<char>)>::empty(),
                    body: req.body,
                },
            )
        } else {
            Err(Error::NotFound)
        }
    }

    fn call(&self, req: Request) -> (r: Result<Response, Error>) {
        let ghost reqv = req@;
        let (_parts, body) = req.into_parts();
        match <String as FromBody>::from_body(body) {
            Ok(text) => {
                let out = text.as_str().as_bytes_vec();
                proof {
                    vstd::utf8::decode_utf8_encode_utf8(reqv.body);
                }
                Ok(Response::new(out))
            },
            Err(e) => Err(e),
        }
    }
}

} // verus!
