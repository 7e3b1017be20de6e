use vstd::prelude::*;

use crate::http::Method;

verus! {

/// Identifies the handler a route resolves to. `Default` is the fallback for
/// every (method, path) pair with no registered route.
#[derive(Clone, Copy, Debug, PartialEq, Eq, Structural)]
pub enum HandlerId {
    Index,
    Echo,
    Favicon,
    Default,
}

/// One registered route: an exact method and an exact path, mapped to a
/// handler. Routes are immutable once the table is built.
pub struct Route {
    pub method: Method,
    pub path: Vec<u8>,
    pub handler: HandlerId,
}

/// The path `/` as bytes.
pub open spec fn index_path() -> Seq<u8> {
    seq![47u8]
}

/// The path `/echo` as bytes.
pub open spec fn echo_path() -> Seq<u8> {
    seq![47u8, 101u8, 99u8, 104u8, 111u8]
}

/// The path `/favicon.ico` as bytes.
pub open spec fn favicon_path() -> Seq<u8> {
    seq![47u8, 102u8, 97u8, 118u8, 105u8, 99u8, 111u8, 110u8, 46u8, 105u8, 99u8, 111u8]
}

/// The fixed routing table: the three registered routes, in registration
/// order. No route is added or removed after startup.
pub open spec fn routing_table() -> Seq<(Method, Seq<u8>, HandlerId)> {
    seq![
        (Method::Get, index_path(), HandlerId::Index),
        (Method::Post, echo_path(), HandlerId::Echo),
        (Method::Get, favicon_path(), HandlerId::Favicon),
    ]
}

/// First-match lookup over a route table: the handler of the first entry whose
/// method and path both match exactly, else the default handler.
pub open spec fn lookup_in(table: Seq<(Method, Seq<u8>, HandlerId)>, m: Method, p: Seq<u8>) -> HandlerId
    decreases table.len(),
{
    if table.len() == 0 {
        HandlerId::Default
    } else if table[0].0 == m && table[0].1 == p {
        table[0].2
    } else {
        lookup_in(table.drop_first(), m, p)
    }
}

/// What the service's router resolves a request to.
pub open spec fn route_spec(m: Method, p: Seq<u8>) -> HandlerId {
    lookup_in(routing_table(), m, p)
}

/// Spells out `route_spec` case by case: each registered (method, path) pair
/// reaches its handler, and everything else falls through to the default.
pub proof fn lemma_route_spec_cases(m: Method, p: Seq<u8>)
    ensures
        route_spec(m, p) == (if m == Method::Get && p == index_path() {
            HandlerId::Index
        } else if m == Method::Post && p == echo_path() {
            HandlerId::Echo
        } else if m == Method::Get && p == favicon_path() {
            HandlerId::Favicon
        } else {
            HandlerId::Default
        }),
{
    let t = routing_table();
    let t1 = t.drop_first();
    let t2 = t1.drop_first();
    let t3 = t2.drop_first();
    assert(t1 =~= seq![
        (Method::Post, echo_path(), HandlerId::Echo),
        (Method::Get, favicon_path(), HandlerId::Favicon),
    ]);
    assert(t2 =~= seq![(Method::Get, favicon_path(), HandlerId::Favicon)]);
    assert(t3 =~= Seq::<(Method, Seq<u8>, HandlerId)>::empty());
    if m == Method::Get && p == index_path() {
        assert(route_spec(m, p) == HandlerId::Index);
    } else {
        assert(lookup_in(t, m, p) == lookup_in(t1, m, p));
        if m == Method::Post && p == echo_path() {
            assert(lookup_in(t1, m, p) == HandlerId::Echo);
        } else {
            assert(lookup_in(t1, m, p) == lookup_in(t2, m, p));
            if m == Method::Get && p == favicon_path() {
                assert(lookup_in(t2, m, p) == HandlerId::Favicon);
            } else {
                assert(lookup_in(t2, m, p) == lookup_in(t3, m, p));
                assert(lookup_in(t3, m, p) == HandlerId::Default);
            }
        }
    }
}

/// Byte-wise equality of two byte vectors.
pub fn bytes_eq(a: &Vec<u8>, b: &Vec<u8>) -> (r: bool)
    ensures
        r == (a@ == b@),
{
    if a.len() != b.len() {
        return false;
    }
    let mut i: usize = 0;
    while i < a.len()
        invariant
            i <= a.len(),
            a.len() == b.len(),
            forall|j: int| 0 <= j < i ==> a@[j] == b@[j],
        decreases a.len() - i,
    {
        if a[i] != b[i] {
            return false;
        }
        i += 1;
    }
    proof {
        assert(a@ =~= b@);
    }
    true
}

/// The router: the fixed route table plus first-match dispatch over it.
pub struct Router {
    pub routes: Vec<Route>,
}

impl Router {
    /// The abstract table this router holds.
    pub open spec fn view(&self) -> Seq<(Method, Seq<u8>, HandlerId)> {
        self.routes@.map_values(|r: Route| (r.method, r.path@, r.handler))
    }

    /// A well-formed router holds exactly the service's routing table.
    pub open spec fn wf(&self) -> bool {
        self@ == routing_table()
    }

    /// Builds the routing table once, at startup.
    pub fn new() -> (r: Router)
        ensures
            r.wf(),
    {
        let mut routes: Vec<Route> = Vec::new();
        routes.push(Route { method: Method::Get, path: vec![47u8], handler: HandlerId::Index });
        routes.push(Route {
            method: Method::Post,
            path: vec![47u8, 101u8, 99u8, 104u8, 111u8],
            handler: HandlerId::Echo,
        });
        routes.push(Route {
            method: Method::Get,
            path: vec![
                47u8, 102u8, 97u8, 118u8, 105u8, 99u8, 111u8, 110u8, 46u8, 105u8, 99u8, 111u8,
            ],
            handler: HandlerId::Favicon,
        });
        let r = Router { routes };
        proof {
            assert(r@ =~~= routing_table());
        }
        r
    }

    /// Resolves a request's method and path to a handler by scanning the
    /// table in order for the first exact match.
    pub fn lookup(&self, m: Method, path: &Vec<u8>) -> (h: HandlerId)
        ensures
            h == lookup_in(self@, m, path@),
    {
        proof {
            assert(self@.skip(0) =~= self@);
        }
        let mut i: usize = 0;
        while i < self.routes.len()
            invariant
                i <= self.routes.len(),
                lookup_in(self@, m, path@) == lookup_in(self@.skip(i as int), m, path@),
            decreases self.routes.len() - i,
        {
            let matches_method = self.routes[i].method == m;
            let matches_path = bytes_eq(&self.routes[i].path, path);
            proof {
                assert(self@.skip(i as int)[0] == self@[i as int]);
            }
            if matches_method && matches_path {
                return self.routes[i].handler;
            }
            proof {
                assert(self@.skip(i as int).drop_first() =~= self@.skip(i as int + 1));
            }
            i += 1;
        }
        proof {
            assert(self@.skip(i as int) =~= Seq::<(Method, Seq<u8>, HandlerId)>::empty());
        }
        HandlerId::Default
    }
}

} // verus!
