use vstd::prelude::*;

use crate::handlers::default_handler;
use crate::handlers::echo;
use crate::handlers::favicon;
use crate::handlers::greeting;
use crate::handlers::index_handler;
use crate::http::Method;
use crate::http::Request;
use crate::http::Response;
use crate::http::ServiceError;
use crate::pool::Pool;
use crate::router::echo_path;
use crate::router::favicon_path;
use crate::router::index_path;
use crate::router::lemma_route_spec_cases;
use crate::router::route_spec;
use crate::router::HandlerId;
use crate::router::Router;

verus! {

/// Process-wide shared state: the application name and the handle to the
/// backend connection pool. Constructed once at startup, read-only afterwards,
/// shared by reference across all request-handling tasks.
pub struct AppState {
    pub app_name: Vec<u8>,
    pub pool: Pool,
}

/// The static assets resolved at request time: the favicon and the not-found
/// document. `None` stands for an asset missing on disk.
pub struct Assets {
    pub favicon: Option<Vec<u8>>,
    pub not_found: Option<Vec<u8>>,
}

/// View of an optional byte vector.
pub open spec fn opt_bytes(o: Option<Vec<u8>>) -> Option<Seq<u8>> {
    match o {
        Some(v) => Some(v@),
        None => None,
    }
}

/// View of a handler result: status and body on success, the error otherwise.
pub open spec fn result_view(r: Result<Response, ServiceError>) -> Result<
    (u16, Seq<u8>),
    ServiceError,
> {
    match r {
        Ok(resp) => Ok(resp@),
        Err(e) => Err(e),
    }
}

/// What the service answers: the registered handler of the exact
/// (method, path) match, else the method-aware default. This is the complete
/// request-to-response function of the core, over plain values.
pub open spec fn dispatch_spec(
    app_name: Seq<u8>,
    m: Method,
    path: Seq<u8>,
    body: Seq<u8>,
    favicon_asset: Option<Seq<u8>>,
    not_found_doc: Option<Seq<u8>>,
) -> Result<(u16, Seq<u8>), ServiceError> {
    match route_spec(m, path) {
        HandlerId::Index => Ok((200, greeting() + app_name)),
        HandlerId::Echo => Ok((200, body)),
        HandlerId::Favicon => match favicon_asset {
            Some(bytes) => Ok((200, bytes)),
            None => Err(ServiceError::AssetNotFound),
        },
        HandlerId::Default => {
            if m == Method::Get {
                match not_found_doc {
                    Some(doc) => Ok((404, doc)),
                    None => Err(ServiceError::AssetNotFound),
                }
            } else {
                Ok((405, Seq::<u8>::empty()))
            }
        },
    }
}

/// The server core: the fixed routing table plus the shared state it hands
/// to handlers. Middleware (compression, access logging) and the listening
/// socket wrap this from outside and do not change any response's status or
/// body as produced here.
pub struct Server {
    pub router: Router,
    pub state: AppState,
}

impl Server {
    /// A well-formed server carries exactly the service's routing table.
    pub open spec fn wf(&self) -> bool {
        self.router.wf()
    }

    /// Builds the server core once at startup: the route table is fixed from
    /// here on.
    pub fn new(state: AppState) -> (s: Server)
        ensures
            s.wf(),
            s.state == state,
    {
        Server { router: Router::new(), state }
    }

    /// Dispatches one request: routes it to the matching handler or the
    /// default, and returns that handler's response. The response is a
    /// function of this request, the read-only shared state, and the assets
    /// on disk — nothing else.
    pub fn handle(&self, req: Request, assets: Assets) -> (r: Result<Response, ServiceError>)
        requires
            self.wf(),
        ensures
            result_view(r) == dispatch_spec(
                self.state.app_name@,
                req.method,
                req.path@,
                req.body@,
                opt_bytes(assets.favicon),
                opt_bytes(assets.not_found),
            ),
    {
        let h = self.router.lookup(req.method, &req.path);
        match h {
            HandlerId::Index => Ok(index_handler(&self.state.app_name)),
            HandlerId::Echo => Ok(echo(req.body)),
            HandlerId::Favicon => favicon(assets.favicon),
            HandlerId::Default => default_handler(req.method, assets.not_found),
        }
    }
}

/// Echo round-trip: for every byte sequence, `POST /echo` answers 200 with
/// exactly that sequence as the body.
pub proof fn lemma_echo_round_trip(
    app_name: Seq<u8>,
    body: Seq<u8>,
    favicon_asset: Option<Seq<u8>>,
    not_found_doc: Option<Seq<u8>>,
)
    ensures
        dispatch_spec(app_name, Method::Post, echo_path(), body, favicon_asset, not_found_doc)
            == Ok::<(u16, Seq<u8>), ServiceError>((200, body)),
{
    lemma_route_spec_cases(Method::Post, echo_path());
}

/// `GET /` always answers 200, and the body contains the configured
/// application name: it is the greeting prefix followed by exactly the
/// application name's bytes.
pub proof fn lemma_index_contains_app_name(
    app_name: Seq<u8>,
    body: Seq<u8>,
    favicon_asset: Option<Seq<u8>>,
    not_found_doc: Option<Seq<u8>>,
)
    ensures
        dispatch_spec(app_name, Method::Get, index_path(), body, favicon_asset, not_found_doc)
            == Ok::<(u16, Seq<u8>), ServiceError>((200, greeting() + app_name)),
        (greeting() + app_name).subrange(
            greeting().len() as int,
            (greeting() + app_name).len() as int,
        ) == app_name,
{
    lemma_route_spec_cases(Method::Get, index_path());
    assert((greeting() + app_name).subrange(
        greeting().len() as int,
        (greeting() + app_name).len() as int,
    ) =~= app_name);
}

/// Any non-GET request to an unregistered path answers 405 with an empty
/// body. (The only registered non-GET route is `POST /echo`.)
pub proof fn lemma_unregistered_non_get_is_405(
    app_name: Seq<u8>,
    m: Method,
    path: Seq<u8>,
    body: Seq<u8>,
    favicon_asset: Option<Seq<u8>>,
    not_found_doc: Option<Seq<u8>>,
)
    requires
        m != Method::Get,
        !(m == Method::Post && path == echo_path()),
    ensures
        dispatch_spec(app_name, m, path, body, favicon_asset, not_found_doc) == Ok::<
            (u16, Seq<u8>),
            ServiceError,
        >((405, Seq::<u8>::empty())),
{
    lemma_route_spec_cases(m, path);
}

/// A GET request to an unregistered path answers 404, and the body equals
/// the static not-found document's content.
pub proof fn lemma_unregistered_get_is_404(
    app_name: Seq<u8>,
    path: Seq<u8>,
    body: Seq<u8>,
    favicon_asset: Option<Seq<u8>>,
    doc: Seq<u8>,
)
    requires
        path != index_path(),
        path != favicon_path(),
    ensures
        dispatch_spec(app_name, Method::Get, path, body, favicon_asset, Some(doc)) == Ok::<
            (u16, Seq<u8>),
            ServiceError,
        >((404, doc)),
{
    lemma_route_spec_cases(Method::Get, path);
}

/// Abstract view of one request in a batch of concurrently handled requests.
#[verifier::ext_equal]
pub ghost struct RequestView {
    pub method: Method,
    pub path: Seq<u8>,
    pub body: Seq<u8>,
}

/// The responses to a batch of requests handled against the same shared
/// state, in an arbitrary interleaving: each request is an independent unit
/// of work, so the batch is the per-request dispatch applied pointwise.
pub open spec fn batch_responses(
    app_name: Seq<u8>,
    reqs: Seq<RequestView>,
    favicon_asset: Option<Seq<u8>>,
    not_found_doc: Option<Seq<u8>>,
) -> Seq<Result<(u16, Seq<u8>), ServiceError>> {
    reqs.map_values(
        |r: RequestView| dispatch_spec(app_name, r.method, r.path, r.body, favicon_asset,
            not_found_doc),
    )
}

/// No cross-request interference: in any batch, each response is determined
/// by its own request and the shared read-only state alone, and the echo and
/// index requests in the batch each satisfy their individual laws.
pub proof fn lemma_concurrent_requests_independent(
    app_name: Seq<u8>,
    reqs: Seq<RequestView>,
    favicon_asset: Option<Seq<u8>>,
    not_found_doc: Option<Seq<u8>>,
    i: int,
)
    requires
        0 <= i < reqs.len(),
    ensures
        batch_responses(app_name, reqs, favicon_asset, not_found_doc)[i] == dispatch_spec(
            app_name,
            reqs[i].method,
            reqs[i].path,
            reqs[i].body,
            favicon_asset,
            not_found_doc,
        ),
        reqs[i].method == Method::Post && reqs[i].path == echo_path() ==> batch_responses(
            app_name,
            reqs,
            favicon_asset,
            not_found_doc,
        )[i] == Ok::<(u16, Seq<u8>), ServiceError>((200, reqs[i].body)),
        reqs[i].method == Method::Get && reqs[i].path == index_path() ==> batch_responses(
            app_name,
            reqs,
            favicon_asset,
            not_found_doc,
        )[i] == Ok::<(u16, Seq<u8>), ServiceError>((200, greeting() + app_name)),
{
    if reqs[i].method == Method::Post && reqs[i].path == echo_path() {
        lemma_echo_round_trip(app_name, reqs[i].body, favicon_asset, not_found_doc);
    }
    if reqs[i].method == Method::Get && reqs[i].path == index_path() {
        lemma_index_contains_app_name(app_name, reqs[i].body, favicon_asset, not_found_doc);
    }
}

} // verus!
