//! Route assembly and the middleware stack around it.
//!
//! Each layer applied wraps everything applied before it, so the layer
//! applied last is the outermost: it sees an inbound request first and the
//! outbound response last.
use axum::Router;
use tower_http::cors::CorsLayer;
use tower_http::trace::TraceLayer;
use vstd::prelude::*;

verus! {

/// axum's router, carried through opaquely: nothing here reads inside it.
#[verifier::external_type_specification]
#[verifier::external_body]
#[verifier::reject_recursive_types(S)]
pub struct ExRouter<S>(Router<S>);

/// A cross-cutting behaviour wrapped around every route.
#[derive(Clone, Copy, Debug, PartialEq, Eq, Structural)]
pub enum LayerKind {
    /// Permissive cross-origin policy: any origin, method and header.
    CrossOrigin,
    /// A trace record of method, path, status and latency for every request.
    Trace,
}

/// The layers of the standard stack, in the order they are applied.
pub open spec fn standard_layers() -> Seq<LayerKind> {
    seq![LayerKind::CrossOrigin, LayerKind::Trace]
}

/// The order in which layers applied in the order `applied` see an inbound
/// request: the last applied first.
pub open spec fn inbound(applied: Seq<LayerKind>) -> Seq<LayerKind> {
    applied.reverse()
}

/// The paths bound in a router, fallbacks aside.
pub uninterp spec fn routes_of(r: Router) -> Set<Seq<char>>;

/// The layers applied to a router through `Router::layer` since its routes
/// were merged into it, in the order applied; each wraps every route the
/// router holds and its fallback.
pub uninterp spec fn layers_of(r: Router) -> Seq<LayerKind>;

/// Whether a router has a fallback of its own instead of axum's default.
pub uninterp spec fn custom_fallback(r: Router) -> bool;

/// Whether no segment of any path in `paths` starts with `:` or `*`: the
/// paths that axum's default checks accept.
pub open spec fn no_legacy_segments(paths: Set<Seq<char>>) -> bool {
    forall|p: Seq<char>, k: int|
        #![trigger paths.contains(p), p[k]]
        paths.contains(p) && 0 <= k < p.len() && (k == 0 || p[k - 1] == '/') ==> p[k] != ':'
            && p[k] != '*'
}

/// Relies on `axum::Router::new`: a router with no routes, no layers and
/// the default fallback.
#[verifier::external_body]
fn empty_router() -> (r: Router)
    ensures
        routes_of(r) == Set::<Seq<char>>::empty(),
        layers_of(r) == Seq::<LayerKind>::empty(),
        !custom_fallback(r),
{
    Router::new()
}

/// Relies on `axum::Router::merge`: merged into a router with no routes, no
/// layers and the default fallback, the result binds exactly the paths of
/// `routes`. It panics on overlapping paths, on two custom fallbacks, and on
/// a path that the base's default checks refuse, which the `requires` rule out.
#[verifier::external_body]
fn merge_into(base: Router, routes: Router) -> (r: Router)
    requires
        routes_of(base) == Set::<Seq<char>>::empty(),
        layers_of(base) == Seq::<LayerKind>::empty(),
        !custom_fallback(base),
        no_legacy_segments(routes_of(routes)),
    ensures
        routes_of(r) == routes_of(routes),
        layers_of(r) == Seq::<LayerKind>::empty(),
{
    base.merge(routes)
}

/// Relies on `axum::Router::layer` with `tower_http::cors::CorsLayer::permissive`:
/// every route and the fallback wrapped, no path added or removed.
#[verifier::external_body]
fn wrap_cross_origin(router: Router) -> (r: Router)
    ensures
        routes_of(r) == routes_of(router),
        layers_of(r) == layers_of(router).push(LayerKind::CrossOrigin),
{
    router.layer(CorsLayer::permissive())
}

/// Relies on `axum::Router::layer` with `tower_http::trace::TraceLayer::new_for_http`:
/// every route and the fallback wrapped, no path added or removed.
#[verifier::external_body]
fn wrap_trace(router: Router) -> (r: Router)
    ensures
        routes_of(r) == routes_of(router),
        layers_of(r) == layers_of(router).push(LayerKind::Trace),
{
    router.layer(TraceLayer::new_for_http())
}

/// A route table with the layers applied around it, in registration order.
pub struct ComposedService {
    router: Router,
    layers: Vec<LayerKind>,
}

impl ComposedService {
    /// The list of layers kept beside the router is the router's own.
    #[verifier::type_invariant]
    spec fn layers_match(&self) -> bool {
        layers_of(self.router) == self.layers@
    }

    /// The layers applied so far, in the order they were applied.
    pub closed spec fn served_layers(&self) -> Seq<LayerKind> {
        layers_of(self.router)
    }

    /// The paths the service binds.
    pub closed spec fn served_routes(&self) -> Set<Seq<char>> {
        routes_of(self.router)
    }

    /// A fresh router holding exactly the given route bindings, with no
    /// layer applied. Paths with a segment starting with `:` or `*`, which
    /// only a table built without axum's default checks can hold, are left
    /// out by `requires`: merging turns those checks back on.
    pub fn assemble(routes: Router) -> (r: ComposedService)
        requires
            no_legacy_segments(routes_of(routes)),
        ensures
            r.served_routes() == routes_of(routes),
            r.served_layers() == Seq::<LayerKind>::empty(),
    {
        let router = merge_into(empty_router(), routes);
        let layers: Vec<LayerKind> = Vec::new();
        proof {
            assert(layers@ =~= layers_of(router));
        }
        ComposedService { router, layers }
    }

    /// Wraps the service in one more layer, which becomes the outermost.
    pub fn layer(self, kind: LayerKind) -> (r: ComposedService)
        ensures
            r.served_layers() == self.served_layers().push(kind),
            r.served_routes() == self.served_routes(),
    {
        proof {
            use_type_invariant(&self);
        }
        let ComposedService { router, mut layers } = self;
        let router = match kind {
            LayerKind::CrossOrigin => wrap_cross_origin(router),
            LayerKind::Trace => wrap_trace(router),
        };
        layers.push(kind);
        ComposedService { router, layers }
    }

    /// The layers in the order they see an inbound request.
    pub fn inbound_order(&self) -> (r: Vec<LayerKind>)
        ensures
            r@ == inbound(self.served_layers()),
    {
        proof {
            use_type_invariant(self);
        }
        let n = self.layers.len();
        let mut out: Vec<LayerKind> = Vec::new();
        let mut i: usize = 0;
        while i < n
            invariant
                n == self.layers@.len(),
                i <= n,
                out@ == self.layers@.subrange(n - i, n as int).reverse(),
            decreases n - i,
        {
            out.push(self.layers[n - 1 - i]);
            i = i + 1;
            assert(out@ =~= self.layers@.subrange(n - i, n as int).reverse());
        }
        assert(self.layers@.subrange(0, n as int) =~= self.layers@);
        out
    }

    /// The layers in the order they see an outbound response: the order in
    /// which they were applied.
    pub fn outbound_order(&self) -> (r: Vec<LayerKind>)
        ensures
            r@ == self.served_layers(),
    {
        proof {
            use_type_invariant(self);
        }
        self.layers.clone()
    }

    /// The router with all layers applied, ready to be served.
    pub fn into_router(self) -> (r: Router)
        ensures
            layers_of(r) == self.served_layers(),
            routes_of(r) == self.served_routes(),
    {
        self.router
    }
}

/// Builds the service from the presentation layer's route bindings: the
/// cross-origin policy applied first, the trace layer last, so tracing is
/// the outermost layer.
pub fn create_app(routes: Router) -> (r: ComposedService)
    requires
        no_legacy_segments(routes_of(routes)),
    ensures
        r.served_routes() == routes_of(routes),
        r.served_layers() == standard_layers(),
        inbound(r.served_layers()) == seq![LayerKind::Trace, LayerKind::CrossOrigin],
{
    let app = ComposedService::assemble(routes);
    let app = app.layer(LayerKind::CrossOrigin);
    let app = app.layer(LayerKind::Trace);
    proof {
        assert(app.served_layers() =~= standard_layers());
        assert(inbound(app.served_layers()) =~= seq![LayerKind::Trace, LayerKind::CrossOrigin]);
    }
    app
}

/// Applying layer `a` and then layer `b` to any stack puts `b` first and
/// `a` second in the inbound order, ahead of every layer applied before.
pub proof fn lemma_last_applied_is_outermost(applied: Seq<LayerKind>, a: LayerKind, b: LayerKind)
    ensures
        inbound(applied.push(a).push(b)) == seq![b, a] + inbound(applied),
{
    assert(inbound(applied.push(a).push(b)) =~= seq![b, a] + inbound(applied));
}

/// Of two layers applied in the order `i` before `j`, the later one sees an
/// inbound request strictly before the earlier one.
pub proof fn lemma_inbound_position(applied: Seq<LayerKind>, i: int, j: int)
    requires
        0 <= i < j < applied.len(),
    ensures
        inbound(applied)[applied.len() - 1 - j] == applied[j],
        inbound(applied)[applied.len() - 1 - i] == applied[i],
        applied.len() - 1 - j < applied.len() - 1 - i,
{
}

} // verus!
