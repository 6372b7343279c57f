use vstd::prelude::*;
use crate::create::{
    create_begin, create_next, CreateActionView, CreateEventView, CreateStateView, ServiceConfigView,
};
use crate::errors::{ApiError, NOT_FOUND_MESSAGE};
use crate::models::{CreateResponseView, UrlView};
use crate::resolve::{resolve_begin, resolve_next, ResolveActionView, ResolveEventView, ResolveStateView};
use crate::validation::url_check;

verus! {

/// A model of the three collaborators: the store's mappings, the cache's
/// entries, and whether each service is reachable.
pub struct Backends {
    pub store: Map<Seq<char>, Seq<char>>,
    pub cache: Map<Seq<char>, Seq<char>>,
    pub store_up: bool,
    pub cache_up: bool,
    pub upload_up: bool,
}

/// The cache holds no entry that disagrees with the store.
pub open spec fn consistent(b: Backends) -> bool {
    forall|k: Seq<char>| #[trigger]
        b.cache.contains_key(k) ==> b.store.contains_key(k) && b.cache[k] == b.store[k]
}

/// A cache write: it takes effect only while the cache is reachable.
pub open spec fn cache_write(b: Backends, k: Seq<char>, v: Seq<char>) -> Backends {
    if b.cache_up {
        Backends { cache: b.cache.insert(k, v), ..b }
    } else {
        b
    }
}

/// How the collaborators answer an action of a resolution, and what it leaves.
pub open spec fn resolve_answer(b: Backends, a: ResolveActionView) -> (Backends, ResolveEventView) {
    match a {
        ResolveActionView::ReadCache(k) => (
            b,
            ResolveEventView::CacheRead(
                if b.cache_up && b.cache.contains_key(k) {
                    Some(b.cache[k])
                } else {
                    None
                },
            ),
        ),
        ResolveActionView::ReadStore(c) => (
            b,
            ResolveEventView::StoreRead(
                if !b.store_up {
                    Err(())
                } else if b.store.contains_key(c) {
                    Ok(Some(UrlView { id: c, url: b.store[c] }))
                } else {
                    Ok(None)
                },
            ),
        ),
        ResolveActionView::WriteCache(k, v) => (cache_write(b, k, v), ResolveEventView::CacheWritten),
        ResolveActionView::Respond(_) => (b, ResolveEventView::CacheWritten),
    }
}

/// Runs a resolution from state `s` and pending action `a` against `b`, for
/// at most `fuel` actions: the backends after it, the response, and the
/// actions taken.
pub open spec fn run_resolve(b: Backends, s: ResolveStateView, a: ResolveActionView, fuel: nat) -> (
    Backends,
    Result<Seq<char>, ApiError>,
    Seq<ResolveActionView>,
)
    decreases fuel,
{
    match a {
        ResolveActionView::Respond(r) => (b, r, seq![a]),
        _ => if fuel == 0 {
            (b, Err(ApiError::InternalServerError), seq![a])
        } else {
            let (b2, e) = resolve_answer(b, a);
            let (s2, a2) = resolve_next(s, e);
            let (b3, r, log) = run_resolve(b2, s2, a2, (fuel - 1) as nat);
            (b3, r, seq![a] + log)
        },
    }
}

/// A whole resolution of `code` against `b`.
pub open spec fn resolve_in(b: Backends, code: Seq<char>) -> (
    Backends,
    Result<Seq<char>, ApiError>,
    Seq<ResolveActionView>,
) {
    run_resolve(b, resolve_begin(code).0, resolve_begin(code).1, 3)
}

/// How the collaborators answer an action of a create, and what it leaves:
/// an insert fails on an unreachable store or a code already taken.
pub open spec fn create_answer(b: Backends, a: CreateActionView) -> (Backends, CreateEventView) {
    match a {
        CreateActionView::Persist(m) => if b.store_up && !b.store.contains_key(m.id) {
            (Backends { store: b.store.insert(m.id, m.url), ..b }, CreateEventView::Persisted(true))
        } else {
            (b, CreateEventView::Persisted(false))
        },
        CreateActionView::Upload(_, _) => (b, CreateEventView::Uploaded(b.upload_up)),
        CreateActionView::WriteCache(k, v) => (cache_write(b, k, v), CreateEventView::CacheWritten),
        CreateActionView::Respond(_) => (b, CreateEventView::CacheWritten),
    }
}

/// Runs a create from state `s` and pending action `a` against `b`, for at
/// most `fuel` actions.
pub open spec fn run_create(
    cfg: ServiceConfigView,
    b: Backends,
    s: CreateStateView,
    a: CreateActionView,
    fuel: nat,
) -> (Backends, Result<CreateResponseView, ApiError>, Seq<CreateActionView>)
    decreases fuel,
{
    match a {
        CreateActionView::Respond(r) => (b, r, seq![a]),
        _ => if fuel == 0 {
            (b, Err(ApiError::InternalServerError), seq![a])
        } else {
            let (b2, e) = create_answer(b, a);
            let (s2, a2) = create_next(cfg, s, e);
            let (b3, r, log) = run_create(cfg, b2, s2, a2, (fuel - 1) as nat);
            (b3, r, seq![a] + log)
        },
    }
}

/// A whole create of `url` with the drawn `code` against `b`.
pub open spec fn create_in(cfg: ServiceConfigView, b: Backends, url: Seq<char>, code: Seq<char>) -> (
    Backends,
    Result<CreateResponseView, ApiError>,
    Seq<CreateActionView>,
) {
    run_create(cfg, b, create_begin(url, code).0, create_begin(url, code).1, 3)
}

/// A resolution keeps the cache consistent with the store, and changes
/// nothing else.
pub proof fn lemma_resolve_keeps_consistency(b: Backends, code: Seq<char>)
    requires
        consistent(b),
    ensures
        consistent(resolve_in(b, code).0),
        resolve_in(b, code).0.store == b.store,
{
    reveal_with_fuel(run_resolve, 4);
    let b1 = resolve_in(b, code).0;
    assert forall|k: Seq<char>| #[trigger] b1.cache.contains_key(k) implies b1.store.contains_key(k)
        && b1.cache[k] == b1.store[k] by {
        if k != code {
            assert(b.cache.contains_key(k));
        }
    }
}

/// Once a create has succeeded, resolving its code yields the submitted URL
/// exactly.
pub proof fn lemma_created_code_resolves(cfg: ServiceConfigView, b: Backends, url: Seq<char>, code: Seq<char>)
    requires
        consistent(b),
    ensures
        create_in(cfg, b, url, code).1 is Ok ==> resolve_in(create_in(cfg, b, url, code).0, code).1 == Ok::<
            Seq<char>,
            ApiError,
        >(url),
{
    reveal_with_fuel(run_create, 4);
    reveal_with_fuel(run_resolve, 4);
}

/// When the insert succeeds and the upload fails, the create reports an
/// internal error, yet the stored code still resolves to the submitted URL.
pub proof fn lemma_upload_failure_keeps_mapping(
    cfg: ServiceConfigView,
    b: Backends,
    url: Seq<char>,
    code: Seq<char>,
)
    requires
        consistent(b),
        b.store_up,
        !b.upload_up,
        !b.store.contains_key(code),
        url_check(url) is Ok,
    ensures
        create_in(cfg, b, url, code).1 == Err::<CreateResponseView, ApiError>(ApiError::InternalServerError),
        resolve_in(create_in(cfg, b, url, code).0, code).1 == Ok::<Seq<char>, ApiError>(url),
{
    reveal_with_fuel(run_create, 4);
    reveal_with_fuel(run_resolve, 4);
}

/// When the insert fails, the create reports an internal error, and neither
/// the object store nor the cache is called.
pub proof fn lemma_store_failure_stops_create(
    cfg: ServiceConfigView,
    b: Backends,
    url: Seq<char>,
    code: Seq<char>,
)
    requires
        url_check(url) is Ok,
        !b.store_up || b.store.contains_key(code),
    ensures
        create_in(cfg, b, url, code) == (
            b,
            Err::<CreateResponseView, ApiError>(ApiError::InternalServerError),
            seq![
                CreateActionView::Persist(UrlView { id: code, url }),
                CreateActionView::Respond(Err(ApiError::InternalServerError)),
            ],
        ),
{
    reveal_with_fuel(run_create, 4);
}

/// A code that the store does not hold is "not found".
pub proof fn lemma_unknown_code_not_found(b: Backends, code: Seq<char>)
    requires
        consistent(b),
        b.store_up,
        !b.store.contains_key(code),
    ensures
        resolve_in(b, code).1 == Err::<Seq<char>, ApiError>(ApiError::NotFound(NOT_FOUND_MESSAGE)),
{
    reveal_with_fuel(run_resolve, 4);
}

/// A cache hit is returned as it is, without a call to the store, and leaves
/// the backends unchanged.
pub proof fn lemma_cache_hit_skips_store(b: Backends, code: Seq<char>)
    requires
        b.cache_up,
        b.cache.contains_key(code),
    ensures
        resolve_in(b, code) == (
            b,
            Ok::<Seq<char>, ApiError>(b.cache[code]),
            seq![ResolveActionView::ReadCache(code), ResolveActionView::Respond(Ok(b.cache[code]))],
        ),
{
    reveal_with_fuel(run_resolve, 4);
}

/// Resolving the same code twice gives the same response both times.
pub proof fn lemma_resolve_idempotent(b: Backends, code: Seq<char>)
    requires
        consistent(b),
    ensures
        resolve_in(resolve_in(b, code).0, code).1 == resolve_in(b, code).1,
{
    reveal_with_fuel(run_resolve, 4);
}

} // verus!
