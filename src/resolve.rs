use vstd::prelude::*;
use crate::errors::{ApiError, CacheError, DatabaseError, NOT_FOUND_MESSAGE};
use crate::models::{Url, UrlView};

verus! {

/// Where a resolution stands.
pub enum ResolveState {
    /// The cache was asked for `code`.
    AwaitCache { code: String },
    /// The store was asked for `code` after a cache miss.
    AwaitStore { code: String },
    /// `long_url` was found in the store and is being written back to the cache.
    AwaitCacheWarm { long_url: String },
    /// The response has been given.
    Done,
}

/// What the host is to do next for a resolution.
pub enum ResolveAction {
    /// Read `key` from the cache.
    ReadCache { key: String },
    /// Look `code` up in the store.
    ReadStore { code: String },
    /// Write `key -> value` to the cache; the outcome does not matter.
    WriteCache { key: String, value: String },
    /// Answer the caller.
    Respond(Result<String, ApiError>),
}

/// What the host reports back after performing an action.
pub enum ResolveEvent {
    CacheRead(Result<String, CacheError>),
    StoreRead(Result<Option<Url>, DatabaseError>),
    CacheWritten(Result<(), CacheError>),
}

/// The mathematical value of a resolution state.
pub enum ResolveStateView {
    AwaitCache(Seq<char>),
    AwaitStore(Seq<char>),
    AwaitCacheWarm(Seq<char>),
    Done,
}

/// The mathematical value of a resolution action.
pub enum ResolveActionView {
    ReadCache(Seq<char>),
    ReadStore(Seq<char>),
    WriteCache(Seq<char>, Seq<char>),
    Respond(Result<Seq<char>, ApiError>),
}

/// A cache answer is a value or a miss (an error counts as a miss); a store
/// answer is a mapping, nothing, or a failure.
pub enum ResolveEventView {
    CacheRead(Option<Seq<char>>),
    StoreRead(Result<Option<UrlView>, ()>),
    CacheWritten,
}

impl View for ResolveState {
    type V = ResolveStateView;

    open spec fn view(&self) -> ResolveStateView {
        match self {
            ResolveState::AwaitCache { code } => ResolveStateView::AwaitCache(code@),
            ResolveState::AwaitStore { code } => ResolveStateView::AwaitStore(code@),
            ResolveState::AwaitCacheWarm { long_url } => ResolveStateView::AwaitCacheWarm(long_url@),
            ResolveState::Done => ResolveStateView::Done,
        }
    }
}

/// The mathematical value of a resolution response.
pub open spec fn response_view(r: Result<String, ApiError>) -> Result<Seq<char>, ApiError> {
    match r {
        Ok(s) => Ok(s@),
        Err(e) => Err(e),
    }
}

impl View for ResolveAction {
    type V = ResolveActionView;

    open spec fn view(&self) -> ResolveActionView {
        match self {
            ResolveAction::ReadCache { key } => ResolveActionView::ReadCache(key@),
            ResolveAction::ReadStore { code } => ResolveActionView::ReadStore(code@),
            ResolveAction::WriteCache { key, value } => ResolveActionView::WriteCache(key@, value@),
            ResolveAction::Respond(r) => ResolveActionView::Respond(response_view(*r)),
        }
    }
}

impl View for ResolveEvent {
    type V = ResolveEventView;

    open spec fn view(&self) -> ResolveEventView {
        match self {
            ResolveEvent::CacheRead(Ok(v)) => ResolveEventView::CacheRead(Some(v@)),
            ResolveEvent::CacheRead(Err(_)) => ResolveEventView::CacheRead(None),
            ResolveEvent::StoreRead(Ok(Some(u))) => ResolveEventView::StoreRead(Ok(Some(u@))),
            ResolveEvent::StoreRead(Ok(None)) => ResolveEventView::StoreRead(Ok(None)),
            ResolveEvent::StoreRead(Err(_)) => ResolveEventView::StoreRead(Err(())),
            ResolveEvent::CacheWritten(_) => ResolveEventView::CacheWritten,
        }
    }
}

/// The first state and action of resolving `code`: ask the cache.
pub open spec fn resolve_begin(code: Seq<char>) -> (ResolveStateView, ResolveActionView) {
    (ResolveStateView::AwaitCache(code), ResolveActionView::ReadCache(code))
}

/// Whether `e` answers the action that state `s` waits on.
pub open spec fn resolve_accepts(s: ResolveStateView, e: ResolveEventView) -> bool {
    match s {
        ResolveStateView::AwaitCache(_) => e is CacheRead,
        ResolveStateView::AwaitStore(_) => e is StoreRead,
        ResolveStateView::AwaitCacheWarm(_) => e is CacheWritten,
        ResolveStateView::Done => false,
    }
}

/// The cache-aside transition: a cache hit answers at once; a miss asks the
/// store; a stored mapping is written back to the cache and then returned,
/// whatever the write's outcome; no mapping is "not found"; a store failure
/// is an internal error.
pub open spec fn resolve_next(s: ResolveStateView, e: ResolveEventView) -> (
    ResolveStateView,
    ResolveActionView,
) {
    match (s, e) {
        (ResolveStateView::AwaitCache(_), ResolveEventView::CacheRead(Some(v))) => (
            ResolveStateView::Done,
            ResolveActionView::Respond(Ok(v)),
        ),
        (ResolveStateView::AwaitCache(code), ResolveEventView::CacheRead(None)) => (
            ResolveStateView::AwaitStore(code),
            ResolveActionView::ReadStore(code),
        ),
        (ResolveStateView::AwaitStore(code), ResolveEventView::StoreRead(Ok(Some(m)))) => (
            ResolveStateView::AwaitCacheWarm(m.url),
            ResolveActionView::WriteCache(code, m.url),
        ),
        (ResolveStateView::AwaitStore(_), ResolveEventView::StoreRead(Ok(None))) => (
            ResolveStateView::Done,
            ResolveActionView::Respond(Err(ApiError::NotFound(NOT_FOUND_MESSAGE))),
        ),
        (ResolveStateView::AwaitStore(_), ResolveEventView::StoreRead(Err(_))) => (
            ResolveStateView::Done,
            ResolveActionView::Respond(Err(ApiError::InternalServerError)),
        ),
        (ResolveStateView::AwaitCacheWarm(u), ResolveEventView::CacheWritten) => (
            ResolveStateView::Done,
            ResolveActionView::Respond(Ok(u)),
        ),
        _ => (ResolveStateView::Done, ResolveActionView::Respond(Err(ApiError::InternalServerError))),
    }
}

/// Starts resolving `code`.
pub fn resolve_start(code: &str) -> (r: (ResolveState, ResolveAction))
    ensures
        (r.0@, r.1@) == resolve_begin(code@),
{
    (
        ResolveState::AwaitCache { code: String::from_str(code) },
        ResolveAction::ReadCache { key: String::from_str(code) },
    )
}

/// Takes one step of a resolution on the outcome of the last action.
pub fn resolve_step(state: ResolveState, event: ResolveEvent) -> (r: (ResolveState, ResolveAction))
    requires
        resolve_accepts(state@, event@),
    ensures
        (r.0@, r.1@) == resolve_next(state@, event@),
{
    match (state, event) {
        (ResolveState::AwaitCache { code: _ }, ResolveEvent::CacheRead(Ok(v))) => (
            ResolveState::Done,
            ResolveAction::Respond(Ok(v)),
        ),
        (ResolveState::AwaitCache { code }, ResolveEvent::CacheRead(Err(_))) => {
            let key = code.clone();
            (ResolveState::AwaitStore { code }, ResolveAction::ReadStore { code: key })
        },
        (ResolveState::AwaitStore { code }, ResolveEvent::StoreRead(Ok(Some(m)))) => {
            let value = m.url.clone();
            (
                ResolveState::AwaitCacheWarm { long_url: m.url },
                ResolveAction::WriteCache { key: code, value },
            )
        },
        (ResolveState::AwaitStore { code: _ }, ResolveEvent::StoreRead(Ok(None))) => (
            ResolveState::Done,
            ResolveAction::Respond(Err(ApiError::NotFound(NOT_FOUND_MESSAGE))),
        ),
        (ResolveState::AwaitStore { code: _ }, ResolveEvent::StoreRead(Err(_))) => (
            ResolveState::Done,
            ResolveAction::Respond(Err(ApiError::InternalServerError)),
        ),
        (ResolveState::AwaitCacheWarm { long_url }, ResolveEvent::CacheWritten(_)) => (
            ResolveState::Done,
            ResolveAction::Respond(Ok(long_url)),
        ),
        (_, _) => (ResolveState::Done, ResolveAction::Respond(Err(ApiError::InternalServerError))),
    }
}

} // verus!
