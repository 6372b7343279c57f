use vstd::prelude::*;
use crate::errors::{ApiError, CacheError, DatabaseError, S3Error};
use crate::models::{CreateResponseModel, CreateResponseView, CreateUrlRequest, Url, UrlView};
use crate::qr::{generate_qr_code, qr_result};
use crate::short_code::{generate_short_code, is_short_code};
use crate::validation::{url_check, validate_url};

verus! {

/// The public bases from which short URLs and image URLs are built.
pub struct ServiceConfig {
    /// The base of every short URL, `{app_domain}/{code}`.
    pub app_domain: String,
    /// The base of every image URL, `{cdn_domain}/{code}.png`.
    pub cdn_domain: String,
}

/// The mathematical value of a service configuration.
pub struct ServiceConfigView {
    pub app_domain: Seq<char>,
    pub cdn_domain: Seq<char>,
}

impl View for ServiceConfig {
    type V = ServiceConfigView;

    open spec fn view(&self) -> ServiceConfigView {
        ServiceConfigView { app_domain: self.app_domain@, cdn_domain: self.cdn_domain@ }
    }
}

/// Where a create stands; each state keeps the code and the long URL.
pub enum CreateState {
    /// The mapping was handed to the store.
    AwaitPersist { code: String, long_url: String },
    /// The QR image was handed to the object store.
    AwaitUpload { code: String, long_url: String },
    /// The mapping is being written to the cache.
    AwaitCacheWarm { code: String, long_url: String },
    /// The response has been given.
    Done,
}

/// What the host is to do next for a create.
pub enum CreateAction {
    /// Insert the mapping into the store.
    Persist(Url),
    /// Store `image` in the object store under `file_name`.
    Upload { image: Vec<u8>, file_name: String },
    /// Write `key -> value` to the cache; the outcome does not matter.
    WriteCache { key: String, value: String },
    /// Answer the caller.
    Respond(Result<CreateResponseModel, ApiError>),
}

/// What the host reports back after performing an action.
pub enum CreateEvent {
    Persisted(Result<Url, DatabaseError>),
    Uploaded(Result<(), S3Error>),
    CacheWritten(Result<(), CacheError>),
}

/// The mathematical value of a create state.
pub enum CreateStateView {
    AwaitPersist(Seq<char>, Seq<char>),
    AwaitUpload(Seq<char>, Seq<char>),
    AwaitCacheWarm(Seq<char>, Seq<char>),
    Done,
}

/// The mathematical value of a create action.
pub enum CreateActionView {
    Persist(UrlView),
    Upload(Seq<u8>, Seq<char>),
    WriteCache(Seq<char>, Seq<char>),
    Respond(Result<CreateResponseView, ApiError>),
}

/// The mathematical value of a create event: whether the insert or the
/// upload succeeded; the cache write's outcome carries nothing.
pub enum CreateEventView {
    Persisted(bool),
    Uploaded(bool),
    CacheWritten,
}

impl View for CreateState {
    type V = CreateStateView;

    open spec fn view(&self) -> CreateStateView {
        match self {
            CreateState::AwaitPersist { code, long_url } => CreateStateView::AwaitPersist(code@, long_url@),
            CreateState::AwaitUpload { code, long_url } => CreateStateView::AwaitUpload(code@, long_url@),
            CreateState::AwaitCacheWarm { code, long_url } => CreateStateView::AwaitCacheWarm(code@, long_url@),
            CreateState::Done => CreateStateView::Done,
        }
    }
}

impl View for CreateAction {
    type V = CreateActionView;

    open spec fn view(&self) -> CreateActionView {
        match self {
            CreateAction::Persist(m) => CreateActionView::Persist(m@),
            CreateAction::Upload { image, file_name } => CreateActionView::Upload(image@, file_name@),
            CreateAction::WriteCache { key, value } => CreateActionView::WriteCache(key@, value@),
            CreateAction::Respond(Ok(m)) => CreateActionView::Respond(Ok(m@)),
            CreateAction::Respond(Err(e)) => CreateActionView::Respond(Err(*e)),
        }
    }
}

impl View for CreateEvent {
    type V = CreateEventView;

    open spec fn view(&self) -> CreateEventView {
        match self {
            CreateEvent::Persisted(r) => CreateEventView::Persisted(r is Ok),
            CreateEvent::Uploaded(r) => CreateEventView::Uploaded(r is Ok),
            CreateEvent::CacheWritten(_) => CreateEventView::CacheWritten,
        }
    }
}

/// `{app_domain}/{code}`.
pub open spec fn short_url_of(cfg: ServiceConfigView, code: Seq<char>) -> Seq<char> {
    cfg.app_domain + seq!['/'] + code
}

/// `{code}.png`.
pub open spec fn file_name_of(code: Seq<char>) -> Seq<char> {
    code + seq!['.', 'p', 'n', 'g']
}

/// `{cdn_domain}/{code}.png`.
pub open spec fn image_url_of(cfg: ServiceConfigView, code: Seq<char>) -> Seq<char> {
    cfg.cdn_domain + seq!['/'] + file_name_of(code)
}

/// The first state and action of creating a short URL for `url` with the
/// drawn `code`: a rejected URL is answered at once, a valid one goes to the
/// store.
pub open spec fn create_begin(url: Seq<char>, code: Seq<char>) -> (CreateStateView, CreateActionView) {
    match url_check(url) {
        Err(e) => (CreateStateView::Done, CreateActionView::Respond(Err(e))),
        Ok(_) => (
            CreateStateView::AwaitPersist(code, url),
            CreateActionView::Persist(UrlView { id: code, url }),
        ),
    }
}

/// Whether `e` answers the action that state `s` waits on.
pub open spec fn create_accepts(s: CreateStateView, e: CreateEventView) -> bool {
    match s {
        CreateStateView::AwaitPersist(_, _) => e is Persisted,
        CreateStateView::AwaitUpload(_, _) => e is Uploaded,
        CreateStateView::AwaitCacheWarm(_, _) => e is CacheWritten,
        CreateStateView::Done => false,
    }
}

/// What follows a successful insert, given what QR generation yielded.
pub open spec fn create_after_qr_spec(
    cfg: ServiceConfigView,
    code: Seq<char>,
    url: Seq<char>,
    qr: Result<Seq<u8>, ApiError>,
) -> (CreateStateView, CreateActionView) {
    match qr {
        Err(e) => (CreateStateView::Done, CreateActionView::Respond(Err(e))),
        Ok(image) => (CreateStateView::AwaitUpload(code, url), CreateActionView::Upload(image, file_name_of(code))),
    }
}

/// The create transition: each step runs only when the one before it
/// succeeded; a failure of the store, of QR generation or of the upload is an
/// internal error, with no undoing of the stored mapping; the cache write's
/// outcome is ignored and the response follows it.
pub open spec fn create_next(cfg: ServiceConfigView, s: CreateStateView, e: CreateEventView) -> (
    CreateStateView,
    CreateActionView,
) {
    match (s, e) {
        (CreateStateView::AwaitPersist(_, _), CreateEventView::Persisted(false)) => (
            CreateStateView::Done,
            CreateActionView::Respond(Err(ApiError::InternalServerError)),
        ),
        (CreateStateView::AwaitPersist(code, url), CreateEventView::Persisted(true)) =>
            create_after_qr_spec(cfg, code, url, qr_result(short_url_of(cfg, code))),
        (CreateStateView::AwaitUpload(_, _), CreateEventView::Uploaded(false)) => (
            CreateStateView::Done,
            CreateActionView::Respond(Err(ApiError::InternalServerError)),
        ),
        (CreateStateView::AwaitUpload(code, url), CreateEventView::Uploaded(true)) => (
            CreateStateView::AwaitCacheWarm(code, url),
            CreateActionView::WriteCache(code, url),
        ),
        (CreateStateView::AwaitCacheWarm(code, _), CreateEventView::CacheWritten) => (
            CreateStateView::Done,
            CreateActionView::Respond(
                Ok(CreateResponseView { short_url: short_url_of(cfg, code), qr_code_image: image_url_of(cfg, code) }),
            ),
        ),
        _ => (CreateStateView::Done, CreateActionView::Respond(Err(ApiError::InternalServerError))),
    }
}

/// `{base}/{tail}`.
fn join_path(base: &String, tail: &str) -> (r: String)
    ensures
        r@ == base@ + seq!['/'] + tail@,
{
    let mut s = base.clone();
    let slash = "/";
    proof {
        reveal_strlit("/");
    }
    s.append(slash);
    s.append(tail);
    s
}

/// `{code}.png`.
fn file_name(code: &String) -> (r: String)
    ensures
        r@ == file_name_of(code@),
{
    let mut s = code.clone();
    let ext = ".png";
    proof {
        reveal_strlit(".png");
    }
    s.append(ext);
    s
}

/// Starts a create: validates the URL, and for a valid one draws a fresh
/// short code and asks for the mapping to be stored.
pub fn create_start(request: &CreateUrlRequest) -> (r: (CreateState, CreateAction))
    ensures
        exists|code: Seq<char>| is_short_code(code) && (r.0@, r.1@) == create_begin(request.url@, code),
{
    match validate_url(request.url.as_str()) {
        Err(e) => {
            let ghost witness = seq!['a', 'a', 'a', 'a', 'a', 'a'];
            assert(is_short_code(witness));
            assert((CreateStateView::Done, CreateActionView::Respond(Err(e))) == create_begin(request.url@, witness));
            (CreateState::Done, CreateAction::Respond(Err(e)))
        },
        Ok(()) => {
            let code = generate_short_code();
            let mapping = Url { id: code.clone(), url: request.url.clone() };
            let r = (CreateState::AwaitPersist { code, long_url: request.url.clone() }, CreateAction::Persist(mapping));
            assert((r.0@, r.1@) == create_begin(request.url@, r.0@->AwaitPersist_0));
            r
        },
    }
}

/// Goes on after a successful insert, given what QR generation yielded for
/// the short URL: an image is handed to the object store as `{code}.png`, a
/// failure ends the create with that error.
pub fn create_after_qr(
    config: &ServiceConfig,
    code: String,
    long_url: String,
    qr: Result<Vec<u8>, ApiError>,
) -> (r: (CreateState, CreateAction))
    ensures
        (r.0@, r.1@) == create_after_qr_spec(
            config@,
            code@,
            long_url@,
            match qr {
                Ok(v) => Ok::<Seq<u8>, ApiError>(v@),
                Err(e) => Err::<Seq<u8>, ApiError>(e),
            },
        ),
{
    match qr {
        Err(e) => (CreateState::Done, CreateAction::Respond(Err(e))),
        Ok(image) => {
            let file_name = file_name(&code);
            (CreateState::AwaitUpload { code, long_url }, CreateAction::Upload { image, file_name })
        },
    }
}

/// Takes one step of a create on the outcome of the last action.
pub fn create_step(config: &ServiceConfig, state: CreateState, event: CreateEvent) -> (r: (CreateState, CreateAction))
    requires
        create_accepts(state@, event@),
    ensures
        (r.0@, r.1@) == create_next(config@, state@, event@),
{
    match (state, event) {
        (CreateState::AwaitPersist { code: _, long_url: _ }, CreateEvent::Persisted(Err(_))) => (
            CreateState::Done,
            CreateAction::Respond(Err(ApiError::InternalServerError)),
        ),
        (CreateState::AwaitPersist { code, long_url }, CreateEvent::Persisted(Ok(_))) => {
            let short_url = join_path(&config.app_domain, code.as_str());
            let qr = generate_qr_code(short_url.as_str());
            create_after_qr(config, code, long_url, qr)
        },
        (CreateState::AwaitUpload { code: _, long_url: _ }, CreateEvent::Uploaded(Err(_))) => (
            CreateState::Done,
            CreateAction::Respond(Err(ApiError::InternalServerError)),
        ),
        (CreateState::AwaitUpload { code, long_url }, CreateEvent::Uploaded(Ok(()))) => {
            let key = code.clone();
            let value = long_url.clone();
            (CreateState::AwaitCacheWarm { code, long_url }, CreateAction::WriteCache { key, value })
        },
        (CreateState::AwaitCacheWarm { code, long_url: _ }, CreateEvent::CacheWritten(_)) => {
            let short_url = join_path(&config.app_domain, code.as_str());
            let name = file_name(&code);
            let qr_code_image = join_path(&config.cdn_domain, name.as_str());
            (CreateState::Done, CreateAction::Respond(Ok(CreateResponseModel { short_url, qr_code_image })))
        },
        (_, _) => (CreateState::Done, CreateAction::Respond(Err(ApiError::InternalServerError))),
    }
}

} // verus!
