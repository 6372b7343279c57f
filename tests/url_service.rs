use std::collections::HashMap;
use url_shortener::create::{create_start, create_step, CreateAction, CreateEvent, CreateState, ServiceConfig};
use url_shortener::errors::{ApiError, CacheError, DatabaseError, S3Error};
use url_shortener::models::{CreateResponseModel, CreateUrlRequest, Url};
use url_shortener::resolve::{resolve_start, resolve_step, ResolveAction, ResolveEvent, ResolveState};

const TEST_SHORT_URL: &str = "1234556";
const TEST_VALID_URL: &str = "https://www.google.com";

fn config() -> ServiceConfig {
    ServiceConfig { app_domain: "yes".to_string(), cdn_domain: "yes".to_string() }
}

fn request(url: &str) -> CreateUrlRequest {
    CreateUrlRequest { url: url.to_string() }
}

fn stored(id: &str, url: &str) -> Url {
    Url { id: id.to_string(), url: url.to_string() }
}

/// Feeds `events` to a resolution of `code` in turn; returns the response and
/// how many store lookups were asked for.
fn resolve_with(code: &str, events: Vec<ResolveEvent>) -> (Result<String, ApiError>, usize) {
    let (mut state, mut action): (ResolveState, ResolveAction) = resolve_start(code);
    let mut store_reads = 0;
    for event in events {
        if let ResolveAction::ReadStore { .. } = action {
            store_reads += 1;
        }
        let (s, a) = resolve_step(state, event);
        state = s;
        action = a;
    }
    match action {
        ResolveAction::Respond(r) => (r, store_reads),
        _ => panic!("the resolution did not finish"),
    }
}

/// Feeds `events` to a create in turn; returns the response.
fn create_with(url: &str, events: Vec<CreateEvent>) -> Result<CreateResponseModel, ApiError> {
    let cfg = config();
    let (mut state, mut action): (CreateState, CreateAction) = create_start(&request(url));
    for event in events {
        let (s, a) = create_step(&cfg, state, event);
        state = s;
        action = a;
    }
    match action {
        CreateAction::Respond(r) => r,
        _ => panic!("the create did not finish"),
    }
}

#[test]
fn get_long_url_returns_internal_server_error() {
    let (result, _) = resolve_with(
        TEST_SHORT_URL,
        vec![ResolveEvent::CacheRead(Err(CacheError)), ResolveEvent::StoreRead(Err(DatabaseError))],
    );
    assert!(result.is_err());
    assert_eq!(result.unwrap_err(), ApiError::InternalServerError);
}

#[test]
fn get_long_url_returns_not_found_error() {
    let (result, _) = resolve_with(
        TEST_SHORT_URL,
        vec![ResolveEvent::CacheRead(Err(CacheError)), ResolveEvent::StoreRead(Ok(None))],
    );
    assert!(result.is_err());
    assert_eq!(result.unwrap_err(), ApiError::NotFound("The url with this format was not found"));
}

#[test]
fn get_long_url_returns_ok() {
    let (result, _) = resolve_with(
        TEST_SHORT_URL,
        vec![
            ResolveEvent::CacheRead(Err(CacheError)),
            ResolveEvent::StoreRead(Ok(Some(stored("", "")))),
            ResolveEvent::CacheWritten(Err(CacheError)),
        ],
    );
    assert!(result.is_ok());
    assert!(result.ok().is_some());
}

#[test]
fn create_url_returns_url_empty_error() {
    let result = create_with("", vec![]);
    assert!(result.is_err());
    assert_eq!(result.unwrap_err(), ApiError::BadRequest("Url is empty"));
}

#[test]
fn crate_url_returns_invalid_url_error() {
    let result = create_with("invalid_url", vec![]);
    assert!(result.is_err());
    assert_eq!(result.unwrap_err(), ApiError::BadRequest("Invalid url"));
}

#[test]
fn create_url_on_database_returns_internal_server_error() {
    let result = create_with(TEST_VALID_URL, vec![CreateEvent::Persisted(Err(DatabaseError))]);
    assert!(result.is_err());
    assert_eq!(result.unwrap_err(), ApiError::InternalServerError);
}

#[test]
fn create_url_on_s3_returns_internal_server_error() {
    let result = create_with(
        TEST_VALID_URL,
        vec![
            CreateEvent::Persisted(Ok(stored(TEST_SHORT_URL, TEST_VALID_URL))),
            CreateEvent::Uploaded(Err(S3Error)),
        ],
    );
    assert!(result.is_err());
    assert_eq!(result.unwrap_err(), ApiError::InternalServerError);
}

#[test]
fn create_url_returns_ok() {
    let result = create_with(
        TEST_VALID_URL,
        vec![
            CreateEvent::Persisted(Ok(stored(TEST_SHORT_URL, TEST_VALID_URL))),
            CreateEvent::Uploaded(Ok(())),
            CreateEvent::CacheWritten(Ok(())),
        ],
    );
    assert!(result.is_ok());
}

/// An in-memory stand-in for the store, the cache and the object store.
struct Backends {
    store: HashMap<String, String>,
    cache: HashMap<String, String>,
    images: HashMap<String, Vec<u8>>,
    store_up: bool,
    upload_up: bool,
    store_reads: usize,
    calls: Vec<&'static str>,
}

impl Backends {
    fn new() -> Self {
        Backends {
            store: HashMap::new(),
            cache: HashMap::new(),
            images: HashMap::new(),
            store_up: true,
            upload_up: true,
            store_reads: 0,
            calls: Vec::new(),
        }
    }

    /// Runs a whole create; returns the response and the drawn code.
    fn create(&mut self, cfg: &ServiceConfig, url: &str) -> (Result<CreateResponseModel, ApiError>, String) {
        let (mut state, mut action) = create_start(&request(url));
        let mut code = String::new();
        loop {
            let event = match action {
                CreateAction::Respond(r) => return (r, code),
                CreateAction::Persist(m) => {
                    self.calls.push("persist");
                    code = m.id.clone();
                    if self.store_up && !self.store.contains_key(&m.id) {
                        self.store.insert(m.id.clone(), m.url.clone());
                        CreateEvent::Persisted(Ok(m))
                    } else {
                        CreateEvent::Persisted(Err(DatabaseError))
                    }
                }
                CreateAction::Upload { image, file_name } => {
                    self.calls.push("upload");
                    if self.upload_up {
                        self.images.insert(file_name, image);
                        CreateEvent::Uploaded(Ok(()))
                    } else {
                        CreateEvent::Uploaded(Err(S3Error))
                    }
                }
                CreateAction::WriteCache { key, value } => {
                    self.calls.push("cache");
                    self.cache.insert(key, value);
                    CreateEvent::CacheWritten(Ok(()))
                }
            };
            let (s, a) = create_step(cfg, state, event);
            state = s;
            action = a;
        }
    }

    /// Runs a whole resolution of `code`.
    fn resolve(&mut self, code: &str) -> Result<String, ApiError> {
        let (mut state, mut action) = resolve_start(code);
        loop {
            let event = match action {
                ResolveAction::Respond(r) => return r,
                ResolveAction::ReadCache { key } => match self.cache.get(&key) {
                    Some(v) => ResolveEvent::CacheRead(Ok(v.clone())),
                    None => ResolveEvent::CacheRead(Err(CacheError)),
                },
                ResolveAction::ReadStore { code } => {
                    self.store_reads += 1;
                    if !self.store_up {
                        ResolveEvent::StoreRead(Err(DatabaseError))
                    } else {
                        ResolveEvent::StoreRead(Ok(self.store.get(&code).map(|u| stored(&code, u))))
                    }
                }
                ResolveAction::WriteCache { key, value } => {
                    self.cache.insert(key, value);
                    ResolveEvent::CacheWritten(Ok(()))
                }
            };
            let (s, a) = resolve_step(state, event);
            state = s;
            action = a;
        }
    }
}

#[test]
fn created_code_resolves_to_the_submitted_url() {
    let cfg = ServiceConfig { app_domain: "https://sho.rt".to_string(), cdn_domain: "https://cdn.example".to_string() };
    let mut b = Backends::new();
    let url = "https://www.google.com/search?q=verus";
    let (result, code) = b.create(&cfg, url);
    let response = result.unwrap();
    assert_eq!(response.short_url, format!("https://sho.rt/{}", code));
    assert_eq!(response.qr_code_image, format!("https://cdn.example/{}.png", code));
    assert!(b.images.contains_key(&format!("{}.png", code)));
    assert_eq!(b.calls, vec!["persist", "upload", "cache"]);
    b.cache.clear();
    assert_eq!(b.resolve(&code), Ok(url.to_string()));
}

#[test]
fn create_of_empty_url_is_bad_request() {
    let mut b = Backends::new();
    let (result, _) = b.create(&config(), "");
    assert_eq!(result.err(), Some(ApiError::BadRequest("Url is empty")));
    assert!(b.calls.is_empty());
}

#[test]
fn create_of_blank_url_is_bad_request() {
    let result = create_with(" \t\n", vec![]);
    assert_eq!(result.err(), Some(ApiError::BadRequest("Url is empty")));
}

#[test]
fn create_of_malformed_url_is_bad_request() {
    let mut b = Backends::new();
    let (result, _) = b.create(&config(), "not-a-url");
    assert_eq!(result.err(), Some(ApiError::BadRequest("Invalid url")));
    assert!(b.calls.is_empty());
}

#[test]
fn store_failure_makes_no_other_call() {
    let mut b = Backends::new();
    b.store_up = false;
    let (result, _) = b.create(&config(), TEST_VALID_URL);
    assert_eq!(result.err(), Some(ApiError::InternalServerError));
    assert_eq!(b.calls, vec!["persist"]);
    assert!(b.cache.is_empty());
    assert!(b.images.is_empty());
}

#[test]
fn upload_failure_leaves_a_resolvable_mapping() {
    let mut b = Backends::new();
    b.upload_up = false;
    let (result, code) = b.create(&config(), TEST_VALID_URL);
    assert_eq!(result.err(), Some(ApiError::InternalServerError));
    assert!(b.cache.is_empty());
    assert_eq!(b.resolve(&code), Ok(TEST_VALID_URL.to_string()));
}

#[test]
fn unknown_code_is_not_found() {
    let mut b = Backends::new();
    assert_eq!(b.resolve("abcdef"), Err(ApiError::NotFound("The url with this format was not found")));
}

#[test]
fn cache_hit_does_not_read_the_store() {
    let mut b = Backends::new();
    b.cache.insert("abc123".to_string(), "https://cached.example".to_string());
    b.store.insert("abc123".to_string(), "https://stored.example".to_string());
    assert_eq!(b.resolve("abc123"), Ok("https://cached.example".to_string()));
    assert_eq!(b.store_reads, 0);
    let (result, reads) = resolve_with("abc123", vec![ResolveEvent::CacheRead(Ok("https://x.example".to_string()))]);
    assert_eq!(result, Ok("https://x.example".to_string()));
    assert_eq!(reads, 0);
}

#[test]
fn store_hit_warms_the_cache() {
    let mut b = Backends::new();
    b.store.insert("abc123".to_string(), "https://stored.example".to_string());
    assert_eq!(b.resolve("abc123"), Ok("https://stored.example".to_string()));
    assert_eq!(b.cache.get("abc123"), Some(&"https://stored.example".to_string()));
}

#[test]
fn repeated_resolution_gives_the_same_url() {
    let mut b = Backends::new();
    b.store.insert("abc123".to_string(), "https://stored.example".to_string());
    let first = b.resolve("abc123");
    let second = b.resolve("abc123");
    let third = b.resolve("abc123");
    assert_eq!(first, Ok("https://stored.example".to_string()));
    assert_eq!(second, first);
    assert_eq!(third, first);
    assert_eq!(b.store_reads, 1);
}

#[test]
fn cache_write_failure_is_ignored() {
    let result = create_with(
        TEST_VALID_URL,
        vec![
            CreateEvent::Persisted(Ok(stored(TEST_SHORT_URL, TEST_VALID_URL))),
            CreateEvent::Uploaded(Ok(())),
            CreateEvent::CacheWritten(Err(CacheError)),
        ],
    );
    let response = result.unwrap();
    assert!(response.short_url.starts_with("yes/"));
    assert!(response.qr_code_image.starts_with("yes/"));
    assert!(response.qr_code_image.ends_with(".png"));
}
