use vstd::prelude::*;

verus! {

/// The body of a request to shorten a URL.
#[derive(Debug, PartialEq, Eq)]
pub struct CreateUrlRequest {
    pub url: String,
}

/// What a successful create returns: the public short URL and the public
/// address of its QR image.
#[derive(Debug, PartialEq, Eq)]
pub struct CreateResponseModel {
    pub short_url: String,
    pub qr_code_image: String,
}

/// The persisted mapping from a short code (`id`) to a long URL (`url`).
#[derive(Debug, PartialEq, Eq)]
pub struct Url {
    pub id: String,
    pub url: String,
}

/// The mathematical value of a stored mapping.
pub struct UrlView {
    pub id: Seq<char>,
    pub url: Seq<char>,
}

impl View for Url {
    type V = UrlView;

    open spec fn view(&self) -> UrlView {
        UrlView { id: self.id@, url: self.url@ }
    }
}

/// The mathematical value of a create response.
pub struct CreateResponseView {
    pub short_url: Seq<char>,
    pub qr_code_image: Seq<char>,
}

impl View for CreateResponseModel {
    type V = CreateResponseView;

    open spec fn view(&self) -> CreateResponseView {
        CreateResponseView { short_url: self.short_url@, qr_code_image: self.qr_code_image@ }
    }
}

/// Connection settings of the object store.
#[derive(Debug, PartialEq, Eq)]
pub struct S3Config {
    pub access_key: String,
    pub secret_access_key: String,
    pub endpoint: String,
    pub region: String,
}

/// The envelope of every HTTP response body: a success flag with either a
/// value or a message.
#[derive(Debug)]
pub struct ApiResponseModel<T> {
    pub success: bool,
    pub value: Option<T>,
    pub message: Option<String>,
}

impl<T> ApiResponseModel<T> {
    /// A failed response carrying `message` and no value.
    pub fn failure(message: Option<String>) -> (r: Self)
        ensures
            !r.success,
            r.value is None,
            r.message == message,
    {
        ApiResponseModel { success: false, value: None, message }
    }

    /// A successful response carrying `value` and no message.
    pub fn success(value: Option<T>) -> (r: Self)
        ensures
            r.success,
            r.value == value,
            r.message is None,
    {
        ApiResponseModel { success: true, value, message: None }
    }
}

} // verus!
