use vstd::prelude::*;
use crate::errors::ApiError;

verus! {

/// The side, in pixels, of a rendered QR image.
pub const QR_CODE_SIZE: usize = 256;

/// The PNG image of the QR code (low error correction, `QR_CODE_SIZE` pixels)
/// that encodes `s`, or `None` where the encoder cannot hold `s`.
pub uninterp spec fn qr_png_of(s: Seq<char>) -> Option<Seq<u8>>;

/// Relies on qrcode_generator's QR encoder at the low error-correction level
/// and its PNG renderer: the image depends on the text alone, and the call
/// fails where the text does not fit.
#[verifier::external_body]
fn render_qr_png(s: &str) -> (r: Option<Vec<u8>>)
    ensures
        r matches Some(v) ==> qr_png_of(s@) == Some(v@),
        r is None ==> qr_png_of(s@) is None,
{
    let encoder = qrcode_generator::qr::Encoder::new(qrcode_generator::qr::ErrorCorrection::Low);
    let symbol = encoder.encode_text(s).ok()?;
    qrcode_generator::Renderer::new(&symbol, QR_CODE_SIZE).to_png_vec().ok()
}

/// What QR generation yields for `s`: the image, or an internal error.
pub open spec fn qr_result(s: Seq<char>) -> Result<Seq<u8>, ApiError> {
    match qr_png_of(s) {
        Some(v) => Ok(v),
        None => Err(ApiError::InternalServerError),
    }
}

/// Renders `url` as a PNG QR code; a failure of the encoder is an internal
/// error.
pub fn generate_qr_code(url: &str) -> (r: Result<Vec<u8>, ApiError>)
    ensures
        r matches Ok(v) ==> qr_result(url@) == Ok::<Seq<u8>, ApiError>(v@),
        r matches Err(e) ==> qr_result(url@) == Err::<Seq<u8>, ApiError>(e),
{
    match render_qr_png(url) {
        Some(v) => Ok(v),
        None => Err(ApiError::InternalServerError),
    }
}

} // verus!
