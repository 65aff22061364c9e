use vstd::prelude::*;
use qrcode::render::unicode::Dense1x2;
use qrcode::types::QrError;
use qrcode::QrCode;

verus! {

#[verifier::external_type_specification]
#[verifier::external_body]
pub struct ExQrError(QrError);

/// The glyph grid that qrcode draws for `text`, or `None` when it cannot
/// encode it (the text is too long for any QR version).
pub uninterp spec fn qr_glyphs_of(text: Seq<char>) -> Option<Seq<char>>;

/// Relies on qrcode's `QrCode::new` and its `Dense1x2` renderer: encodes the
/// bytes of `text` at the medium error-correction level in the smallest version
/// that holds them, and draws the modules two rows to a character, light modules
/// as full blocks so that the code reads on a dark terminal. Which outcome comes
/// depends on the text alone.
#[verifier::external_body]
fn qr_dense_glyphs(text: &str) -> (r: Result<String, QrError>)
    ensures
        match r {
            Ok(g) => qr_glyphs_of(text@) == Some(g@),
            Err(_) => qr_glyphs_of(text@) is None,
        },
{
    match QrCode::new(text) {
        Ok(code) => Ok(code.render::<Dense1x2>().dark_color(Dense1x2::Light).light_color(
            Dense1x2::Dark,
        ).build()),
        Err(e) => Err(e),
    }
}

/// Why the dashboard could not be prepared.
#[derive(Clone, Copy, Debug, PartialEq, Eq, Structural)]
pub enum StartupError {
    /// A text could not be encoded as a QR code.
    QrEncoding,
}

/// Draws `text` as a QR glyph grid.
pub fn glyph_grid(text: &str) -> (r: Result<String, StartupError>)
    ensures
        match qr_glyphs_of(text@) {
            Some(g) => r is Ok && r->Ok_0@ == g,
            None => r == Err::<String, StartupError>(StartupError::QrEncoding),
        },
{
    match qr_dense_glyphs(text) {
        Ok(g) => Ok(g),
        Err(_) => Err(StartupError::QrEncoding),
    }
}

} // verus!
