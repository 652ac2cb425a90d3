//! The QR code that a phone scans to reach the server.

use vstd::prelude::*;

verus! {

/// How a module of a QR code is drawn on the terminal.
#[derive(Clone, Copy, Debug, PartialEq, Eq, Structural)]
pub enum Shade {
    Dark,
    Light,
}

/// The symbol type of `qrcode`.
#[verifier::external_type_specification]
#[verifier::external_body]
pub struct ExQrCode(qrcode::QrCode);

/// The error type of `qrcode`.
#[verifier::external_type_specification]
#[verifier::external_body]
pub struct ExQrError(qrcode::types::QrError);

/// The modules of a symbol row by row, true for a dark one.
pub uninterp spec fn qr_modules(code: qrcode::QrCode) -> Seq<bool>;

/// The modules of the symbol that `qrcode` makes of some bytes, if they fit in one.
pub uninterp spec fn qr_symbol(data: Seq<u8>) -> Option<Seq<bool>>;

/// The text that `qrcode` draws for a symbol, two modules to a character, with the
/// quiet zone around it.
pub uninterp spec fn qr_drawing(modules: Seq<bool>, dark: Shade, light: Shade) -> Seq<char>;

/// Encodes bytes: `qrcode::QrCode::new`. It fails exactly on the bytes for which
/// there is no symbol. The bound on the length keeps its count of bits, some thirty
/// to a byte at most, within `usize`. Nothing is claimed of what a reader makes of the
/// symbol: `qrcode` only encodes and has no decoder.
#[verifier::external_body]
fn qr_encode(data: &[u8]) -> (result: Result<qrcode::QrCode, qrcode::types::QrError>)
    requires
        data@.len() <= usize::MAX / 64,
    ensures
        match result {
            Ok(code) => qr_symbol(data@) == Some(qr_modules(code)),
            Err(_) => qr_symbol(data@) is None,
        },
{
    qrcode::QrCode::new(data)
}

/// Draws a symbol: `qrcode::QrCode::render` for `unicode::Dense1x2`, with both
/// colours set, and then `build`.
#[verifier::external_body]
fn qr_draw(code: &qrcode::QrCode, dark: Shade, light: Shade) -> (text: String)
    ensures
        text@ == qr_drawing(qr_modules(*code), dark, light),
{
    let dark = match dark {
        Shade::Dark => qrcode::render::unicode::Dense1x2::Dark,
        Shade::Light => qrcode::render::unicode::Dense1x2::Light,
    };
    let light = match light {
        Shade::Dark => qrcode::render::unicode::Dense1x2::Dark,
        Shade::Light => qrcode::render::unicode::Dense1x2::Light,
    };
    code.render().dark_color(dark).light_color(light).build()
}

/// The text that stands where a QR code could not be made.
pub open spec fn no_code_text() -> Seq<char> {
    "Failed to render QR Code"@
}

/// The QR code of some text for a terminal with light text on a dark ground: the
/// dark modules are left blank and the light ones are filled.
pub open spec fn qr_code_text(url: Seq<char>) -> Seq<char> {
    shown(
        match qr_symbol(vstd::utf8::encode_utf8(url)) {
            Some(modules) => Some(qr_drawing(modules, Shade::Light, Shade::Dark)),
            None => None,
        },
    )
}

/// A drawing, or the text that stands in for it.
pub open spec fn shown(drawing: Option<Seq<char>>) -> Seq<char> {
    match drawing {
        Some(text) => text,
        None => no_code_text(),
    }
}

/// Puts the stand-in text where there is no drawing.
pub fn drawing_or_notice(drawing: Option<String>) -> (text: String)
    ensures
        text@ == shown(
            match drawing {
                Some(drawn) => Some(drawn@),
                None => None,
            },
        ),
{
    match drawing {
        Some(drawn) => drawn,
        None => "Failed to render QR Code".to_owned(),
    }
}

/// Draws the QR code of the server's address.
pub fn generate_qr_code(url: &str) -> (text: String)
    requires
        vstd::utf8::encode_utf8(url@).len() <= usize::MAX / 64,
    ensures
        text@ == qr_code_text(url@),
{
    match qr_encode(url.as_bytes()) {
        Ok(code) => drawing_or_notice(Some(qr_draw(&code, Shade::Light, Shade::Dark))),
        Err(_) => drawing_or_notice(None),
    }
}

} // verus!
