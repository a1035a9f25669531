//! The font of the XIM preedit window.
use ab_glyph::{FontArc, FontVec, InvalidFont};
use vstd::prelude::*;

verus! {

/// `ab_glyph::FontArc`, a parsed font; the library only hands it on.
#[verifier::external_type_specification]
#[verifier::external_body]
pub struct ExFontArc(FontArc);

/// `ab_glyph::InvalidFont`, the error of a font that does not parse.
#[verifier::external_type_specification]
#[verifier::external_body]
pub struct ExInvalidFont(InvalidFont);

/// Whether ab_glyph (through ttf-parser) parses `data` as a font, taking face
/// `index` of a font collection.
pub uninterp spec fn font_parses(data: Seq<u8>, index: u32) -> bool;

/// The font data and face index that a font was parsed from.
pub uninterp spec fn font_source(font: FontArc) -> (Seq<u8>, u32);

/// `FontVec::try_from_vec_and_index` of ab_glyph, the font turned into a
/// `FontArc`: it succeeds exactly when the data parses as a font, and the
/// font it gives is face `index` of that data. Parsing
/// starts by reading a 4-byte magic number, so data shorter than that never
/// parses.
#[verifier::external_body]
fn try_font_from_vec_and_index(data: Vec<u8>, index: u32) -> (res: Result<FontArc, InvalidFont>)
    ensures
        res is Ok <==> font_parses(data@, index),
        res matches Ok(font) ==> font_source(font) == (data@, index),
        data@.len() < 4 ==> res is Err,
{
    FontVec::try_from_vec_and_index(data, index).map(FontArc::from)
}

/// Loads the preedit font from the font data and face index of the
/// configuration. Where the data does not parse (a font that is not
/// installed gives empty data), there is no font and the preedit window is
/// not shown.
pub fn load_preedit_font(data: Vec<u8>, index: u32) -> (font: Option<FontArc>)
    ensures
        font is Some <==> font_parses(data@, index),
        font matches Some(f) ==> font_source(f) == (data@, index),
        data@.len() < 4 ==> font is None,
{
    match try_font_from_vec_and_index(data, index) {
        Ok(font) => Some(font),
        Err(_) => None,
    }
}

} // verus!
