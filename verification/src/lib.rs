//! Multi-format clipboard interoperability core: converts a raster
//! chemical-structure image into a device-independent vector metafile and
//! publishes several representations (vector image, UTF-16 text, and a
//! registered structure-exchange binary format) in one clipboard transaction.

pub mod builder;
pub mod encoding;
pub mod error;
pub mod publisher;
pub mod raster;

use vstd::prelude::*;
use vstd::string::StringExecFns;

verus! {

/// Publishes a raster image as a vector metafile together with optional
/// structure-notation text and an optional structure-exchange binary, in
/// one clipboard transaction.
///
/// The platform clipboard and bitmap surfaces live behind native calls this
/// library never performs itself: a Windows host publishes by driving
/// `builder::begin_build` and `publisher::ClipboardPublisher` against them.
/// Called directly, with no host platform underneath, this boundary entry
/// reports the fixed unsupported-platform failure and performs no decoding
/// and no allocation.
pub fn write_chemdraw_style_to_clipboard(
    _png_bytes: &[u8],
    _mol_text: &str,
    _cdx_bytes: Option<&[u8]>,
) -> (r: Result<(), String>)
    ensures
        r matches Err(m) && m@ == "ChemDraw-style clipboard is only supported on Windows"@,
{
    Err(String::from_str("ChemDraw-style clipboard is only supported on Windows"))
}

/// Publishes only the structure-exchange binary format. Like
/// `write_chemdraw_style_to_clipboard`, this boundary entry reports the
/// fixed unsupported-platform failure when no host platform drives
/// `publisher::CdxPublisher` underneath.
pub fn write_cdx_only_to_clipboard(_cdx_bytes: &[u8]) -> (r: Result<(), String>)
    ensures
        r matches Err(m) && m@ == "CDX clipboard is only supported on Windows"@,
{
    Err(String::from_str("CDX clipboard is only supported on Windows"))
}

/// Publishes only the vector image format: the multi-format transaction
/// with empty text and no binary payload. Like
/// `write_chemdraw_style_to_clipboard`, this boundary entry reports the
/// fixed unsupported-platform failure when no host platform drives the
/// step machines underneath.
pub fn write_png_as_emf_to_clipboard(_png_bytes: &[u8]) -> (r: Result<(), String>)
    ensures
        r matches Err(m) && m@ == "EMF clipboard is only supported on Windows"@,
{
    Err(String::from_str("EMF clipboard is only supported on Windows"))
}

/// Physical target extent of one pixel axis, in hundredths of a millimetre,
/// for a grid assumed to be 96 dots per inch: `px / 96` inches, times `25.4`
/// millimetres per inch, times `100`, rounded to the nearest whole unit
/// (halves round up). Since `25.4 / 96 * 100 == 2540 / 96` and
/// `48 / 96 == 1 / 2`, the rounded value is `(px * 2540 + 48) / 96`.
pub open spec fn himetric_units(px: nat) -> nat {
    (px * 2540 + 48) / 96
}

/// `himetric_units`, saturated at `i32::MAX` as the platform's signed
/// rectangle type demands.
pub open spec fn clamped_himetric(px: nat) -> int {
    if himetric_units(px) > i32::MAX {
        i32::MAX as int
    } else {
        himetric_units(px) as int
    }
}

/// Law: the physical target extent rounds `px * 2540 / 96` to the nearest
/// whole unit. Scaled by the divisor, the recorded value differs from the
/// exact product by at most half of 96.
pub proof fn lemma_himetric_rounds(px: nat)
    ensures
        2540 * px - 48 <= 96 * himetric_units(px) <= 2540 * px + 48,
{
    let t: int = 2540 * (px as int) + 48;
    vstd::arithmetic::div_mod::lemma_fundamental_div_mod(t, 96);
}

/// Converts a pixel count to hundredths of a millimetre at 96 dots per inch,
/// saturating at `i32::MAX` as the platform's signed rectangle type demands.
pub fn himetric_of_pixels(px: u32) -> (r: i32)
    ensures
        himetric_units(px as nat) <= i32::MAX ==> r == himetric_units(px as nat),
        himetric_units(px as nat) > i32::MAX ==> r == i32::MAX,
        r >= 0,
        px > 0 ==> r > 0,
{
    let wide: u64 = (px as u64 * 2540 + 48) / 96;
    if wide > i32::MAX as u64 {
        i32::MAX
    } else {
        wide as i32
    }
}

} // verus!
