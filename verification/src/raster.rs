//! Decoded raster images: a width x height grid of 4-channel (red, green,
//! blue, alpha) 8-bit samples, origin top-left, and the conversion of its
//! samples into the platform bitmap channel order (blue, green, red, alpha).

use vstd::prelude::*;

verus! {

/// A decoded raster image: `pixels` holds four bytes (red, green, blue,
/// alpha) for each of `width * height` pixels, row-major from the top-left.
pub struct RasterImage {
    pub width: u32,
    pub height: u32,
    pub pixels: Vec<u8>,
}

impl RasterImage {
    /// The sample buffer holds exactly four bytes per pixel.
    pub open spec fn wf(&self) -> bool {
        self.pixels@.len() == 4 * (self.width as nat) * (self.height as nat)
    }
}

/// Whether the decoder accepts these bytes as a compressed raster image.
/// Decoding is a function of the bytes alone.
pub uninterp spec fn decode_succeeds(bytes: Seq<u8>) -> bool;

/// The pixel width of the image that these bytes decode to.
pub uninterp spec fn decoded_width(bytes: Seq<u8>) -> nat;

/// The pixel height of the image that these bytes decode to.
pub uninterp spec fn decoded_height(bytes: Seq<u8>) -> nat;

/// The red, green, blue, alpha samples of the image that these bytes decode
/// to, four bytes per pixel, row-major from the top-left.
pub uninterp spec fn decoded_rgba(bytes: Seq<u8>) -> Seq<u8>;

/// Relies on `image::load_from_memory`, `image::GenericImageView::dimensions`
/// and `image::DynamicImage::to_rgba8`: decoding a compressed raster image is
/// a function of the input bytes alone; the RGBA8 buffer returned by
/// `to_rgba8` holds exactly `width * height` pixels of four bytes each,
/// row-major from the top-left. On failure the decoder's message is returned.
#[verifier::external_body]
pub(crate) fn decode_raster(bytes: &[u8]) -> (r: Result<RasterImage, String>)
    ensures
        r is Ok <==> decode_succeeds(bytes@),
        r matches Ok(img) ==> {
            &&& img.width as nat == decoded_width(bytes@)
            &&& img.height as nat == decoded_height(bytes@)
            &&& img.pixels@ == decoded_rgba(bytes@)
            &&& img.wf()
        },
{
    match image::load_from_memory(bytes) {
        Ok(img) => {
            let (width, height) = image::GenericImageView::dimensions(&img);
            let pixels = img.to_rgba8().into_raw();
            Ok(RasterImage { width, height, pixels })
        }
        Err(e) => Err(e.to_string()),
    }
}

/// Pixel `p` of `bgra` holds the same samples as pixel `p` of `rgba` with
/// the red and blue channels exchanged and alpha preserved.
pub open spec fn pixel_channels_swapped(rgba: Seq<u8>, bgra: Seq<u8>, p: int) -> bool {
    &&& bgra[4 * p] == rgba[4 * p + 2]
    &&& bgra[4 * p + 1] == rgba[4 * p + 1]
    &&& bgra[4 * p + 2] == rgba[4 * p]
    &&& bgra[4 * p + 3] == rgba[4 * p + 3]
}

/// `bgra` is `rgba` with every pixel's red and blue channels exchanged.
pub open spec fn is_bgra_of(bgra: Seq<u8>, rgba: Seq<u8>) -> bool {
    &&& bgra.len() == rgba.len()
    &&& forall|p: int|
        0 <= p < rgba.len() / 4 ==> #[trigger] pixel_channels_swapped(rgba, bgra, p)
}

/// Reorders 4-channel samples from red, green, blue, alpha to the platform
/// bitmap order blue, green, red, alpha.
pub fn bgra_from_rgba(rgba: &Vec<u8>) -> (bgra: Vec<u8>)
    requires
        rgba@.len() % 4 == 0,
    ensures
        is_bgra_of(bgra@, rgba@),
{
    let len: usize = rgba.len();
    let n: usize = len / 4;
    proof {
        vstd::arithmetic::div_mod::lemma_fundamental_div_mod(len as int, 4);
    }
    let mut bgra: Vec<u8> = Vec::new();
    let mut p: usize = 0;
    while p < n
        invariant
            len == rgba@.len(),
            4 * n == len,
            p <= n,
            bgra@.len() == 4 * p,
            forall|q: int| 0 <= q < p ==> #[trigger] pixel_channels_swapped(rgba@, bgra@, q),
        decreases n - p,
    {
        proof {
            assert(4 * p + 4 <= 4 * n);
        }
        let base: usize = 4 * p;
        let ghost prior = bgra@;
        bgra.push(rgba[base + 2]);
        bgra.push(rgba[base + 1]);
        bgra.push(rgba[base]);
        bgra.push(rgba[base + 3]);
        proof {
            assert forall|q: int| 0 <= q < p + 1 implies #[trigger] pixel_channels_swapped(
                rgba@,
                bgra@,
                q,
            ) by {
                if q < p {
                    assert(pixel_channels_swapped(rgba@, prior, q));
                }
            }
        }
        p = p + 1;
    }
    bgra
}

} // verus!
