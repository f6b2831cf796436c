//! Screen geometry and screenshots: the reference screen size, the search
//! column of the item icons, the clipping of search areas, the hits that
//! the template matcher reports and the decoding of a PNG screenshot.
use vstd::prelude::*;
use std::ops::Range;

use crate::item::Item;

verus! {

/// Width of the reference screen, in pixels.
pub const SCREEN_W: u32 = 1920;

/// Height of the reference screen, in pixels.
pub const SCREEN_H: u32 = 1080;

/// The column of the shop list where item icons appear: from 42% to 52% of
/// the screen width, each bound rounded down to a whole pixel.
pub fn default_column() -> (r: Range<u32>)
    ensures
        r.start == SCREEN_W * 42 / 100,
        r.end == SCREEN_W * 52 / 100,
        r.start == 806 && r.end == 998,
{
    (SCREEN_W * 42 / 100)..(SCREEN_W * 52 / 100)
}

/// `r` with both bounds capped at `limit`: the part of `r` that lies inside
/// an image `limit` pixels wide (or high).
pub fn clip_span(r: Range<u32>, limit: u32) -> (c: Range<u32>)
    requires
        r.start <= r.end,
    ensures
        c.start == if r.start < limit { r.start } else { limit },
        c.end == if r.end < limit { r.end } else { limit },
        c.start <= c.end <= limit,
{
    let start = if r.start < limit { r.start } else { limit };
    let end = if r.end < limit { r.end } else { limit };
    start..end
}

/// Where the template of an item matched on a screenshot: the top-left
/// corner of the best window.
#[derive(Clone, Copy, Debug, PartialEq, Eq, Structural)]
pub struct Hit {
    pub item: Item,
    pub x: u32,
    pub y: u32,
}

#[verifier::external_type_specification]
#[verifier::external_body]
pub struct ExImageError(image::ImageError);

/// What `image::load_from_memory(bytes)` followed by `to_rgb8` gives: width,
/// height and RGB bytes of the decoded image, or `None` when it fails.
pub uninterp spec fn rgb8_decoded(bytes: Seq<u8>) -> Option<(u32, u32, Seq<u8>)>;

/// Decodes an image file held in memory (the format is guessed from its
/// content) and converts it to 8-bit RGB, through
/// `image::load_from_memory` and `DynamicImage::to_rgb8`. The contract
/// claims that the outcome depends on the bytes alone and names it, and that
/// the pixels are three bytes for each of the `width * height` pixels.
#[verifier::external_body]
fn decode_rgb8(bytes: &[u8]) -> (r: Result<(u32, u32, Vec<u8>), image::ImageError>)
    ensures
        r is Ok <==> rgb8_decoded(bytes@) is Some,
        r matches Ok(d) ==> rgb8_decoded(bytes@) == Some((d.0, d.1, d.2@)),
        r matches Ok(d) ==> d.2@.len() == 3 * d.0 * d.1,
{
    let img = image::load_from_memory(bytes)?.to_rgb8();
    let (w, h) = img.dimensions();
    Ok((w, h, img.into_raw()))
}

/// A decoded screenshot: its size and its pixels, RGB interleaved, row by
/// row.
pub struct Frame {
    pub width: u32,
    pub height: u32,
    pub rgb: Vec<u8>,
}

/// Decodes an image file held in memory into a frame.
pub fn decode_frame(bytes: &[u8]) -> (r: Result<Frame, image::ImageError>)
    ensures
        r is Ok <==> rgb8_decoded(bytes@) is Some,
        r matches Ok(f) ==> rgb8_decoded(bytes@) == Some((f.width, f.height, f.rgb@)),
        r matches Ok(f) ==> f.rgb@.len() == 3 * f.width * f.height,
{
    match decode_rgb8(bytes) {
        Ok((width, height, rgb)) => Ok(Frame { width, height, rgb }),
        Err(e) => Err(e),
    }
}

/// Why a screenshot could not be used.
#[derive(Debug)]
pub enum ScreencapError {
    /// adb returned no bytes.
    Empty,
    /// The bytes are not an image.
    Decode(image::ImageError),
}

/// Turns the bytes of `adb exec-out screencap -p` into a frame.
pub fn decode_screencap(png: &[u8]) -> (r: Result<Frame, ScreencapError>)
    ensures
        png@.len() == 0 ==> r matches Err(ScreencapError::Empty),
        png@.len() > 0 ==> (r is Ok <==> rgb8_decoded(png@) is Some),
        png@.len() > 0 ==> (r is Err ==> r matches Err(ScreencapError::Decode(_))),
        r matches Ok(f) ==> rgb8_decoded(png@) == Some((f.width, f.height, f.rgb@)),
        r matches Ok(f) ==> f.rgb@.len() == 3 * f.width * f.height,
{
    if png.len() == 0 {
        return Err(ScreencapError::Empty);
    }
    match decode_frame(png) {
        Ok(f) => Ok(f),
        Err(e) => Err(ScreencapError::Decode(e)),
    }
}

} // verus!
