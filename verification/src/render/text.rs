//! Labels: the font a name selects, and how glyph coverage is blended
//! into a tile.
//!
//! Laying a label out and rasterizing its glyphs is floating-point work
//! and happens outside this library. What comes back is a list of
//! coverage samples, which `draw_label` blends in the order given.

use vstd::prelude::*;
use crate::error::DeckError;
use crate::render::canvas::{hex_color, invalid_hex_message, Canvas, Rgb};
use crate::strings::str_eq;

verus! {

/// The fonts that come with the daemon.
#[derive(Debug, Clone, Copy, PartialEq, Eq, Structural)]
pub enum FontFace {
    Inter,
    RobotoSlab,
    JetBrainsThin,
    JetBrainsExtraLight,
    JetBrainsLight,
    JetBrainsRegular,
    JetBrainsMedium,
    JetBrainsSemiBold,
    JetBrainsBold,
    JetBrainsExtraBold,
}

/// The font that a name selects; any name that is not listed selects
/// Inter.
pub open spec fn face_of(name: Seq<char>) -> FontFace {
    if name == "roboto-slab"@ {
        FontFace::RobotoSlab
    } else if name == "jb-thin"@ {
        FontFace::JetBrainsThin
    } else if name == "jb-extralight"@ {
        FontFace::JetBrainsExtraLight
    } else if name == "jb-light"@ {
        FontFace::JetBrainsLight
    } else if name == "jb-regular"@ {
        FontFace::JetBrainsRegular
    } else if name == "jb-medium"@ {
        FontFace::JetBrainsMedium
    } else if name == "jb-semibold"@ {
        FontFace::JetBrainsSemiBold
    } else if name == "jb-bold"@ {
        FontFace::JetBrainsBold
    } else if name == "jb-extrabold"@ {
        FontFace::JetBrainsExtraBold
    } else if name == "jetbrains-mono"@ {
        FontFace::JetBrainsExtraBold
    } else if name == "jetbrains-bold"@ {
        FontFace::JetBrainsBold
    } else {
        FontFace::Inter
    }
}

/// The font for a configured font name. The two older names
/// "jetbrains-mono" and "jetbrains-bold" are still understood.
pub fn font_face(name: &str) -> (face: FontFace)
    ensures
        face == face_of(name@),
{
    if str_eq(name, "roboto-slab") {
        FontFace::RobotoSlab
    } else if str_eq(name, "jb-thin") {
        FontFace::JetBrainsThin
    } else if str_eq(name, "jb-extralight") {
        FontFace::JetBrainsExtraLight
    } else if str_eq(name, "jb-light") {
        FontFace::JetBrainsLight
    } else if str_eq(name, "jb-regular") {
        FontFace::JetBrainsRegular
    } else if str_eq(name, "jb-medium") {
        FontFace::JetBrainsMedium
    } else if str_eq(name, "jb-semibold") {
        FontFace::JetBrainsSemiBold
    } else if str_eq(name, "jb-bold") {
        FontFace::JetBrainsBold
    } else if str_eq(name, "jb-extrabold") {
        FontFace::JetBrainsExtraBold
    } else if str_eq(name, "jetbrains-mono") {
        FontFace::JetBrainsExtraBold
    } else if str_eq(name, "jetbrains-bold") {
        FontFace::JetBrainsBold
    } else {
        FontFace::Inter
    }
}

/// How much of one pixel a glyph covers: the pixel's position on the
/// canvas, which may lie outside it, and the coverage from 0 to 255.
#[derive(Debug, Clone, Copy, PartialEq, Eq, Structural)]
pub struct Coverage {
    pub x: i32,
    pub y: i32,
    pub alpha: u8,
}

/// One channel of a foreground blended over a background.
pub open spec fn blend(foreground: u8, background: u8, alpha: u8) -> u8 {
    ((foreground * alpha + background * (255 - alpha)) / 255) as u8
}

/// The buffer after `color` was blended into the pixel that starts at
/// byte `idx`: the three colour bytes are blended, the pixel becomes
/// opaque.
pub open spec fn blended_pixel(data: Seq<u8>, idx: int, color: Rgb, alpha: u8) -> Seq<u8> {
    data.update(idx, blend(color.red, data[idx], alpha)).update(
        idx + 1,
        blend(color.green, data[idx + 1], alpha),
    ).update(idx + 2, blend(color.blue, data[idx + 2], alpha)).update(idx + 3, 255u8)
}

/// Whether a sample lies on a canvas of the given size.
pub open spec fn on_canvas(sample: Coverage, width: u32, height: u32) -> bool {
    0 <= sample.x < width && 0 <= sample.y < height
}

/// The buffer after one sample: blended where the sample lies on the
/// canvas, unchanged where it does not.
pub open spec fn with_sample(
    data: Seq<u8>,
    width: u32,
    height: u32,
    sample: Coverage,
    color: Rgb,
) -> Seq<u8> {
    if on_canvas(sample, width, height) {
        blended_pixel(data, (sample.y * width + sample.x) * 4, color, sample.alpha)
    } else {
        data
    }
}

/// The buffer after the samples were blended one after the other.
pub open spec fn with_samples(
    data: Seq<u8>,
    width: u32,
    height: u32,
    samples: Seq<Coverage>,
    color: Rgb,
) -> Seq<u8>
    decreases samples.len(),
{
    if samples.len() == 0 {
        data
    } else {
        with_sample(
            with_samples(data, width, height, samples.drop_last(), color),
            width,
            height,
            samples.last(),
            color,
        )
    }
}

fn blend_channel(foreground: u8, background: u8, alpha: u8) -> (mixed: u8)
    ensures
        mixed == blend(foreground, background, alpha),
{
    let inverse: u16 = 255 - alpha as u16;
    assert(foreground * alpha + background * (255 - alpha) <= 255 * 255) by (nonlinear_arith)
        requires
            foreground <= 255,
            background <= 255,
            0 <= alpha <= 255,
    ;
    assert(foreground * alpha >= 0 && background * (255 - alpha) >= 0 && foreground * alpha <= 255 * 255)
        by (nonlinear_arith)
        requires
            0 <= foreground <= 255,
            0 <= background <= 255,
            0 <= alpha <= 255,
    ;
    ((foreground as u16 * alpha as u16 + background as u16 * inverse) / 255) as u8
}

/// Blends `color` into the pixel that starts at byte `idx` with the
/// given coverage, and makes the pixel opaque. No other byte changes.
pub fn blend_pixel(data: &mut Vec<u8>, idx: usize, color: &Rgb, alpha: u8)
    requires
        idx + 3 < old(data)@.len(),
    ensures
        final(data)@ == blended_pixel(old(data)@, idx as int, *color, alpha),
        final(data)@.len() == old(data)@.len(),
{
    assert(idx + 3 < data.len());
    let red = blend_channel(color.red, data[idx], alpha);
    let green = blend_channel(color.green, data[idx + 1], alpha);
    let blue = blend_channel(color.blue, data[idx + 2], alpha);
    data.set(idx, red);
    data.set(idx + 1, green);
    data.set(idx + 2, blue);
    data.set(idx + 3, 255);
}

/// The byte at which the pixel (`x`, `y`) of a canvas begins lies within
/// the canvas's buffer, with its three followers.
proof fn lemma_pixel_in_bounds(x: int, y: int, width: int, height: int)
    requires
        0 <= x < width,
        0 <= y < height,
    ensures
        0 <= y * width,
        y * width + x < width * height,
        (y * width + x) * 4 + 3 < width * height * 4,
{
    assert(y * width <= (height - 1) * width) by (nonlinear_arith)
        requires
            0 <= y <= height - 1,
            0 <= width,
    ;
    assert((height - 1) * width == width * height - width) by (nonlinear_arith);
    assert(0 <= y * width) by (nonlinear_arith)
        requires
            0 <= y,
            0 <= width,
    ;
}

/// Blends glyph coverage into the canvas in the given colour, sample by
/// sample in the order given. A sample outside the canvas is passed
/// over.
pub fn blend_coverage(canvas: &mut Canvas, samples: &Vec<Coverage>, color: &Rgb)
    requires
        old(canvas).wf(),
    ensures
        final(canvas).wf(),
        final(canvas).width == old(canvas).width,
        final(canvas).height == old(canvas).height,
        final(canvas)@ == with_samples(
            old(canvas)@,
            old(canvas).width,
            old(canvas).height,
            samples@,
            *color,
        ),
{
    let width = canvas.width;
    let height = canvas.height;
    assert(canvas.data@.len() == canvas.data.len());
    let mut i: usize = 0;
    while i < samples.len()
        invariant
            i <= samples@.len(),
            canvas.wf(),
            canvas.width == width,
            canvas.height == height,
            width == old(canvas).width,
            height == old(canvas).height,
            canvas.data@.len() <= usize::MAX,
            canvas@ == with_samples(old(canvas)@, width, height, samples@.take(i as int), *color),
        decreases samples@.len() - i,
    {
        let sample = samples[i];
        proof {
            assert(samples@.take(i + 1).drop_last() == samples@.take(i as int));
            assert(samples@.take(i + 1).last() == sample);
        }
        if sample.x >= 0 && sample.y >= 0 && (sample.x as u32) < width && (sample.y as u32)
            < height {
            proof {
                lemma_pixel_in_bounds(sample.x as int, sample.y as int, width as int, height as int);
                assert(width * height * 4 == canvas@.len());
                assert(canvas.data@.len() == canvas.data.len());
            }
            let idx: usize = ((sample.y as usize) * (width as usize) + (sample.x as usize)) * 4;
            blend_pixel(&mut canvas.data, idx, color, sample.alpha);
        }
        i += 1;
    }
    assert(samples@.take(samples@.len() as int) == samples@);
}

/// Draws a label of which the glyph coverage is given, in the colour
/// that `color_hex` names. A malformed colour is an error and leaves the
/// canvas as it was.
pub fn draw_label(canvas: &mut Canvas, samples: &Vec<Coverage>, color_hex: &str) -> (result:
    Result<(), DeckError>)
    requires
        old(canvas).wf(),
    ensures
        final(canvas).wf(),
        final(canvas).width == old(canvas).width,
        final(canvas).height == old(canvas).height,
        match hex_color(color_hex@) {
            Some(color) => result is Ok && final(canvas)@ == with_samples(
                old(canvas)@,
                old(canvas).width,
                old(canvas).height,
                samples@,
                color,
            ),
            None => {
                &&& final(canvas)@ == old(canvas)@
                &&& result matches Err(DeckError::Render(message))
                &&& message@ == invalid_hex_message(color_hex@)
            },
        },
{
    match Rgb::from_hex(color_hex) {
        Ok(color) => {
            blend_coverage(canvas, samples, &color);
            Ok(())
        },
        Err(error) => Err(error),
    }
}

} // verus!
