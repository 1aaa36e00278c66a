//! Icons: where one goes on a tile and how its pixels are prepared.

use vstd::prelude::*;
use crate::error::DeckError;
use crate::render::canvas::{fits, Canvas, BUTTON_SIZE};
use crate::strings::owned;

verus! {

/// The greatest width and height of an icon: room is left below it for a
/// label.
pub const ICON_MAX: u32 = 48;

/// The distance of an icon from the top of a tile that also has a label.
pub const ICON_TOP_PAD: i32 = 4;

/// One byte of a premultiplied pixel: a colour byte scaled by the
/// pixel's alpha, the alpha byte itself.
pub open spec fn premultiplied_byte(rgba: Seq<u8>, i: int) -> u8 {
    if i % 4 == 3 {
        rgba[i]
    } else {
        (rgba[i] * rgba[i - i % 4 + 3] / 255) as u8
    }
}

/// Straight RGBA pixels with every colour byte scaled by its pixel's
/// alpha.
pub open spec fn premultiplied(rgba: Seq<u8>) -> Seq<u8> {
    Seq::new(rgba.len(), |i: int| premultiplied_byte(rgba, i))
}

/// Why pixels of the given size make no icon, if they do not.
pub open spec fn icon_fault(width: u32, height: u32, rgba: Seq<u8>) -> Option<Seq<char>> {
    if width == 0 || height == 0 {
        Some("failed to create icon pixmap"@)
    } else if width > ICON_MAX || height > ICON_MAX {
        Some("icon larger than the icon box"@)
    } else if rgba.len() < width * height * 4 {
        Some("icon data shorter than its size"@)
    } else {
        None
    }
}

/// An icon ready to be drawn: premultiplied pixels of a size within the
/// icon box.
#[derive(Debug, PartialEq, Eq)]
pub struct Icon {
    canvas: Canvas,
}

impl View for Icon {
    type V = Canvas;

    closed spec fn view(&self) -> Canvas {
        self.canvas
    }
}

impl Icon {
    #[verifier::type_invariant]
    spec fn within_box(&self) -> bool {
        self.canvas.wf() && self.canvas.width <= ICON_MAX && self.canvas.height <= ICON_MAX
    }

    /// The icon's pixels and size, which are within the icon box.
    pub fn canvas(&self) -> (canvas: &Canvas)
        ensures
            *canvas == self@,
            canvas.wf(),
            canvas.width <= ICON_MAX,
            canvas.height <= ICON_MAX,
    {
        proof {
            use_type_invariant(self);
        }
        &self.canvas
    }
}

/// Makes an icon of decoded, scaled pixels in straight RGBA: the first
/// `width * height` pixels, premultiplied. A size of zero, a size beyond
/// the icon box and too few pixels are errors.
pub fn icon_from_rgba(width: u32, height: u32, rgba: &Vec<u8>) -> (result: Result<
    Icon,
    DeckError,
>)
    ensures
        match icon_fault(width, height, rgba@) {
            Some(fault) => result matches Err(DeckError::Render(message)) && message@ == fault,
            None => result matches Ok(icon) && icon@.wf() && icon@.width == width
                && icon@.height == height && icon@@ == premultiplied(
                rgba@.take(width * height * 4),
            ),
        },
{
    if width == 0 || height == 0 {
        return Err(DeckError::Render(owned("failed to create icon pixmap")));
    }
    if width > ICON_MAX || height > ICON_MAX {
        return Err(DeckError::Render(owned("icon larger than the icon box")));
    }
    assert(width * height * 4 <= 48 * 48 * 4) by (nonlinear_arith)
        requires
            0 < width <= 48,
            0 < height <= 48,
    ;
    let len: usize = (width * height * 4) as usize;
    if rgba.len() < len {
        return Err(DeckError::Render(owned("icon data shorter than its size")));
    }
    let ghost source = rgba@.take(len as int);
    let mut data: Vec<u8> = Vec::new();
    let mut i: usize = 0;
    while i < len
        invariant
            i <= len <= rgba@.len(),
            i % 4 == 0,
            len % 4 == 0,
            source == rgba@.take(len as int),
            data@.len() == i,
            forall|j: int| 0 <= j < i ==> data@[j] == premultiplied_byte(source, j),
        decreases len - i,
    {
        let alpha: u16 = rgba[i + 3] as u16;
        let red: u16 = rgba[i] as u16;
        let green: u16 = rgba[i + 1] as u16;
        let blue: u16 = rgba[i + 2] as u16;
        assert(red * alpha <= 255 * 255) by (nonlinear_arith)
            requires
                red <= 255,
                alpha <= 255,
        ;
        assert(green * alpha <= 255 * 255) by (nonlinear_arith)
            requires
                green <= 255,
                alpha <= 255,
        ;
        assert(blue * alpha <= 255 * 255) by (nonlinear_arith)
            requires
                blue <= 255,
                alpha <= 255,
        ;
        data.push((red * alpha / 255) as u8);
        data.push((green * alpha / 255) as u8);
        data.push((blue * alpha / 255) as u8);
        data.push(alpha as u8);
        i += 4;
    }
    assert(data@ =~= premultiplied(source));
    match Canvas::from_pixels(data, width, height) {
        Some(canvas) => Ok(Icon { canvas }),
        None => {
            assert(fits(premultiplied(source), width, height));
            Err(DeckError::Render(owned("failed to create icon pixmap")))
        },
    }
}

/// The x position at which an icon of the given width is centred on a
/// tile.
pub fn center_x(icon_width: u32) -> (x: i32)
    requires
        icon_width <= BUTTON_SIZE,
    ensures
        x == (BUTTON_SIZE - icon_width) / 2,
{
    ((BUTTON_SIZE - icon_width) / 2) as i32
}

/// The y position of an icon: near the top where a label follows below,
/// else such that an icon of full size is centred.
pub fn icon_y(has_label: bool) -> (y: i32)
    ensures
        y == (if has_label {
            ICON_TOP_PAD as int
        } else {
            (BUTTON_SIZE - ICON_MAX) / 2
        }),
{
    if has_label {
        ICON_TOP_PAD
    } else {
        ((BUTTON_SIZE - ICON_MAX) / 2) as i32
    }
}

} // verus!
