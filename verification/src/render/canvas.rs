//! Hex colours and the pixel buffer that tiles are drawn on.

use vstd::prelude::*;
use vstd::string::StrSliceExecFns;
use crate::error::DeckError;
use crate::strings::{concat2, owned, to_chars};
use tiny_skia::{Color, IntSize, Pixmap, PixmapPaint, PixmapRef, Transform};

verus! {

/// An opaque colour by its three channels.
#[derive(Debug, Clone, Copy, PartialEq, Eq, Structural)]
pub struct Rgb {
    pub red: u8,
    pub green: u8,
    pub blue: u8,
}

/// `s` without the number signs it starts with.
pub open spec fn trim_hashes(s: Seq<char>) -> Seq<char>
    decreases s.len(),
{
    if s.len() > 0 && s[0] == '#' {
        trim_hashes(s.drop_first())
    } else {
        s
    }
}

/// The value of a hexadecimal digit, in either case.
pub open spec fn hex_digit(c: char) -> Option<u8> {
    let n = c as u32;
    if 0x30 <= n <= 0x39 {
        Some((n - 0x30) as u8)
    } else if 0x61 <= n <= 0x66 {
        Some((n - 0x61 + 10) as u8)
    } else if 0x41 <= n <= 0x46 {
        Some((n - 0x41 + 10) as u8)
    } else {
        None
    }
}

/// The value of two hexadecimal digits.
pub open spec fn hex_pair(high: char, low: char) -> Option<u8> {
    match (hex_digit(high), hex_digit(low)) {
        (Some(h), Some(l)) => Some((h * 16 + l) as u8),
        _ => None,
    }
}

/// The value of one digit that stands for itself twice.
pub open spec fn hex_doubled(c: char) -> Option<u8> {
    match hex_digit(c) {
        Some(d) => Some((d * 17) as u8),
        None => None,
    }
}

/// The colour that the digits `t` spell: three digits, each standing for
/// itself twice, or six digits, two a channel.
pub open spec fn color_of_digits(t: Seq<char>) -> Option<Rgb> {
    if t.len() == 3 {
        match (hex_doubled(t[0]), hex_doubled(t[1]), hex_doubled(t[2])) {
            (Some(red), Some(green), Some(blue)) => Some(Rgb { red, green, blue }),
            _ => None,
        }
    } else if t.len() == 6 {
        match (hex_pair(t[0], t[1]), hex_pair(t[2], t[3]), hex_pair(t[4], t[5])) {
            (Some(red), Some(green), Some(blue)) => Some(Rgb { red, green, blue }),
            _ => None,
        }
    } else {
        None
    }
}

/// The colour that a hex colour string names, the number signs in front
/// of the digits set aside; `None` where the string is malformed.
pub open spec fn hex_color(s: Seq<char>) -> Option<Rgb> {
    color_of_digits(trim_hashes(s))
}

/// The description of a malformed hex colour.
pub open spec fn invalid_hex_message(s: Seq<char>) -> Seq<char> {
    "invalid hex color: #"@ + trim_hashes(s)
}

/// What parsing a hex colour string gives.
pub open spec fn parsed_hex(s: Seq<char>, result: Result<Rgb, DeckError>) -> bool {
    match hex_color(s) {
        Some(color) => result == Ok::<Rgb, DeckError>(color),
        None => result matches Err(DeckError::Render(message)) && message@
            == invalid_hex_message(s),
    }
}

proof fn lemma_trim_skip(s: Seq<char>, k: int)
    requires
        0 <= k <= s.len(),
        forall|j: int| 0 <= j < k ==> s[j] == '#',
    ensures
        trim_hashes(s) == trim_hashes(s.skip(k)),
    decreases k,
{
    if k == 0 {
        assert(s.skip(0) =~= s);
    } else {
        lemma_trim_skip(s, k - 1);
        let tail = s.skip(k - 1);
        assert(tail[0] == s[k - 1]);
        assert(tail.drop_first() =~= s.skip(k));
    }
}

fn digit_value(c: char) -> (value: Option<u8>)
    ensures
        value == hex_digit(c),
{
    let n: u32 = c as u32;
    if 0x30 <= n && n <= 0x39 {
        Some((n - 0x30) as u8)
    } else if 0x61 <= n && n <= 0x66 {
        Some((n - 0x61 + 10) as u8)
    } else if 0x41 <= n && n <= 0x46 {
        Some((n - 0x41 + 10) as u8)
    } else {
        None
    }
}

fn doubled_value(c: char) -> (value: Option<u8>)
    ensures
        value == hex_doubled(c),
{
    match digit_value(c) {
        Some(d) => Some(d * 17),
        None => None,
    }
}

fn pair_value(high: char, low: char) -> (value: Option<u8>)
    ensures
        value == hex_pair(high, low),
{
    match digit_value(high) {
        Some(h) => match digit_value(low) {
            Some(l) => Some(h * 16 + l),
            None => None,
        },
        None => None,
    }
}

fn digits_value(t: &Vec<char>, from: usize) -> (color: Option<Rgb>)
    requires
        from <= t@.len(),
    ensures
        color == color_of_digits(t@.skip(from as int)),
{
    let n = t.len() - from;
    if n == 3 {
        match (doubled_value(t[from]), doubled_value(t[from + 1]), doubled_value(t[from + 2])) {
            (Some(red), Some(green), Some(blue)) => Some(Rgb { red, green, blue }),
            _ => None,
        }
    } else if n == 6 {
        match (
            pair_value(t[from], t[from + 1]),
            pair_value(t[from + 2], t[from + 3]),
            pair_value(t[from + 4], t[from + 5]),
        ) {
            (Some(red), Some(green), Some(blue)) => Some(Rgb { red, green, blue }),
            _ => None,
        }
    } else {
        None
    }
}

/// Parses a hex colour such as "#1a1a2e" or "#fff". Number signs in
/// front are skipped, however many. What follows must be three
/// hexadecimal digits, each read twice ("#fff" is white), or six. Any
/// other string is an error that quotes it.
pub fn parse_hex_color(hex: &str) -> (result: Result<Rgb, DeckError>)
    ensures
        parsed_hex(hex@, result),
{
    let chars = to_chars(hex);
    let mut start: usize = 0;
    while start < chars.len() && chars[start] == '#'
        invariant
            start <= chars@.len(),
            forall|j: int| 0 <= j < start ==> chars@[j] == '#',
        decreases chars@.len() - start,
    {
        start += 1;
    }
    proof {
        lemma_trim_skip(chars@, start as int);
        assert(trim_hashes(chars@.skip(start as int)) == chars@.skip(start as int));
    }
    match digits_value(&chars, start) {
        Some(color) => Ok(color),
        None => {
            let rest = hex.substring_char(start, chars.len());
            assert(rest@ == chars@.skip(start as int));
            Err(DeckError::Render(concat2("invalid hex color: #", rest)))
        },
    }
}

impl Rgb {
    /// The colour that a hex colour string names.
    pub fn from_hex(hex: &str) -> (result: Result<Rgb, DeckError>)
        ensures
            parsed_hex(hex@, result),
    {
        parse_hex_color(hex)
    }
}

/// The edge of a tile in pixels.
pub const BUTTON_SIZE: u32 = 72;

/// The greatest width and height of a canvas.
pub const MAX_DIMENSION: u32 = 4096;

/// The farthest that the corner of a pixmap drawn onto a canvas may lie
/// from the canvas's own corner, in either direction.
pub const MAX_OFFSET: i32 = 32767;

/// A rectangle of premultiplied RGBA pixels, four bytes a pixel, row by
/// row from the top.
#[derive(Debug, Clone, PartialEq, Eq)]
pub struct Canvas {
    pub data: Vec<u8>,
    pub width: u32,
    pub height: u32,
}

impl View for Canvas {
    type V = Seq<u8>;

    open spec fn view(&self) -> Seq<u8> {
        self.data@
    }
}

/// Whether `pixels` is a buffer of the given size.
pub open spec fn fits(pixels: Seq<u8>, width: u32, height: u32) -> bool {
    &&& 0 < width <= MAX_DIMENSION
    &&& 0 < height <= MAX_DIMENSION
    &&& pixels.len() == width * height * 4
}

/// Whether every pixel of `pixels` is the opaque colour `color`.
pub open spec fn is_solid(pixels: Seq<u8>, color: Rgb) -> bool {
    forall|i: int|
        0 <= i < pixels.len() ==> #[trigger] pixels[i] == (if i % 4 == 0 {
            color.red
        } else if i % 4 == 1 {
            color.green
        } else if i % 4 == 2 {
            color.blue
        } else {
            255u8
        })
}

/// The pixels of `below` after the pixmap `above` was drawn on it with
/// its top left corner at (`x`, `y`), source over destination, as
/// tiny-skia's `Pixmap::draw_pixmap` does it with the default paint, the
/// identity transform and no mask.
pub uninterp spec fn composited(
    below: Seq<u8>,
    below_width: u32,
    below_height: u32,
    above: Seq<u8>,
    above_width: u32,
    above_height: u32,
    x: i32,
    y: i32,
) -> Seq<u8>;

/// Calls tiny-skia's `Pixmap::new` and `Pixmap::fill` and takes the
/// pixels out. For a size within the limits `Pixmap::new` succeeds, and
/// `fill` with an opaque colour made by `Color::from_rgba8` writes the
/// colour's own bytes and alpha 255 into every pixel.
#[verifier::external_body]
fn filled_pixmap(width: u32, height: u32, color: Rgb) -> (pixels: Option<Vec<u8>>)
    requires
        0 < width <= MAX_DIMENSION,
        0 < height <= MAX_DIMENSION,
    ensures
        pixels is Some,
        pixels.unwrap()@.len() == width * height * 4,
        is_solid(pixels.unwrap()@, color),
{
    let mut pixmap = Pixmap::new(width, height)?;
    pixmap.fill(Color::from_rgba8(color.red, color.green, color.blue, 255));
    Some(pixmap.take())
}

/// Calls tiny-skia's `Pixmap::draw_pixmap` on a pixmap made of `below`,
/// with the default paint, the identity transform and no mask, and takes
/// the pixels out. The call draws in place, so the size stays; what it
/// draws is `composited`.
#[verifier::external_body]
fn draw_pixmap(
    below: Vec<u8>,
    below_width: u32,
    below_height: u32,
    above: &Vec<u8>,
    above_width: u32,
    above_height: u32,
    x: i32,
    y: i32,
) -> (pixels: Vec<u8>)
    requires
        fits(below@, below_width, below_height),
        fits(above@, above_width, above_height),
        -MAX_OFFSET <= x <= MAX_OFFSET,
        -MAX_OFFSET <= y <= MAX_OFFSET,
    ensures
        pixels@ == composited(
            below@,
            below_width,
            below_height,
            above@,
            above_width,
            above_height,
            x,
            y,
        ),
        pixels@.len() == below@.len(),
{
    let size = IntSize::from_wh(below_width, below_height).unwrap();
    let mut pixmap = Pixmap::from_vec(below, size).unwrap();
    let source = PixmapRef::from_bytes(above.as_slice(), above_width, above_height).unwrap();
    pixmap.draw_pixmap(x, y, source, &PixmapPaint::default(), Transform::identity(), None);
    pixmap.take()
}

impl Canvas {
    /// The buffer has the size that width and height give.
    pub open spec fn wf(&self) -> bool {
        fits(self@, self.width, self.height)
    }

    /// A canvas over the given pixels, if they are as many as the size
    /// asks for and the size is within the limits.
    pub fn from_pixels(data: Vec<u8>, width: u32, height: u32) -> (canvas: Option<Canvas>)
        ensures
            match canvas {
                Some(c) => fits(data@, width, height) && c.wf() && c@ == data@ && c.width
                    == width && c.height == height,
                None => !fits(data@, width, height),
            },
    {
        if width == 0 || height == 0 || width > MAX_DIMENSION || height > MAX_DIMENSION {
            return None;
        }
        assert(width * height <= 4096 * 4096) by (nonlinear_arith)
            requires
                0 < width <= 4096,
                0 < height <= 4096,
        ;
        let wanted: u64 = (width as u64) * (height as u64) * 4;
        if data.len() as u64 != wanted {
            return None;
        }
        Some(Canvas { data, width, height })
    }

    /// The width in pixels.
    pub fn width(&self) -> (width: u32)
        ensures
            width == self.width,
    {
        self.width
    }

    /// The height in pixels.
    pub fn height(&self) -> (height: u32)
        ensures
            height == self.height,
    {
        self.height
    }

    /// The pixels.
    pub fn data(&self) -> (data: &Vec<u8>)
        ensures
            data@ == self@,
    {
        &self.data
    }

    /// The pixels, by value.
    pub fn into_data(self) -> (data: Vec<u8>)
        ensures
            data@ == self@,
    {
        self.data
    }
}

/// A tile filled with one colour.
pub fn create_canvas(bg_hex: &str) -> (result: Result<Canvas, DeckError>)
    ensures
        match hex_color(bg_hex@) {
            Some(color) => result matches Ok(canvas) && canvas.wf() && canvas.width
                == BUTTON_SIZE && canvas.height == BUTTON_SIZE && is_solid(canvas@, color),
            None => result matches Err(DeckError::Render(message)) && message@
                == invalid_hex_message(bg_hex@),
        },
{
    let color = match parse_hex_color(bg_hex) {
        Ok(color) => color,
        Err(error) => {
            return Err(error);
        },
    };
    match filled_pixmap(BUTTON_SIZE, BUTTON_SIZE, color) {
        Some(data) => Ok(Canvas { data, width: BUTTON_SIZE, height: BUTTON_SIZE }),
        None => Err(DeckError::Render(owned("failed to create pixmap"))),
    }
}

/// Draws `src` onto the canvas with its top left corner at (`x`, `y`),
/// source over destination. The canvas keeps its size.
pub fn composite(canvas: &mut Canvas, src: &Canvas, x: i32, y: i32)
    requires
        old(canvas).wf(),
        src.wf(),
        -MAX_OFFSET <= x <= MAX_OFFSET,
        -MAX_OFFSET <= y <= MAX_OFFSET,
    ensures
        final(canvas).wf(),
        final(canvas).width == old(canvas).width,
        final(canvas).height == old(canvas).height,
        final(canvas)@ == composited(
            old(canvas)@,
            old(canvas).width,
            old(canvas).height,
            src@,
            src.width,
            src.height,
            x,
            y,
        ),
{
    let mut below: Vec<u8> = Vec::new();
    core::mem::swap(&mut below, &mut canvas.data);
    canvas.data = draw_pixmap(
        below,
        canvas.width,
        canvas.height,
        &src.data,
        src.width,
        src.height,
        x,
        y,
    );
}

} // verus!
