//! From a button's definition to the pixels of its tile.
//!
//! Reading an icon from disk and rasterizing a label happen outside this
//! library. `label_request` says which label to rasterize and how;
//! `render_button` takes the icon and the label's glyph coverage and
//! draws the tile.

pub mod canvas;
pub mod icon;
pub mod text;

use vstd::prelude::*;
use crate::config::schema::{ButtonConfig, ButtonDefaults, FontSize, PageConfig};
use crate::daemon::NUM_KEYS;
use crate::error::{DeckError, ErrorView};
use crate::page::{find_button, first_button};
use crate::render::canvas::{
    composite, composited, create_canvas, hex_color, invalid_hex_message, Canvas, Rgb,
    BUTTON_SIZE,
};
use crate::render::icon::{center_x, icon_y, Icon, ICON_MAX, ICON_TOP_PAD};
use crate::render::text::{draw_label, face_of, font_face, with_samples, Coverage, FontFace};
use crate::strings::str_eq;
use crate::table::StringMap;

verus! {

/// Whether the button's entity is known to be on.
pub open spec fn entity_is_on(button: ButtonConfig, states: Map<Seq<char>, Seq<char>>) -> bool {
    match button.state_entity {
        Some(entity) => states.contains_key(entity@) && states[entity@] == "on"@,
        None => false,
    }
}

/// The background of a button: its override for the on state where the
/// entity is on and the button has one, else its own background, else
/// the default.
pub open spec fn background_of(button: ButtonConfig, defaults: ButtonDefaults, on: bool) -> Seq<
    char,
> {
    if on && button.on_background is Some {
        button.on_background.unwrap()@
    } else if button.background is Some {
        button.background.unwrap()@
    } else {
        defaults.background@
    }
}

/// The text colour of a button, found as its background is.
pub open spec fn text_color_of(button: ButtonConfig, defaults: ButtonDefaults, on: bool) -> Seq<
    char,
> {
    if on && button.on_text_color is Some {
        button.on_text_color.unwrap()@
    } else if button.text_color is Some {
        button.text_color.unwrap()@
    } else {
        defaults.text_color@
    }
}

/// The font size of a button: its own, else the default.
pub open spec fn font_size_of(button: ButtonConfig, defaults: ButtonDefaults) -> FontSize {
    match button.font_size {
        Some(size) => size,
        None => defaults.font_size,
    }
}

/// The font name of a button: its own, else the default.
pub open spec fn font_name_of(button: ButtonConfig, defaults: ButtonDefaults) -> Seq<char> {
    match button.font {
        Some(name) => name@,
        None => defaults.font@,
    }
}

/// The style that a button is drawn in.
#[derive(Debug, Clone, Copy)]
pub struct Style<'a> {
    /// Whether the button's entity is known to be on.
    pub entity_on: bool,
    /// Background as a hex colour.
    pub background: &'a str,
    /// Text colour as a hex colour.
    pub text_color: &'a str,
    /// Font size.
    pub font_size: FontSize,
    /// Font name.
    pub font_name: &'a str,
}

/// Resolves a button's style against the defaults and the known entity
/// states.
pub fn resolve_style<'a>(
    button: &'a ButtonConfig,
    defaults: &'a ButtonDefaults,
    states: &StringMap<String>,
) -> (style: Style<'a>)
    ensures
        style.entity_on == entity_is_on(*button, states.texts()),
        style.background@ == background_of(*button, *defaults, style.entity_on),
        style.text_color@ == text_color_of(*button, *defaults, style.entity_on),
        style.font_size == font_size_of(*button, *defaults),
        style.font_name@ == font_name_of(*button, *defaults),
{
    let entity_on = match &button.state_entity {
        Some(entity) => match states.text(entity.as_str()) {
            Some(state) => str_eq(state, "on"),
            None => false,
        },
        None => false,
    };
    let own_background: &'a str = match &button.background {
        Some(hex) => hex.as_str(),
        None => defaults.background.as_str(),
    };
    let background: &'a str = if entity_on {
        match &button.on_background {
            Some(hex) => hex.as_str(),
            None => own_background,
        }
    } else {
        own_background
    };
    let own_text_color: &'a str = match &button.text_color {
        Some(hex) => hex.as_str(),
        None => defaults.text_color.as_str(),
    };
    let text_color: &'a str = if entity_on {
        match &button.on_text_color {
            Some(hex) => hex.as_str(),
            None => own_text_color,
        }
    } else {
        own_text_color
    };
    let font_size = match button.font_size {
        Some(size) => size,
        None => defaults.font_size,
    };
    let font_name: &'a str = match &button.font {
        Some(name) => name.as_str(),
        None => defaults.font.as_str(),
    };
    Style { entity_on, background, text_color, font_size, font_name }
}

/// Where a label stands on its tile.
#[derive(Debug, Clone, Copy, PartialEq, Eq, Structural)]
pub enum LabelPlacement {
    /// Centred on the tile in both directions, line by line.
    Centered,
    /// One line near the bottom, below an icon.
    Bottom,
}

/// A label to rasterize.
#[derive(Debug, Clone, Copy)]
pub struct LabelRequest<'a> {
    /// The label's text; a line feed starts a new line.
    pub text: &'a str,
    /// The font.
    pub face: FontFace,
    /// The font size.
    pub size: FontSize,
    /// Where the label stands.
    pub placement: LabelPlacement,
}

/// The label to rasterize for a button, if it has one. Beside an icon
/// that was drawn the label stands at the bottom, at no more than twelve
/// pixels; without one it is centred at its configured size.
pub fn label_request<'a>(
    button: &'a ButtonConfig,
    defaults: &'a ButtonDefaults,
    icon_rendered: bool,
) -> (request: Option<LabelRequest<'a>>)
    ensures
        request is Some == button.label is Some,
        request matches Some(r) ==> {
            &&& r.text@ == button.label.unwrap()@
            &&& r.face == face_of(font_name_of(*button, *defaults))
            &&& r.size == (if icon_rendered {
                font_size_of(*button, *defaults).spec_label_size()
            } else {
                font_size_of(*button, *defaults)
            })
            &&& r.placement == (if icon_rendered {
                LabelPlacement::Bottom
            } else {
                LabelPlacement::Centered
            })
        },
{
    match &button.label {
        Some(label) => {
            let font_size = match button.font_size {
                Some(size) => size,
                None => defaults.font_size,
            };
            let font_name: &str = match &button.font {
                Some(name) => name.as_str(),
                None => defaults.font.as_str(),
            };
            let face = font_face(font_name);
            if icon_rendered {
                Some(
                    LabelRequest {
                        text: label.as_str(),
                        face,
                        size: font_size.label_size(),
                        placement: LabelPlacement::Bottom,
                    },
                )
            } else {
                Some(
                    LabelRequest {
                        text: label.as_str(),
                        face,
                        size: font_size,
                        placement: LabelPlacement::Centered,
                    },
                )
            }
        },
        None => None,
    }
}

/// A tile of one opaque colour.
pub open spec fn solid_tile(color: Rgb) -> Seq<u8> {
    Seq::new(
        (BUTTON_SIZE * BUTTON_SIZE * 4) as nat,
        |i: int|
            if i % 4 == 0 {
                color.red
            } else if i % 4 == 1 {
                color.green
            } else if i % 4 == 2 {
                color.blue
            } else {
                255u8
            },
    )
}

/// Glyph coverage, or the reason why there is none, as a mathematical
/// value.
pub open spec fn label_view(label: Result<Vec<Coverage>, DeckError>) -> Result<
    Seq<Coverage>,
    ErrorView,
> {
    match label {
        Ok(samples) => Ok(samples@),
        Err(error) => Err(error@),
    }
}

/// A tile's pixels, or the reason why there are none, as a mathematical
/// value.
pub open spec fn tile_view(tile: Result<Vec<u8>, DeckError>) -> Result<Seq<u8>, ErrorView> {
    match tile {
        Ok(pixels) => Ok(pixels@),
        Err(error) => Err(error@),
    }
}

/// The tile after the icon, if there is one, was drawn on it: centred
/// from left to right, near the top where a label follows, else where an
/// icon of full size would be centred.
pub open spec fn with_icon(base: Seq<u8>, icon: Option<Canvas>, has_label: bool) -> Seq<u8> {
    match icon {
        Some(canvas) => composited(
            base,
            BUTTON_SIZE,
            BUTTON_SIZE,
            canvas@,
            canvas.width,
            canvas.height,
            ((BUTTON_SIZE - canvas.width) / 2) as i32,
            if has_label {
                ICON_TOP_PAD
            } else {
                ((BUTTON_SIZE - ICON_MAX) / 2) as i32
            },
        ),
        None => base,
    }
}

/// The tile of a button: the background, the icon over it, the label
/// over both. A malformed background is an error before anything else;
/// where the button has a label, a failure to rasterize it comes next,
/// then a malformed text colour. A button without a label asks for
/// neither coverage nor text colour.
pub open spec fn rendered_button(
    button: ButtonConfig,
    defaults: ButtonDefaults,
    states: Map<Seq<char>, Seq<char>>,
    icon: Option<Canvas>,
    label: Result<Seq<Coverage>, ErrorView>,
) -> Result<Seq<u8>, ErrorView> {
    let on = entity_is_on(button, states);
    let background = background_of(button, defaults, on);
    let text_color = text_color_of(button, defaults, on);
    match hex_color(background) {
        None => Err(ErrorView::Render(invalid_hex_message(background))),
        Some(fill) => {
            let tile = with_icon(solid_tile(fill), icon, button.label is Some);
            if button.label is Some {
                match label {
                    Err(error) => Err(error),
                    Ok(samples) => match hex_color(text_color) {
                        None => Err(ErrorView::Render(invalid_hex_message(text_color))),
                        Some(ink) => Ok(with_samples(tile, BUTTON_SIZE, BUTTON_SIZE, samples, ink)),
                    },
                }
            } else {
                Ok(tile)
            }
        },
    }
}

/// The canvas of an optional icon.
pub open spec fn icon_canvas(icon: Option<&Icon>) -> Option<Canvas> {
    match icon {
        Some(i) => Some(i@),
        None => None,
    }
}

/// Draws a button's tile: 72 by 72 pixels, premultiplied RGBA.
///
/// `states` holds the entity states to draw from. `icon` is the button's
/// icon where it has one that could be loaded. `label` is the glyph
/// coverage of the label that `label_request` asked for, or the reason
/// why the label could not be rasterized; it is looked at only where the
/// button has a label. The same arguments give the same tile.
pub fn render_button(
    button: &ButtonConfig,
    defaults: &ButtonDefaults,
    states: &StringMap<String>,
    icon: Option<&Icon>,
    label: &Result<Vec<Coverage>, DeckError>,
) -> (tile: Result<Vec<u8>, DeckError>)
    ensures
        tile_view(tile) == rendered_button(
            *button,
            *defaults,
            states.texts(),
            icon_canvas(icon),
            label_view(*label),
        ),
        tile matches Ok(pixels) ==> pixels@.len() == BUTTON_SIZE * BUTTON_SIZE * 4,
{
    let style = resolve_style(button, defaults, states);
    let mut canvas = match create_canvas(style.background) {
        Ok(canvas) => canvas,
        Err(error) => {
            return Err(error);
        },
    };
    assert(canvas@ =~= solid_tile(hex_color(style.background@).unwrap()));
    match icon {
        Some(icon) => {
            let source = icon.canvas();
            let x = center_x(source.width());
            let y = icon_y(button.label.is_some());
            composite(&mut canvas, source, x, y);
        },
        None => {},
    }
    if button.label.is_some() {
        match label {
            Ok(samples) => {
                match draw_label(&mut canvas, samples, style.text_color) {
                    Ok(()) => {},
                    Err(error) => {
                        return Err(error);
                    },
                }
            },
            Err(error) => {
                return Err(error.clone());
            },
        }
    }
    Ok(canvas.into_data())
}

/// Draws the tile of a key that has no button: black.
pub fn render_blank() -> (tile: Result<Vec<u8>, DeckError>)
    ensures
        tile matches Ok(pixels) && pixels@ == solid_tile(Rgb { red: 0, green: 0, blue: 0 }),
{
    proof {
        reveal_strlit("#000000");
        let s = "#000000"@;
        reveal_with_fuel(crate::render::canvas::trim_hashes, 3);
        assert(s.drop_first() =~= seq!['0', '0', '0', '0', '0', '0']);
        assert(hex_color(s) == Some(Rgb { red: 0, green: 0, blue: 0 }));
    }
    match create_canvas("#000000") {
        Ok(canvas) => {
            assert(canvas@ =~= solid_tile(Rgb { red: 0, green: 0, blue: 0 }));
            Ok(canvas.into_data())
        },
        Err(error) => Err(error),
    }
}

/// Two tiles drawn from the same button, defaults, states, icon and
/// coverage are the same, byte for byte, and so are two failures: a tile
/// depends on nothing but what is handed to `render_button`.
pub proof fn lemma_render_is_deterministic(
    first: Result<Vec<u8>, DeckError>,
    second: Result<Vec<u8>, DeckError>,
    button: ButtonConfig,
    defaults: ButtonDefaults,
    states: Map<Seq<char>, Seq<char>>,
    icon: Option<Canvas>,
    label: Result<Seq<Coverage>, ErrorView>,
)
    requires
        tile_view(first) == rendered_button(button, defaults, states, icon, label),
        tile_view(second) == rendered_button(button, defaults, states, icon, label),
    ensures
        tile_view(first) == tile_view(second),
        first is Ok == second is Ok,
        first is Ok ==> first.unwrap()@ == second.unwrap()@,
        first is Err ==> first.unwrap_err()@ == second.unwrap_err()@,
{
}

/// What the drawing of one key needs from outside: the icon, where the
/// key's button has one that could be loaded, and the coverage of its
/// label or the reason why the label could not be rasterized.
#[derive(Debug)]
pub struct KeyAssets {
    pub icon: Option<Icon>,
    pub label: Result<Vec<Coverage>, DeckError>,
}

/// The tile of one key.
#[derive(Debug, Clone, PartialEq, Eq)]
pub struct Tile {
    pub key: u8,
    pub pixels: Vec<u8>,
}

/// The icon of a key's assets as a canvas.
pub open spec fn assets_icon(assets: KeyAssets) -> Option<Canvas> {
    match assets.icon {
        Some(icon) => Some(icon@),
        None => None,
    }
}

/// The tile of the key `key` of a page: that of the first button with
/// the key index, or a blank tile where the page has no such button.
pub open spec fn tile_of_key(
    page: PageConfig,
    defaults: ButtonDefaults,
    states: Map<Seq<char>, Seq<char>>,
    assets: KeyAssets,
    key: u8,
) -> Result<Seq<u8>, ErrorView> {
    match first_button(page.buttons@, key) {
        Some(button) => rendered_button(
            button,
            defaults,
            states,
            assets_icon(assets),
            label_view(assets.label),
        ),
        None => Ok(solid_tile(Rgb { red: 0, green: 0, blue: 0 })),
    }
}

/// The tiles of the first `count` keys of a page, by rising key index. A
/// key whose tile could not be drawn is left out.
pub open spec fn page_tiles(
    page: PageConfig,
    defaults: ButtonDefaults,
    states: Map<Seq<char>, Seq<char>>,
    assets: Seq<KeyAssets>,
    count: nat,
) -> Seq<(u8, Seq<u8>)>
    decreases count,
{
    if count == 0 {
        seq![]
    } else {
        let key = (count - 1) as u8;
        let before = page_tiles(page, defaults, states, assets, (count - 1) as nat);
        match tile_of_key(page, defaults, states, assets[key as int], key) {
            Ok(pixels) => before.push((key, pixels)),
            Err(_) => before,
        }
    }
}

/// Tiles as mathematical values.
pub open spec fn tile_views(tiles: Seq<Tile>) -> Seq<(u8, Seq<u8>)> {
    tiles.map_values(|t: Tile| (t.key, t.pixels@))
}

/// Draws every key of a page, the keys without a button blank. A key
/// whose tile cannot be drawn is left out and does not stop the others.
/// `assets` holds what each key needs, by key index.
pub fn render_page(
    page: &PageConfig,
    defaults: &ButtonDefaults,
    states: &StringMap<String>,
    assets: &[KeyAssets; 15],
) -> (tiles: Vec<Tile>)
    ensures
        tile_views(tiles@) == page_tiles(*page, *defaults, states.texts(), assets@, NUM_KEYS as nat),
        forall|i: int|
            0 <= i < tiles@.len() ==> (#[trigger] tiles@[i]).pixels@.len() == BUTTON_SIZE
                * BUTTON_SIZE * 4,
{
    let mut tiles: Vec<Tile> = Vec::new();
    let mut key: u8 = 0;
    while key < NUM_KEYS
        invariant
            key <= NUM_KEYS,
            forall|i: int|
                0 <= i < tiles@.len() ==> (#[trigger] tiles@[i]).pixels@.len() == BUTTON_SIZE
                    * BUTTON_SIZE * 4,
            tile_views(tiles@) == page_tiles(
                *page,
                *defaults,
                states.texts(),
                assets@,
                key as nat,
            ),
        decreases NUM_KEYS - key,
    {
        let slot = &assets[key as usize];
        let drawn = match find_button(page, key) {
            Some(button) => {
                let icon: Option<&Icon> = match &slot.icon {
                    Some(icon) => Some(icon),
                    None => None,
                };
                render_button(button, defaults, states, icon, &slot.label)
            },
            None => render_blank(),
        };
        let ghost before = tiles@;
        match drawn {
            Ok(pixels) => {
                tiles.push(Tile { key, pixels });
                assert(tile_views(tiles@) =~= tile_views(before).push((key, pixels@)));
            },
            Err(_) => {},
        }
        key += 1;
    }
    tiles
}

/// One write to the device.
#[derive(Debug, Clone, Copy, PartialEq, Eq)]
pub enum DeviceCommand<'a> {
    /// Show these pixels on the key.
    SetImage { key: u8, pixels: &'a Vec<u8> },
    /// Commit the images set so far.
    Flush,
}

/// The writes that show the tiles: one image per tile in the order of
/// the tiles, then one flush. With no device there is nothing to write,
/// which is no error.
pub open spec fn commands_for(present: bool, tiles: Seq<Tile>) -> Seq<DeviceCommand<'static>> {
    if present {
        Seq::new(
            tiles.len() + 1,
            |i: int|
                if i < tiles.len() {
                    DeviceCommand::SetImage { key: tiles[i].key, pixels: &tiles[i].pixels }
                } else {
                    DeviceCommand::Flush
                },
        )
    } else {
        seq![]
    }
}

/// The writes that bring tiles onto the device, if it is present.
pub fn push_commands<'a>(present: bool, tiles: &'a Vec<Tile>) -> (commands: Vec<DeviceCommand<'a>>)
    ensures
        commands@ == commands_for(present, tiles@),
{
    let mut commands: Vec<DeviceCommand<'a>> = Vec::new();
    if present {
        let mut i: usize = 0;
        while i < tiles.len()
            invariant
                i <= tiles@.len(),
                commands@.len() == i,
                forall|j: int|
                    0 <= j < i ==> commands@[j] == (DeviceCommand::SetImage {
                        key: tiles@[j].key,
                        pixels: &tiles@[j].pixels,
                    }),
            decreases tiles@.len() - i,
        {
            commands.push(DeviceCommand::SetImage { key: tiles[i].key, pixels: &tiles[i].pixels });
            i += 1;
        }
        commands.push(DeviceCommand::Flush);
    }
    assert(commands@ =~= commands_for(present, tiles@));
    commands
}

} // verus!
