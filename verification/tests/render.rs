use deckd::config::schema::{ButtonConfig, ButtonDefaults, FontSize, PageConfig};
use deckd::error::DeckError;
use deckd::render::canvas::{composite, create_canvas, Canvas, Rgb};
use deckd::render::icon::{center_x, icon_from_rgba, icon_y, ICON_MAX};
use deckd::render::text::{blend_coverage, blend_pixel, draw_label, font_face, Coverage, FontFace};
use deckd::render::{
    label_request, push_commands, render_blank, render_button, render_page, resolve_style,
    DeviceCommand, KeyAssets, LabelPlacement, Tile,
};
use deckd::table::StringMap;

fn button(key: u8) -> ButtonConfig {
    ButtonConfig {
        key,
        label: None,
        icon: None,
        background: None,
        text_color: None,
        on_background: None,
        on_text_color: None,
        font_size: None,
        font: None,
        state_entity: None,
        on_press: None,
    }
}

fn states(pairs: &[(&str, &str)]) -> StringMap<String> {
    let mut table: StringMap<String> = StringMap::new();
    for (name, value) in pairs {
        table.set_text(name.to_string(), value.to_string());
    }
    table
}

fn no_label() -> Result<Vec<Coverage>, DeckError> {
    Ok(Vec::new())
}

fn solid(r: u8, g: u8, b: u8) -> Vec<u8> {
    let mut data = Vec::new();
    for _ in 0..72 * 72 {
        data.extend_from_slice(&[r, g, b, 255]);
    }
    data
}

fn stateful_button() -> ButtonConfig {
    let mut b = button(0);
    b.state_entity = Some("light.desk".to_string());
    b.background = Some("#102030".to_string());
    b.on_background = Some("#405060".to_string());
    b.text_color = Some("#111111".to_string());
    b.on_text_color = Some("#eeeeee".to_string());
    b
}

#[test]
fn blank_tile_is_opaque_black() {
    assert_eq!(render_blank().unwrap(), solid(0, 0, 0));
}

#[test]
fn background_falls_back_in_three_levels() {
    let defaults = ButtonDefaults::default();
    let on = states(&[("light.desk", "on")]);
    let off = states(&[("light.desk", "off")]);
    let unknown = states(&[]);

    let b = stateful_button();
    assert_eq!(render_button(&b, &defaults, &on, None, &no_label()).unwrap(), solid(0x40, 0x50, 0x60));
    assert_eq!(render_button(&b, &defaults, &off, None, &no_label()).unwrap(), solid(0x10, 0x20, 0x30));
    assert_eq!(
        render_button(&b, &defaults, &unknown, None, &no_label()).unwrap(),
        solid(0x10, 0x20, 0x30)
    );

    let mut without_on = stateful_button();
    without_on.on_background = None;
    assert_eq!(
        render_button(&without_on, &defaults, &on, None, &no_label()).unwrap(),
        solid(0x10, 0x20, 0x30)
    );

    let mut bare = button(0);
    bare.state_entity = Some("light.desk".to_string());
    assert_eq!(render_button(&bare, &defaults, &on, None, &no_label()).unwrap(), solid(26, 26, 46));

    let mut unbound = stateful_button();
    unbound.state_entity = None;
    assert_eq!(
        render_button(&unbound, &defaults, &on, None, &no_label()).unwrap(),
        solid(0x10, 0x20, 0x30)
    );
}

#[test]
fn style_levels_are_independent() {
    let defaults = ButtonDefaults::default();
    let on = states(&[("light.desk", "on")]);
    let mut b = stateful_button();
    b.on_text_color = None;
    let style = resolve_style(&b, &defaults, &on);
    assert!(style.entity_on);
    assert_eq!(style.background, "#405060");
    assert_eq!(style.text_color, "#111111");
    assert_eq!(style.font_name, "inter");
    assert_eq!(f32::from_bits(style.font_size.bits), 14.0);

    b.text_color = None;
    b.font = Some("jb-bold".to_string());
    b.font_size = Some(FontSize { bits: 20.0f32.to_bits() });
    let style = resolve_style(&b, &defaults, &on);
    assert_eq!(style.text_color, "#e0e0e0");
    assert_eq!(style.font_name, "jb-bold");
    assert_eq!(f32::from_bits(style.font_size.bits), 20.0);

    let style = resolve_style(&b, &defaults, &states(&[("light.desk", "On")]));
    assert!(!style.entity_on);
    assert_eq!(style.background, "#102030");
}

#[test]
fn rendering_twice_gives_identical_bytes() {
    let defaults = ButtonDefaults::default();
    let on = states(&[("light.desk", "on")]);
    let mut b = stateful_button();
    b.label = Some("Desk".to_string());
    let icon = icon_from_rgba(2, 2, &vec![200, 100, 50, 128, 1, 2, 3, 255, 9, 9, 9, 0, 255, 255, 255, 255])
        .unwrap();
    let label = Ok(vec![
        Coverage { x: 3, y: 60, alpha: 255 },
        Coverage { x: 4, y: 60, alpha: 100 },
        Coverage { x: 4, y: 60, alpha: 100 },
    ]);
    let first = render_button(&b, &defaults, &on, Some(&icon), &label).unwrap();
    let second = render_button(&b, &defaults, &on, Some(&icon), &label).unwrap();
    assert_eq!(first, second);
    assert_eq!(first.len(), 72 * 72 * 4);
    assert_ne!(first, solid(0x40, 0x50, 0x60));
}

#[test]
fn errors_come_in_order() {
    let defaults = ButtonDefaults::default();
    let none = states(&[]);
    let font_failed: Result<Vec<Coverage>, DeckError> = Err(DeckError::Font("no font".to_string()));

    let mut b = button(0);
    b.background = Some("#12".to_string());
    b.text_color = Some("nope".to_string());
    b.label = Some("x".to_string());
    assert_eq!(
        render_button(&b, &defaults, &none, None, &font_failed),
        Err(DeckError::Render("invalid hex color: #12".to_string()))
    );

    b.background = None;
    assert_eq!(
        render_button(&b, &defaults, &none, None, &font_failed),
        Err(DeckError::Font("no font".to_string()))
    );
    assert_eq!(
        render_button(&b, &defaults, &none, None, &no_label()),
        Err(DeckError::Render("invalid hex color: #nope".to_string()))
    );

    // Without a label neither the coverage nor the text colour matters.
    b.label = None;
    assert_eq!(render_button(&b, &defaults, &none, None, &font_failed).unwrap(), solid(26, 26, 46));
}

#[test]
fn label_is_blended_in_the_text_color() {
    let defaults = ButtonDefaults::default();
    let mut b = button(0);
    b.background = Some("#000000".to_string());
    b.text_color = Some("#ff8000".to_string());
    b.label = Some("x".to_string());
    let label = Ok(vec![
        Coverage { x: 0, y: 0, alpha: 255 },
        Coverage { x: 71, y: 71, alpha: 128 },
        Coverage { x: 72, y: 0, alpha: 255 },
        Coverage { x: -1, y: 5, alpha: 255 },
        Coverage { x: 5, y: 72, alpha: 255 },
        Coverage { x: 1, y: 0, alpha: 0 },
    ]);
    let tile = render_button(&b, &defaults, &states(&[]), None, &label).unwrap();
    let mut expected = solid(0, 0, 0);
    expected[0..4].copy_from_slice(&[255, 128, 0, 255]);
    let last = (71 * 72 + 71) * 4;
    expected[last..last + 4].copy_from_slice(&[128, 64, 0, 255]);
    assert_eq!(tile, expected);
}

#[test]
fn blend_pixel_formula() {
    let mut data = vec![10, 20, 30, 40, 50, 60, 70, 80];
    blend_pixel(&mut data, 4, &Rgb { red: 200, green: 100, blue: 0 }, 51);
    // (fg * 51 + bg * 204) / 255, rounded down.
    assert_eq!(data, vec![10, 20, 30, 40, 80, 68, 56, 255]);
    blend_pixel(&mut data, 0, &Rgb { red: 1, green: 2, blue: 3 }, 255);
    assert_eq!(&data[0..4], &[1, 2, 3, 255]);
    blend_pixel(&mut data, 0, &Rgb { red: 99, green: 99, blue: 99 }, 0);
    assert_eq!(&data[0..4], &[1, 2, 3, 255]);
    blend_pixel(&mut data, 0, &Rgb { red: 255, green: 0, blue: 254 }, 1);
    assert_eq!(&data[0..4], &[1, 1, 3, 255]);
}

#[test]
fn coverage_is_blended_in_order() {
    let mut canvas = Canvas::from_pixels(vec![0, 0, 0, 255, 100, 100, 100, 255], 2, 1).unwrap();
    let samples = vec![
        Coverage { x: 1, y: 0, alpha: 128 },
        Coverage { x: 1, y: 0, alpha: 128 },
        Coverage { x: 2, y: 0, alpha: 255 },
        Coverage { x: 0, y: 1, alpha: 255 },
    ];
    blend_coverage(&mut canvas, &samples, &Rgb { red: 255, green: 255, blue: 255 });
    // 100 -> (255*128 + 100*127)/255 = 177 -> (255*128 + 177*127)/255 = 216
    assert_eq!(canvas.data(), &vec![0, 0, 0, 255, 216, 216, 216, 255]);

    let before = canvas.clone();
    assert_eq!(
        draw_label(&mut canvas, &samples, "#xyz"),
        Err(DeckError::Render("invalid hex color: #xyz".to_string()))
    );
    assert_eq!(canvas, before);
    assert_eq!(draw_label(&mut canvas, &samples, "#000"), Ok(()));
    assert_eq!(canvas.data()[4], 53);
}

#[test]
fn canvas_must_match_its_size() {
    assert!(Canvas::from_pixels(vec![0; 8], 2, 1).is_some());
    assert!(Canvas::from_pixels(vec![0; 7], 2, 1).is_none());
    assert!(Canvas::from_pixels(vec![0; 8], 1, 1).is_none());
    assert!(Canvas::from_pixels(vec![], 0, 1).is_none());
    assert!(Canvas::from_pixels(vec![], 1, 0).is_none());
    let canvas = Canvas::from_pixels(vec![7; 24], 2, 3).unwrap();
    assert_eq!((canvas.width(), canvas.height()), (2, 3));
    assert_eq!(canvas.into_data(), vec![7; 24]);
}

#[test]
fn icon_pixels_are_premultiplied() {
    let rgba = vec![200, 100, 50, 128, 255, 255, 255, 255, 10, 20, 30, 0, 1, 1, 1, 254, 9, 9];
    let icon = icon_from_rgba(2, 2, &rgba).unwrap();
    let canvas = icon.canvas();
    assert_eq!((canvas.width(), canvas.height()), (2, 2));
    assert_eq!(
        canvas.data(),
        &vec![100, 50, 25, 128, 255, 255, 255, 255, 0, 0, 0, 0, 0, 0, 0, 254]
    );
}

#[test]
fn icon_faults() {
    let render = |m: &str| Err(DeckError::Render(m.to_string()));
    assert_eq!(icon_from_rgba(0, 4, &vec![]).map(|_| ()), render("failed to create icon pixmap"));
    assert_eq!(icon_from_rgba(4, 0, &vec![]).map(|_| ()), render("failed to create icon pixmap"));
    assert_eq!(
        icon_from_rgba(ICON_MAX + 1, 1, &vec![0; 4 * 49]).map(|_| ()),
        render("icon larger than the icon box")
    );
    assert_eq!(
        icon_from_rgba(2, 2, &vec![0; 15]).map(|_| ()),
        render("icon data shorter than its size")
    );
    assert!(icon_from_rgba(ICON_MAX, ICON_MAX, &vec![255; 48 * 48 * 4]).is_ok());
}

#[test]
fn icon_positions() {
    assert_eq!(center_x(48), 12);
    assert_eq!(center_x(47), 12);
    assert_eq!(center_x(1), 35);
    assert_eq!(center_x(0), 36);
    assert_eq!(center_x(72), 0);
    assert_eq!(icon_y(true), 4);
    assert_eq!(icon_y(false), 12);
}

#[test]
fn composite_draws_source_over() {
    let mut canvas = create_canvas("#1a1a2e").unwrap();
    let opaque = Canvas::from_pixels(vec![255, 0, 0, 255, 0, 0, 0, 0], 2, 1).unwrap();
    composite(&mut canvas, &opaque, 3, 2);
    let data = canvas.data();
    let at = |x: usize, y: usize| &data[(y * 72 + x) * 4..(y * 72 + x) * 4 + 4];
    assert_eq!(at(3, 2), &[255, 0, 0, 255]);
    assert_eq!(at(4, 2), &[26, 26, 46, 255]);
    assert_eq!(at(2, 2), &[26, 26, 46, 255]);
    assert_eq!(at(3, 3), &[26, 26, 46, 255]);
    assert_eq!(data.len(), 72 * 72 * 4);

    // Partly or wholly outside the canvas.
    composite(&mut canvas, &opaque, 71, 71);
    assert_eq!(&canvas.data()[(71 * 72 + 71) * 4..], &[255, 0, 0, 255]);
    let before = canvas.clone();
    composite(&mut canvas, &opaque, -5, 100);
    assert_eq!(canvas, before);
}

#[test]
fn icon_is_centered_on_the_tile() {
    let defaults = ButtonDefaults::default();
    let mut b = button(0);
    b.background = Some("#000000".to_string());
    let icon = icon_from_rgba(2, 2, &vec![255; 16]).unwrap();
    let tile = render_button(&b, &defaults, &states(&[]), Some(&icon), &no_label()).unwrap();
    let mut expected = solid(0, 0, 0);
    for (x, y) in [(35, 12), (36, 12), (35, 13), (36, 13)] {
        let at = (y * 72 + x) * 4;
        expected[at..at + 4].copy_from_slice(&[255, 255, 255, 255]);
    }
    assert_eq!(tile, expected);

    b.label = Some("x".to_string());
    let tile = render_button(&b, &defaults, &states(&[]), Some(&icon), &no_label()).unwrap();
    let mut expected = solid(0, 0, 0);
    for (x, y) in [(35, 4), (36, 4), (35, 5), (36, 5)] {
        let at = (y * 72 + x) * 4;
        expected[at..at + 4].copy_from_slice(&[255, 255, 255, 255]);
    }
    assert_eq!(tile, expected);
}

#[test]
fn label_request_follows_the_icon() {
    let defaults = ButtonDefaults::default();
    let mut b = button(0);
    assert!(label_request(&b, &defaults, false).is_none());
    assert!(label_request(&b, &defaults, true).is_none());

    b.label = Some("Deploy\nnow".to_string());
    let centered = label_request(&b, &defaults, false).unwrap();
    assert_eq!(centered.text, "Deploy\nnow");
    assert_eq!(centered.placement, LabelPlacement::Centered);
    assert_eq!(centered.face, FontFace::Inter);
    assert_eq!(f32::from_bits(centered.size.bits), 14.0);

    let bottom = label_request(&b, &defaults, true).unwrap();
    assert_eq!(bottom.placement, LabelPlacement::Bottom);
    assert_eq!(f32::from_bits(bottom.size.bits), 12.0);

    b.font_size = Some(FontSize { bits: 9.5f32.to_bits() });
    b.font = Some("roboto-slab".to_string());
    let bottom = label_request(&b, &defaults, true).unwrap();
    assert_eq!(f32::from_bits(bottom.size.bits), 9.5);
    assert_eq!(bottom.face, FontFace::RobotoSlab);
}

#[test]
fn font_names() {
    assert_eq!(font_face("roboto-slab"), FontFace::RobotoSlab);
    assert_eq!(font_face("jb-thin"), FontFace::JetBrainsThin);
    assert_eq!(font_face("jb-extralight"), FontFace::JetBrainsExtraLight);
    assert_eq!(font_face("jb-light"), FontFace::JetBrainsLight);
    assert_eq!(font_face("jb-regular"), FontFace::JetBrainsRegular);
    assert_eq!(font_face("jb-medium"), FontFace::JetBrainsMedium);
    assert_eq!(font_face("jb-semibold"), FontFace::JetBrainsSemiBold);
    assert_eq!(font_face("jb-bold"), FontFace::JetBrainsBold);
    assert_eq!(font_face("jb-extrabold"), FontFace::JetBrainsExtraBold);
    assert_eq!(font_face("jetbrains-mono"), FontFace::JetBrainsExtraBold);
    assert_eq!(font_face("jetbrains-bold"), FontFace::JetBrainsBold);
    assert_eq!(font_face("inter"), FontFace::Inter);
    assert_eq!(font_face("JB-BOLD"), FontFace::Inter);
    assert_eq!(font_face(""), FontFace::Inter);
}

fn empty_assets() -> [KeyAssets; 15] {
    std::array::from_fn(|_| KeyAssets { icon: None, label: Ok(Vec::new()) })
}

#[test]
fn page_renders_every_key() {
    let defaults = ButtonDefaults::default();
    let mut red = button(2);
    red.background = Some("#ff0000".to_string());
    let mut shadowed = button(2);
    shadowed.background = Some("#00ff00".to_string());
    let mut broken = button(5);
    broken.background = Some("oops".to_string());
    let page = PageConfig {
        name: "Home".to_string(),
        buttons: vec![red, shadowed, broken, button(14)],
    };
    let tiles = render_page(&page, &defaults, &states(&[]), &empty_assets());
    let keys: Vec<u8> = tiles.iter().map(|t| t.key).collect();
    assert_eq!(keys, vec![0, 1, 2, 3, 4, 6, 7, 8, 9, 10, 11, 12, 13, 14]);
    for tile in &tiles {
        let expected = match tile.key {
            2 => solid(255, 0, 0),
            14 => solid(26, 26, 46),
            _ => solid(0, 0, 0),
        };
        assert_eq!(tile.pixels, expected, "key {}", tile.key);
    }
}

#[test]
fn page_uses_each_keys_assets() {
    let defaults = ButtonDefaults::default();
    let mut labelled = button(1);
    labelled.label = Some("a".to_string());
    labelled.background = Some("#000".to_string());
    labelled.text_color = Some("#fff".to_string());
    let mut failing = button(3);
    failing.label = Some("b".to_string());
    let page = PageConfig { name: String::new(), buttons: vec![labelled, failing] };
    let mut assets = empty_assets();
    assets[1].label = Ok(vec![Coverage { x: 0, y: 0, alpha: 255 }]);
    assets[3].label = Err(DeckError::Font("missing".to_string()));
    let tiles = render_page(&page, &defaults, &states(&[]), &assets);
    assert_eq!(tiles.len(), 14);
    assert!(tiles.iter().all(|t| t.key != 3));
    let one = tiles.iter().find(|t| t.key == 1).unwrap();
    assert_eq!(&one.pixels[0..8], &[255, 255, 255, 255, 0, 0, 0, 255]);
}

#[test]
fn tiles_are_pushed_then_flushed_once() {
    let tiles = vec![
        Tile { key: 3, pixels: vec![1, 2, 3, 4] },
        Tile { key: 0, pixels: vec![5, 6, 7, 8] },
    ];
    let commands = push_commands(true, &tiles);
    assert_eq!(
        commands,
        vec![
            DeviceCommand::SetImage { key: 3, pixels: &tiles[0].pixels },
            DeviceCommand::SetImage { key: 0, pixels: &tiles[1].pixels },
            DeviceCommand::Flush,
        ]
    );
    assert_eq!(push_commands(true, &vec![]), vec![DeviceCommand::Flush]);
}

#[test]
fn without_a_device_nothing_is_pushed() {
    let tiles = vec![Tile { key: 3, pixels: vec![1, 2, 3, 4] }];
    assert!(push_commands(false, &tiles).is_empty());
    assert!(push_commands(false, &vec![]).is_empty());
}
