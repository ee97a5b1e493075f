use netrunner_cli::modules::logo::{Area, Glyph, LogoColor};
use netrunner_cli::modules::{NetrunnerLogo, NetrunnerLogoSize};

#[test]
fn test_logo_creation() {
    let logo = NetrunnerLogo::new(NetrunnerLogoSize::Medium);
    assert_eq!(logo.size, NetrunnerLogoSize::Medium);
}

#[test]
fn test_default_size() {
    let logo = NetrunnerLogo::default();
    assert_eq!(logo.size, NetrunnerLogoSize::Medium);
}

#[test]
fn default_logo_size_is_medium() {
    assert_eq!(NetrunnerLogoSize::default(), NetrunnerLogoSize::Medium);
}

fn area(x: u16, y: u16, width: u16, height: u16) -> Area {
    Area { x, y, width, height }
}

#[test]
fn logo_cells_stay_in_the_centred_box() {
    let screen = area(0, 0, 200, 60);
    let sizes = [
        (NetrunnerLogoSize::Tiny, 35u16, 3u16),
        (NetrunnerLogoSize::Small, 50, 5),
        (NetrunnerLogoSize::Medium, 70, 7),
    ];
    for (size, w, h) in sizes.iter() {
        let target = area(10, 4, 100, 20);
        let cells = NetrunnerLogo::new(*size).cells(target, screen);
        assert!(!cells.is_empty());
        let ox = 10 + (100 - w) / 2;
        let oy = 4 + (20 - h) / 2;
        for c in cells.iter() {
            assert!(c.x >= ox && c.x < ox + w, "x {} outside the box", c.x);
            assert!(c.y >= oy && c.y < oy + h, "y {} outside the box", c.y);
        }
    }
}

#[test]
fn logo_in_too_small_area_draws_nothing() {
    let screen = area(0, 0, 200, 60);
    assert!(NetrunnerLogo::new(NetrunnerLogoSize::Medium).cells(area(0, 0, 69, 20), screen).is_empty());
    assert!(NetrunnerLogo::new(NetrunnerLogoSize::Medium).cells(area(0, 0, 80, 6), screen).is_empty());
    assert!(NetrunnerLogo::new(NetrunnerLogoSize::Tiny).cells(area(0, 0, 34, 3), screen).is_empty());
    assert!(!NetrunnerLogo::new(NetrunnerLogoSize::Tiny).cells(area(0, 0, 35, 3), screen).is_empty());
}

#[test]
fn logo_first_stroke_of_medium_starts_at_origin() {
    let screen = area(0, 0, 100, 20);
    let cells = NetrunnerLogo::new(NetrunnerLogoSize::Medium).cells(area(0, 0, 70, 7), screen);
    assert_eq!(cells[0].x, 0);
    assert_eq!(cells[0].y, 0);
    assert_eq!(cells[0].color, LogoColor::CyanBright);
    assert_eq!(cells[0].glyph, Glyph::Upper);
}

#[test]
fn logo_cells_are_clipped_to_the_buffer() {
    let buffer = area(0, 0, 40, 3);
    let cells = NetrunnerLogo::new(NetrunnerLogoSize::Medium).cells(area(0, 0, 70, 7), buffer);
    for c in cells.iter() {
        if !matches!(
            c.glyph,
            Glyph::BlockUpperBlock
                | Glyph::BlockUpper
                | Glyph::UpperBlockUpper
                | Glyph::BlockUpperLower
                | Glyph::BlockDashBlock
        ) {
            assert!(c.x < 40 && c.y < 3);
        }
    }
}

#[test]
fn logo_palette_and_glyphs() {
    assert_eq!(LogoColor::CyanBright.rgb(), (100, 255, 255));
    assert_eq!(LogoColor::GreenNeon.rgb(), (0, 255, 150));
    assert_eq!(Glyph::Upper.symbol(), "▀");
    assert_eq!(Glyph::BlockDashBlock.symbol(), "█─█");
}
