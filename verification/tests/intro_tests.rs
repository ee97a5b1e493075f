use netrunner_cli::modules::intro::{
    border_cells, border_rgb, border_shown, center_rect, intro_over, is_skip_key, logo_box,
    tagline_shown, BorderSide,
};
use netrunner_cli::modules::keys::Key;
use netrunner_cli::modules::logo::Area;

#[test]
fn test_center_rect() {
    let area = Area { x: 0, y: 0, width: 100, height: 50 };
    let centered = center_rect(area, 50, 20);
    assert_eq!(centered.width, 50);
    assert_eq!(centered.height, 20);
    assert_eq!(centered.x, 25);
    assert_eq!(centered.y, 15);
}

#[test]
fn center_rect_in_offset_area() {
    let area = Area { x: 10, y: 2, width: 120, height: 30 };
    let centered = center_rect(area, 80, 15);
    assert_eq!(centered, Area { x: 30, y: 9, width: 80, height: 15 });
    assert_eq!(logo_box(area), centered);
}

#[test]
fn skip_keys() {
    assert!(is_skip_key(Key::Char('q')));
    assert!(is_skip_key(Key::Char(' ')));
    assert!(is_skip_key(Key::Esc));
    assert!(is_skip_key(Key::Enter));
    assert!(!is_skip_key(Key::Char('x')));
    assert!(!is_skip_key(Key::Tab));
    assert!(!is_skip_key(Key::Other));
}

#[test]
fn intro_ends_on_skip_or_timeout() {
    assert!(!intro_over(None, 0));
    assert!(!intro_over(None, 2999));
    assert!(intro_over(None, 3000));
    assert!(intro_over(Some(Key::Esc), 10));
    assert!(!intro_over(Some(Key::Char('a')), 10));
}

#[test]
fn border_and_tagline_thresholds_match_progress() {
    for elapsed in 0u32..5000 {
        let progress = (elapsed as f64 / 3000.0).min(1.0);
        assert_eq!(border_shown(elapsed), progress > 0.3, "elapsed {}", elapsed);
        assert_eq!(tagline_shown(elapsed), !(progress < 0.3), "elapsed {}", elapsed);
    }
}

#[test]
fn border_rings_a_box_inside_the_screen() {
    let a = Area { x: 5, y: 3, width: 10, height: 4 };
    let cells = border_cells(a, 80, 24, 0);
    assert_eq!(cells.len(), 2 * 10 + 2 * 4);
    // top, left to right
    assert_eq!((cells[0].x, cells[0].y, cells[0].side), (5, 2, BorderSide::Top));
    assert_eq!((cells[9].x, cells[9].y), (14, 2));
    // right, top to bottom
    assert_eq!((cells[10].x, cells[10].y, cells[10].side), (15, 3, BorderSide::Right));
    assert_eq!((cells[13].x, cells[13].y), (15, 6));
    // bottom, right to left
    assert_eq!((cells[14].x, cells[14].y, cells[14].side), (14, 7, BorderSide::Bottom));
    assert_eq!((cells[23].x, cells[23].y), (5, 7));
    // left, bottom to top
    assert_eq!((cells[24].x, cells[24].y, cells[24].side), (4, 6, BorderSide::Left));
    assert_eq!((cells[27].x, cells[27].y), (4, 3));
    for c in cells.iter() {
        let inside = c.x >= 5 && c.x < 15 && c.y >= 3 && c.y < 7;
        assert!(!inside);
    }
}

#[test]
fn border_skips_sides_at_the_screen_edge() {
    let a = Area { x: 0, y: 0, width: 10, height: 4 };
    let cells = border_cells(a, 10, 4, 0);
    assert!(cells.is_empty());
    let cells = border_cells(a, 11, 4, 0);
    assert_eq!(cells.len(), 4);
    assert!(cells.iter().all(|c| c.side == BorderSide::Right));
}

#[test]
fn border_colour_cycle() {
    let a = Area { x: 5, y: 3, width: 30, height: 10 };
    let cells = border_cells(a, 80, 24, 0);
    assert_eq!((cells[0].shade.from, cells[0].shade.to, cells[0].shade.step), (0, 1, 0));
    assert_eq!((cells[7].shade.from, cells[7].shade.to, cells[7].shade.step), (0, 1, 7));
    assert_eq!((cells[10].shade.from, cells[10].shade.to, cells[10].shade.step), (1, 2, 0));
    assert_eq!((cells[55].shade.from, cells[55].shade.to, cells[55].shade.step), (5, 0, 5));
    assert_eq!((cells[60].shade.from, cells[60].shade.step), (0, 0));
    // the cycle moves one cell every two frames
    let later = border_cells(a, 80, 24, 7);
    assert_eq!(later[0].shade, cells[3].shade);
    assert_eq!(border_rgb(0), (0, 255, 255));
    assert_eq!(border_rgb(5), (255, 255, 0));
    assert_eq!(BorderSide::Top.symbol(), "▀");
    assert_eq!(BorderSide::Bottom.symbol(), "▄");
}

#[test]
fn centring_matches_equal_margins() {
    for &(x, y, w, h, bw, bh) in [
        (0u16, 0u16, 100u16, 50u16, 50u16, 20u16),
        (3, 7, 81, 16, 80, 15),
        (0, 2, 200, 40, 80, 15),
        (5, 5, 80, 15, 80, 15),
        (1, 1, 9, 9, 2, 3),
    ]
    .iter()
    {
        let r = center_rect(Area { x, y, width: w, height: h }, bw, bh);
        assert_eq!(r, Area { x: x + (w - bw) / 2, y: y + (h - bh) / 2, width: bw, height: bh });
    }
}
