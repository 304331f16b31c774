use sokoban_render::level::Level;
use sokoban_render::position::Position;
use sokoban_render::rect::Rect;
use sokoban_render::render::Drawer;
use sokoban_render::scene::Blit;
use sokoban_render::shadow::{Shadow, ShadowFlags};
use sokoban_render::tile::Tile;

fn drawer() -> Drawer {
    Drawer::new((800, 600))
}

fn grid(columns: i32, rows: i32) -> Level {
    Level::new(columns, rows).unwrap()
}

fn copy(tile: Tile, cell: (i32, i32), x: i32, y: i32) -> Blit {
    Blit {
        tile,
        source: Rect::new(cell.0 * 101, cell.1 * 171, 101, 171),
        target: Rect::new(x, y, 101, 171),
    }
}

#[test]
fn rendering_size_of_five_by_four() {
    assert_eq!(drawer().get_rendering_size(&grid(5, 4)), (505, 420));
}

#[test]
fn rendering_size_without_rows_has_no_height() {
    assert_eq!(drawer().get_rendering_size(&grid(5, 0)), (505, 0));
    assert_eq!(drawer().get_rendering_size(&grid(0, 0)), (0, 0));
}

#[test]
fn rendering_size_of_one_row() {
    assert_eq!(drawer().get_rendering_size(&grid(1, 1)), (101, 171));
    assert_eq!(drawer().get_rendering_size(&grid(0, 1)), (0, 171));
    assert_eq!(drawer().get_rendering_size(&grid(3, 2)), (303, 254));
}

#[test]
fn largest_canvas() {
    let widest = grid(21262214, 1);
    assert!(drawer().can_draw(&widest));
    assert_eq!(drawer().get_rendering_size(&widest), (2147483614, 171));
    assert!(!drawer().can_draw(&grid(21262215, 1)));
    let tallest = grid(1, 25873295);
    assert!(drawer().can_draw(&tallest));
    assert_eq!(drawer().get_rendering_size(&tallest), (101, 2147483573));
    assert!(!drawer().can_draw(&grid(1, 25873296)));
    assert!(drawer().can_draw(&grid(0, 0)));
}

#[test]
fn canvas_that_fits_is_not_scaled() {
    assert_eq!(drawer().get_scaled_rendering_size(&grid(5, 4)), (505, 420));
    assert_eq!(Drawer::new((505, 420)).get_scaled_rendering_size(&grid(5, 4)), (505, 420));
    assert_eq!(Drawer::new((4000, 3000)).get_scaled_rendering_size(&grid(5, 4)), (505, 420));
}

#[test]
fn canvas_too_wide_is_scaled_by_width() {
    // 100 / 505 of 420 is 83.16...
    assert_eq!(Drawer::new((100, 400)).get_scaled_rendering_size(&grid(5, 4)), (100, 83));
}

#[test]
fn canvas_too_tall_is_scaled_by_height() {
    // 210 / 420 of 505 is 252.5
    assert_eq!(Drawer::new((1000, 210)).get_scaled_rendering_size(&grid(5, 4)), (252, 210));
}

#[test]
fn canvas_too_large_both_ways_takes_the_smaller_scale() {
    // a fifth by width, a tenth by height
    assert_eq!(Drawer::new((101, 42)).get_scaled_rendering_size(&grid(5, 4)), (50, 42));
    // a tenth by width, a fifth by height: 50.5 / 505 of 420 is 41.58...
    assert_eq!(Drawer::new((50, 84)).get_scaled_rendering_size(&grid(5, 4)), (50, 41));
}

#[test]
fn scaled_size_on_an_empty_screen_or_canvas() {
    assert_eq!(Drawer::new((0, 0)).get_scaled_rendering_size(&grid(5, 4)), (0, 0));
    assert_eq!(Drawer::new((0, 600)).get_scaled_rendering_size(&grid(5, 4)), (0, 0));
    assert_eq!(Drawer::new((800, 600)).get_scaled_rendering_size(&grid(0, 0)), (0, 0));
    assert_eq!(Drawer::new((0, 0)).get_scaled_rendering_size(&grid(0, 0)), (0, 0));
    // no width: only the height decides, 100 / 420
    assert_eq!(Drawer::new((800, 100)).get_scaled_rendering_size(&grid(0, 4)), (0, 100));
    assert_eq!(Drawer::new((0, 600)).get_scaled_rendering_size(&grid(0, 4)), (0, 420));
}

#[test]
fn scaled_size_never_exceeds_screen_or_canvas() {
    for columns in 0..8 {
        for rows in 0..8 {
            let level = grid(columns, rows);
            let full = drawer().get_rendering_size(&level);
            for width in [0u32, 1, 50, 101, 333, 505, 800, 5000] {
                for height in [0u32, 1, 83, 171, 254, 600, 5000] {
                    let shown = Drawer::new((width, height)).get_scaled_rendering_size(&level);
                    assert!(shown.0 <= width && shown.1 <= height);
                    assert!(shown.0 <= full.0 && shown.1 <= full.1);
                    if full.0 <= width && full.1 <= height {
                        assert_eq!(shown, full);
                    }
                }
            }
        }
    }
}

#[test]
fn scaled_size_of_huge_values() {
    let level = grid(21262214, 25873295);
    // one pixel of height: 2147483614 / 2147483573 is just over 1
    let shown = Drawer::new((u32::MAX, 1)).get_scaled_rendering_size(&level);
    assert_eq!(shown, (1, 1));
    // one pixel of width: 2147483573 / 2147483614 is just under 1
    let shown = Drawer::new((1, u32::MAX)).get_scaled_rendering_size(&level);
    assert_eq!(shown, (1, 0));
    let shown = Drawer::new((u32::MAX, u32::MAX)).get_scaled_rendering_size(&level);
    assert_eq!(shown, (2147483614, 2147483573));
}

#[test]
fn centered_image() {
    assert_eq!(drawer().get_centered_image_rect((505, 420)), Rect::new(147, 90, 505, 420));
    assert_eq!(drawer().get_centered_image_rect((800, 600)), Rect::new(0, 0, 800, 600));
    assert_eq!(drawer().get_centered_image_rect((0, 0)), Rect::new(400, 300, 0, 0));
    assert_eq!(drawer().get_centered_image_rect((799, 1)), Rect::new(0, 299, 799, 1));
    let wide = Drawer::new((u32::MAX, u32::MAX));
    assert_eq!(wide.get_centered_image_rect((0, 1)), Rect::new(i32::MAX, i32::MAX, 0, 1));
}

#[test]
fn margins_differ_by_one_pixel_at_most() {
    for width in 0u32..40 {
        for image in 0..=width {
            let rect = Drawer::new((width, 600)).get_centered_image_rect((image, 600));
            let left = rect.x as i64;
            let right = width as i64 - (rect.x as i64 + rect.width as i64);
            assert!(left >= 0 && right >= 0);
            assert!((left - right).abs() <= 1);
            assert_eq!(rect.y, 0);
            let rect = Drawer::new((800, width)).get_centered_image_rect((800, image));
            let top = rect.y as i64;
            let bottom = width as i64 - (rect.y as i64 + rect.height as i64);
            assert!((top - bottom).abs() <= 1);
        }
    }
}

#[test]
fn tile_rectangles() {
    assert_eq!(drawer().get_tile_rect(0, 0), Rect::new(0, 0, 101, 171));
    assert_eq!(drawer().get_tile_rect(5, 1), Rect::new(505, 171, 101, 171));
    assert_eq!(drawer().get_tile_rect(0, 2), Rect::new(0, 342, 101, 171));
}

#[test]
fn drawing_one_tile() {
    let mut canvas = Vec::new();
    drawer().draw_tile(&mut canvas, Tile::Player, 7, -9);
    drawer().draw_tile(&mut canvas, Tile::Shadow(ShadowFlags::only(Shadow::SwCorner)), 0, 0);
    assert_eq!(
        canvas,
        vec![
            copy(Tile::Player, (3, 0), 7, -9),
            copy(Tile::Shadow(ShadowFlags::only(Shadow::SwCorner)), (5, 1), 0, 0),
        ]
    );
}

#[test]
fn drawing_shadows_in_order() {
    let flags = ShadowFlags::only(Shadow::SwCorner).with(Shadow::NEdge).with(Shadow::EEdge);
    let mut canvas = Vec::new();
    drawer().draw_shadows(&mut canvas, flags, 101, 83);
    assert_eq!(
        canvas,
        vec![
            copy(Tile::Shadow(ShadowFlags::only(Shadow::NEdge)), (4, 0), 101, 83),
            copy(Tile::Shadow(ShadowFlags::only(Shadow::EEdge)), (0, 1), 101, 83),
            copy(Tile::Shadow(ShadowFlags::only(Shadow::SwCorner)), (5, 1), 101, 83),
        ]
    );
    let mut canvas = Vec::new();
    drawer().draw_shadows(&mut canvas, ShadowFlags::empty(), 0, 0);
    assert!(canvas.is_empty());
}

#[test]
fn drawing_an_empty_level() {
    assert!(drawer().draw_fullsize(&grid(0, 0)).is_empty());
    assert!(drawer().draw_fullsize(&grid(3, 0)).is_empty());
    assert!(drawer().draw_fullsize(&grid(0, 3)).is_empty());
}

#[test]
fn drawing_floor_in_row_major_order() {
    let canvas = drawer().draw_fullsize(&grid(3, 2));
    assert_eq!(
        canvas,
        vec![
            copy(Tile::Floor, (0, 0), 0, 0),
            copy(Tile::Floor, (0, 0), 101, 0),
            copy(Tile::Floor, (0, 0), 202, 0),
            copy(Tile::Floor, (0, 0), 0, 83),
            copy(Tile::Floor, (0, 0), 101, 83),
            copy(Tile::Floor, (0, 0), 202, 83),
        ]
    );
}

#[test]
fn drawing_a_small_level() {
    let level = grid(2, 1)
        .with_square(Position::new(0, 0))
        .with_box(Position::new(0, 0))
        .with_wall(Position::new(0, 1));
    let canvas = drawer().draw_fullsize(&level);
    assert_eq!(
        canvas,
        vec![
            copy(Tile::Square, (1, 0), 0, 0),
            copy(Tile::Shadow(ShadowFlags::only(Shadow::EEdge)), (0, 1), 0, 0),
            copy(Tile::Rock, (2, 0), 0, -40),
            copy(Tile::Floor, (0, 0), 101, 0),
            copy(Tile::Wall, (0, 2), 101, -40),
        ]
    );
}

#[test]
fn drawing_a_crowded_cell() {
    // wall, box and player in one cell: all three are drawn, in that order
    let here = Position::new(1, 1);
    let level = grid(3, 3).with_player(here).with_box(here).with_wall(here);
    let canvas = drawer().draw_fullsize(&level);
    let at = canvas.iter().position(|c| c.tile == Tile::Wall).unwrap();
    assert_eq!(canvas[at], copy(Tile::Wall, (0, 2), 101, 43));
    assert_eq!(canvas[at + 1], copy(Tile::Rock, (2, 0), 101, 43));
    assert_eq!(canvas[at + 2], copy(Tile::Player, (3, 0), 101, 43));
    assert_eq!(canvas[at - 1], copy(Tile::Floor, (0, 0), 101, 83));
    // nine grounds, eight shadows around the wall, three objects
    assert_eq!(canvas.len(), 20);
}

#[test]
fn drawing_one_cell() {
    let level = grid(3, 3).with_wall(Position::new(1, 1)).with_player(Position::new(0, 0));
    let mut canvas = vec![copy(Tile::Floor, (0, 0), 5, 5)];
    drawer().draw_cell(&mut canvas, &level, &Position::new(0, 0));
    assert_eq!(
        canvas,
        vec![
            copy(Tile::Floor, (0, 0), 5, 5),
            copy(Tile::Floor, (0, 0), 0, 0),
            copy(Tile::Shadow(ShadowFlags::only(Shadow::SeCorner)), (4, 1), 0, 0),
            copy(Tile::Player, (3, 0), 0, -40),
        ]
    );
}

#[test]
fn every_copy_of_a_scene_has_an_image() {
    let mut level = grid(4, 4);
    for (row, column) in [(0, 0), (0, 3), (1, 1), (2, 2), (3, 0), (3, 1)] {
        level = level.with_wall(Position::new(row, column));
    }
    for c in drawer().draw_fullsize(&level) {
        let (column, row) = c.tile.location().unwrap();
        assert_eq!(c.source, drawer().get_tile_rect(column, row));
        assert_eq!((c.target.width, c.target.height), (101, 171));
    }
}

#[test]
fn frame_of_a_level_that_fits() {
    let level = grid(5, 4).with_wall(Position::new(0, 0));
    let frame = drawer().draw(&level);
    assert_eq!(frame.canvas_size, (505, 420));
    assert_eq!(frame.source, Rect::new(0, 0, 505, 420));
    assert_eq!(frame.target, Rect::new(147, 90, 505, 420));
    assert_eq!(frame.canvas, drawer().draw_fullsize(&level));
}

#[test]
fn frame_of_a_level_that_is_scaled() {
    let level = grid(5, 4);
    let frame = Drawer::new((100, 400)).draw(&level);
    assert_eq!(frame.canvas_size, (505, 420));
    assert_eq!(frame.source, Rect::new(0, 0, 505, 420));
    assert_eq!(frame.target, Rect::new(0, 158, 100, 83));
    assert_eq!(frame.canvas.len(), 20);
}

#[test]
fn frame_of_an_empty_level() {
    let frame = drawer().draw(&grid(0, 0));
    assert_eq!(frame.canvas_size, (0, 0));
    assert!(frame.canvas.is_empty());
    assert_eq!(frame.source, Rect::new(0, 0, 0, 0));
    assert_eq!(frame.target, Rect::new(400, 300, 0, 0));
}

#[test]
fn screen_size_is_kept() {
    assert_eq!(Drawer::new((640, 480)).screen_size(), (640, 480));
}
