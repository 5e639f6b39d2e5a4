use diagonal_grid::config::Color;
use diagonal_grid::config::Config;
use diagonal_grid::grid::Cell;
use diagonal_grid::grid::Grid;
use diagonal_grid::grid::Orientation;
use diagonal_grid::render::cell_segment;
use diagonal_grid::render::render;
use diagonal_grid::render::to_surface;
use diagonal_grid::render::DrawCmd;
use diagonal_grid::render::GridPoint;

fn cfg(rows: u32, cols: u32) -> Config {
    Config {
        rows,
        cols,
        cell_size: 10,
        weight_num: 1,
        weight_den: 20,
        flip_num: 1,
        flip_den: 20000,
        background: Color { red: 10, green: 20, blue: 30 },
        foreground: Color { red: 200, green: 210, blue: 220 },
    }
}

#[test]
fn forward_segment_endpoints() {
    let cell = Cell { col: 3, row: 7, orientation: Orientation::Forward, flipped_this_tick: false };
    let s = cell_segment(&cell);
    assert_eq!((s.from.x, s.from.y), (3, 8));
    assert_eq!((s.to.x, s.to.y), (4, 7));
}

#[test]
fn backward_segment_endpoints() {
    let cell = Cell { col: 3, row: 7, orientation: Orientation::Backward, flipped_this_tick: true };
    let s = cell_segment(&cell);
    assert_eq!((s.from.x, s.from.y), (3, 7));
    assert_eq!((s.to.x, s.to.y), (4, 8));
}

#[test]
fn segment_ignores_flip_flag_and_neighbors() {
    let quiet = Cell { col: 1, row: 2, orientation: Orientation::Forward, flipped_this_tick: false };
    let hit = Cell { col: 1, row: 2, orientation: Orientation::Forward, flipped_this_tick: true };
    assert_eq!(cell_segment(&quiet), cell_segment(&hit));
}

#[test]
fn two_by_two_forward_frame() {
    let config = cfg(2, 2);
    let g = Grid::with_orientation(config, Orientation::Forward);
    let cmds = render(&g);
    assert_eq!(cmds.len(), 5);
    assert_eq!(cmds[0], DrawCmd::Fill { color: config.background });
    // Exactly one fill, and it comes before any stroke.
    let fills = cmds
        .iter()
        .filter(|c| matches!(c, DrawCmd::Fill { .. }))
        .count();
    assert_eq!(fills, 1);
    // One stroke per cell, each matching the Forward mapping for its (c, r).
    for (i, cmd) in cmds.iter().skip(1).enumerate() {
        let (c, r) = ((i % 2) as u32, (i / 2) as u32);
        match cmd {
            DrawCmd::Stroke { segment, color } => {
                assert_eq!(*color, config.foreground);
                assert_eq!((segment.from.x, segment.from.y), (c, r + 1));
                assert_eq!((segment.to.x, segment.to.y), (c + 1, r));
            }
            DrawCmd::Fill { .. } => panic!("fill after the first command"),
        }
    }
}

#[test]
fn render_twice_identical() {
    let g = Grid::new(cfg(5, 7));
    let first = render(&g);
    let second = render(&g);
    assert_eq!(first, second);
}

#[test]
fn update_then_render_keeps_segment_count() {
    let mut g = Grid::new(cfg(3, 3));
    g.update();
    let cmds = render(&g);
    assert_eq!(cmds.len(), 10);
}

#[test]
fn surface_transform_centers_grid() {
    let c = Config::standard();
    // With 30 columns of 30-unit cells, the transform is x -> 30 * x - 450
    // (doubled: 60 * x - 900), and y -> 450 - 30 * y (doubled: 900 - 60 * y).
    let origin = to_surface(&c, GridPoint { x: 0, y: 0 });
    assert_eq!((origin.x2, origin.y2), (-900, 900));
    let far = to_surface(&c, GridPoint { x: 30, y: 30 });
    assert_eq!((far.x2, far.y2), (900, -900));
    let center = to_surface(&c, GridPoint { x: 15, y: 15 });
    assert_eq!((center.x2, center.y2), (0, 0));
}
