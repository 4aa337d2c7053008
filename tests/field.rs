use cellfield::grid::{
    cell_at, draw_samples, seed_cells, select_cells, should_spawn, Cell, GRID_SIZE, HEIGHT,
    SPAWN_CHANCE, WIDTH,
};
use cellfield::render::{cell_frame, clear_cell, draw_cell, init_sequence, Glyph, Screen};

fn scan_order() -> Vec<Cell> {
    let mut all = Vec::new();
    for x in 0..WIDTH {
        for y in 0..HEIGHT {
            all.push(Cell(x, y));
        }
    }
    all
}

#[test]
fn grid_constants() {
    assert_eq!(WIDTH, 200);
    assert_eq!(HEIGHT, 100);
    assert_eq!(GRID_SIZE, 20000);
    assert_eq!(SPAWN_CHANCE, 1);
}

#[test]
fn scan_positions_map_to_coordinates() {
    assert_eq!(cell_at(0), Cell(0, 0));
    assert_eq!(cell_at(1), Cell(0, 1));
    assert_eq!(cell_at(99), Cell(0, 99));
    assert_eq!(cell_at(100), Cell(1, 0));
    assert_eq!(cell_at(12345), Cell(123, 45));
    assert_eq!(cell_at(19999), Cell(199, 99));
}

#[test]
fn scan_visits_each_coordinate_once_in_order() {
    let visited: Vec<Cell> = (0..GRID_SIZE).map(cell_at).collect();
    assert_eq!(visited, scan_order());
    let mut seen = vec![false; GRID_SIZE];
    for c in &visited {
        let i = c.0 as usize * 100 + c.1 as usize;
        assert!(!seen[i]);
        seen[i] = true;
    }
    assert!(seen.iter().all(|s| *s));
}

#[test]
fn spawn_decision_is_a_strict_threshold() {
    assert!(should_spawn(0, 1));
    assert!(!should_spawn(50, 1));
    assert!(!should_spawn(1, 1));
    assert!(!should_spawn(0, 0));
    assert!(should_spawn(99, 100));
}

#[test]
fn stub_samples_decide_exactly() {
    let mut samples = vec![50u32; GRID_SIZE];
    samples[0] = 0;
    samples[101] = 0;
    samples[19999] = 0;
    samples[5] = 1;
    let cells = select_cells(&samples, 1);
    assert_eq!(cells, vec![Cell(0, 0), Cell(1, 1), Cell(199, 99)]);
    let cells = select_cells(&samples, 2);
    assert_eq!(cells, vec![Cell(0, 0), Cell(0, 5), Cell(1, 1), Cell(199, 99)]);
}

#[test]
fn full_chance_spawns_every_coordinate_in_scan_order() {
    let samples: Vec<u32> = (0..GRID_SIZE).map(|i| (i % 100) as u32).collect();
    let cells = select_cells(&samples, 100);
    assert_eq!(cells.len(), 20000);
    assert_eq!(cells, scan_order());
}

#[test]
fn zero_chance_spawns_nothing() {
    let samples = vec![0u32; GRID_SIZE];
    assert!(select_cells(&samples, 0).is_empty());
}

#[test]
fn seeding_with_full_chance_covers_the_grid() {
    assert_eq!(seed_cells(100), scan_order());
}

#[test]
fn seeding_with_zero_chance_is_empty() {
    assert!(seed_cells(0).is_empty());
}

#[test]
fn seeding_keeps_cells_in_grid_and_in_scan_order() {
    let cells = seed_cells(SPAWN_CHANCE);
    assert!(cells.len() < GRID_SIZE);
    for c in &cells {
        assert!(c.0 < WIDTH && c.1 < HEIGHT);
    }
    for w in cells.windows(2) {
        assert!((w[0].0, w[0].1) < (w[1].0, w[1].1));
    }
}

#[test]
fn samples_are_percentages() {
    let samples = draw_samples();
    assert_eq!(samples.len(), GRID_SIZE);
    assert!(samples.iter().all(|s| *s < 100));
    assert!(samples.iter().any(|s| *s != samples[0]));
}

#[test]
fn init_sequence_bytes() {
    let expected: &[u8] = b"\x1b[8;100;200t\x1b[2J\x1b[38;5;10m\x1b[25m\x1b[?25l\x1b[?7l";
    assert_eq!(init_sequence(), expected.to_vec());
}

#[test]
fn init_sequence_twice_is_the_same() {
    let first = init_sequence();
    let second = init_sequence();
    assert_eq!(first, second);
}

#[test]
fn draw_cell_moves_then_writes_square() {
    let expected: &[u8] = b"\x1b[1;1H\xe2\x96\xa0";
    assert_eq!(draw_cell(&Cell(0, 0)), expected.to_vec());
    let expected: &[u8] = b"\x1b[46;124H\xe2\x96\xa0";
    assert_eq!(draw_cell(&Cell(123, 45)), expected.to_vec());
}

#[test]
fn clear_cell_moves_then_writes_space() {
    let expected: &[u8] = b"\x1b[100;200H ";
    assert_eq!(clear_cell(&Cell(199, 99)), expected.to_vec());
    let expected: &[u8] = b"\x1b[10;9H ";
    assert_eq!(clear_cell(&Cell(8, 9)), expected.to_vec());
}

#[test]
fn cell_frame_matches_draw_and_clear() {
    let c = Cell(7, 3);
    assert_eq!(cell_frame(&c, Glyph::Square), draw_cell(&c));
    assert_eq!(cell_frame(&c, Glyph::Blank), clear_cell(&c));
}

#[test]
fn glyph_bytes() {
    assert_eq!(Glyph::Square.to_bytes(), vec![0xe2, 0x96, 0xa0]);
    assert_eq!(Glyph::Blank.to_bytes(), vec![b' ']);
    assert_eq!(String::from_utf8(Glyph::Square.to_bytes()).unwrap(), "\u{25a0}");
}

#[test]
fn screen_starts_blank() {
    let s = Screen::new();
    assert_eq!(s.glyph_at(&Cell(0, 0)), Glyph::Blank);
    assert_eq!(s.bytes_at(&Cell(199, 99)), vec![b' ']);
}

#[test]
fn screen_reads_back_draw_and_clear() {
    let mut s = Screen::new();
    let c = Cell(42, 17);
    s.draw(&c);
    assert_eq!(s.bytes_at(&c), vec![0xe2, 0x96, 0xa0]);
    assert!(draw_cell(&c).ends_with(&s.bytes_at(&c)));
    assert_eq!(s.glyph_at(&Cell(42, 18)), Glyph::Blank);
    s.clear(&c);
    assert_eq!(s.bytes_at(&c), vec![b' ']);
    assert!(clear_cell(&c).ends_with(&s.bytes_at(&c)));
}

#[test]
fn screen_show_touches_one_coordinate() {
    let mut s = Screen::new();
    s.show(&Cell(0, 99), Glyph::Square);
    assert_eq!(s.glyph_at(&Cell(0, 99)), Glyph::Square);
    assert_eq!(s.glyph_at(&Cell(1, 0)), Glyph::Blank);
    assert_eq!(s.glyph_at(&Cell(0, 98)), Glyph::Blank);
}
