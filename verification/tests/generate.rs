use minesweeper_lib::generate::cell_count;
use minesweeper_lib::placement::DRAW_LIMIT;
use minesweeper_lib::{Board, FieldError, Minesweeper, Tile};
use rand::Rng;
use rand_pcg::Pcg64;
use rand_seeder::Seeder;

fn tiles_of(board: &Board) -> Vec<Vec<Tile>> {
    board.get_rows().iter().map(|row| row.get_tiles().to_vec()).collect()
}

fn clamp(requested: usize, width: usize, height: usize) -> usize {
    requested.min(width * height - 1).max(1)
}

fn assert_valid(field: &Minesweeper, width: usize, height: usize, requested: usize) {
    let mines = field.mines();
    assert_eq!(field.width(), width);
    assert_eq!(field.height(), height);
    assert_eq!(mines.len(), clamp(requested, width, height));
    for (at, index) in mines.iter().enumerate() {
        assert!(*index < width * height);
        assert!(!mines[..at].contains(index));
    }
}

fn recount(field: &Minesweeper, x: usize, y: usize) -> usize {
    let mut count = 0;
    for dy in -1i64..=1 {
        for dx in -1i64..=1 {
            let nx = x as i64 + dx;
            let ny = y as i64 + dy;
            let inside =
                nx >= 0 && ny >= 0 && nx < field.width() as i64 && ny < field.height() as i64;
            if (dx, dy) != (0, 0) && inside {
                let index = ny as usize * field.width() + nx as usize;
                if field.mines().contains(&index) {
                    count += 1;
                }
            }
        }
    }
    count
}

fn assert_board_matches(field: &Minesweeper) {
    let board = tiles_of(&field.get_board());
    assert_eq!(board.len(), field.height());
    for y in 0..field.height() {
        assert_eq!(board[y].len(), field.width());
        for x in 0..field.width() {
            if field.mines().contains(&(y * field.width() + x)) {
                assert_eq!(board[y][x], Tile::Mine);
                assert_eq!(board[y][x].neighbor_count(), None);
            } else {
                assert_eq!(board[y][x], Tile::from(recount(field, x, y)));
                assert_eq!(board[y][x].neighbor_count(), Some(recount(field, x, y) as u8));
            }
        }
    }
}

fn drawn_by_hand(width: usize, height: usize, requested: usize, seed: &str) -> Vec<usize> {
    let total = width * height;
    let target = clamp(requested, width, height);
    let mut rng: Pcg64 = Seeder::from(seed).make_rng();
    let mut mines = vec![];
    while mines.len() < target {
        let index = rng.gen_range(0..total);
        if !mines.contains(&index) {
            mines.push(index);
        }
    }
    mines
}

#[test]
fn effective_mines_clamps_the_request() {
    assert_eq!(Minesweeper::effective_mines(11, 9, 10), Ok(10));
    assert_eq!(Minesweeper::effective_mines(11, 9, 0), Ok(1));
    assert_eq!(Minesweeper::effective_mines(11, 9, 98), Ok(98));
    assert_eq!(Minesweeper::effective_mines(11, 9, 99), Ok(98));
    assert_eq!(Minesweeper::effective_mines(11, 9, usize::MAX), Ok(98));
    assert_eq!(Minesweeper::effective_mines(3, 3, 8), Ok(8));
    assert_eq!(Minesweeper::effective_mines(2, 1, 5), Ok(1));
}

#[test]
fn effective_mines_rejects_grids_without_two_cells() {
    assert_eq!(Minesweeper::effective_mines(1, 1, 5), Err(FieldError::InvalidDimensions));
    assert_eq!(Minesweeper::effective_mines(0, 9, 5), Err(FieldError::InvalidDimensions));
    assert_eq!(Minesweeper::effective_mines(9, 0, 5), Err(FieldError::InvalidDimensions));
}

#[test]
fn cell_count_is_the_product_of_valid_dimensions() {
    assert_eq!(cell_count(11, 9), Some(99));
    assert_eq!(cell_count(2, 1), Some(2));
    assert_eq!(cell_count(1, 2), Some(2));
    assert_eq!(cell_count(usize::MAX, 1), Some(usize::MAX));
    assert_eq!(cell_count(1, 1), None);
    assert_eq!(cell_count(0, 0), None);
    assert_eq!(cell_count(0, 5), None);
    assert_eq!(cell_count(usize::MAX, 2), None);
    assert_eq!(cell_count(usize::MAX, usize::MAX), None);
}

#[test]
fn draw_limit_is_the_largest_count() {
    assert_eq!(DRAW_LIMIT, u64::MAX);
}

#[test]
fn random_places_the_clamped_number_of_distinct_mines() {
    for (width, height) in [(2, 1), (1, 2), (3, 3), (11, 9), (5, 7), (1, 9)] {
        for requested in [0, 1, 2, 5, 8, 10, 98, 99, 1000, usize::MAX] {
            let field = Minesweeper::random(width, height, requested).unwrap();
            assert_valid(&field, width, height, requested);
        }
    }
}

#[test]
fn random_seed_places_the_clamped_number_of_distinct_mines() {
    for (width, height) in [(2, 1), (1, 2), (3, 3), (11, 9), (5, 7), (1, 9)] {
        for requested in [0, 1, 2, 5, 8, 10, 98, 99, 1000, usize::MAX] {
            let field = Minesweeper::random_seed(width, height, requested, "seed").unwrap();
            assert_valid(&field, width, height, requested);
        }
    }
}

#[test]
fn random_rejects_a_single_cell() {
    assert_eq!(Minesweeper::random(1, 1, 1).err(), Some(FieldError::InvalidDimensions));
    assert_eq!(Minesweeper::random(1, 1, 0).err(), Some(FieldError::InvalidDimensions));
}

#[test]
fn random_rejects_a_grid_without_cells() {
    assert_eq!(Minesweeper::random(0, 5, 1).err(), Some(FieldError::InvalidDimensions));
    assert_eq!(Minesweeper::random(5, 0, 1).err(), Some(FieldError::InvalidDimensions));
    assert_eq!(Minesweeper::random(0, 0, 1).err(), Some(FieldError::InvalidDimensions));
}

#[test]
fn random_rejects_a_grid_with_too_many_cells() {
    assert_eq!(Minesweeper::random(usize::MAX, 2, 1).err(), Some(FieldError::InvalidDimensions));
}

#[test]
fn random_seed_rejects_a_single_cell() {
    assert_eq!(
        Minesweeper::random_seed(1, 1, 1, "abc").err(),
        Some(FieldError::InvalidDimensions)
    );
}

#[test]
fn random_seed_rejects_a_grid_without_cells() {
    assert_eq!(
        Minesweeper::random_seed(0, 5, 1, "abc").err(),
        Some(FieldError::InvalidDimensions)
    );
    assert_eq!(
        Minesweeper::random_seed(5, 0, 1, "abc").err(),
        Some(FieldError::InvalidDimensions)
    );
}

#[test]
fn random_seed_rejects_a_grid_with_too_many_cells() {
    assert_eq!(
        Minesweeper::random_seed(2, usize::MAX, 1, "abc").err(),
        Some(FieldError::InvalidDimensions)
    );
}

#[test]
fn same_seed_gives_the_same_field_and_board() {
    for seed in ["", "abc", "Good luck!", "a longer seed, with spaces and signs: äöü"] {
        let first = Minesweeper::random_seed(11, 9, 10, seed).unwrap();
        let second = Minesweeper::random_seed(11, 9, 10, seed).unwrap();
        assert_eq!(first.mines(), second.mines());
        assert_eq!(first.get_board(), second.get_board());
    }
}

#[test]
fn other_seeds_give_other_fields() {
    let first = Minesweeper::random_seed(11, 9, 10, "abc").unwrap();
    let second = Minesweeper::random_seed(11, 9, 10, "abd").unwrap();
    let third = Minesweeper::random_seed(11, 9, 10, "").unwrap();
    assert_ne!(first.mines(), second.mines());
    assert_ne!(first.mines(), third.mines());
    assert_ne!(second.mines(), third.mines());
}

#[test]
fn seed_abc_gives_the_known_field() {
    let field = Minesweeper::random_seed(11, 9, 10, "abc").unwrap();
    assert_eq!(field.mines().to_vec(), vec![83, 98, 80, 76, 14, 32, 85, 96, 57, 34]);
}

#[test]
fn seed_abd_gives_the_known_field() {
    let field = Minesweeper::random_seed(11, 9, 10, "abd").unwrap();
    assert_eq!(field.mines().to_vec(), vec![32, 55, 30, 38, 46, 76, 70, 3, 93, 26]);
}

#[test]
fn seed_abc_gives_the_known_dense_field() {
    let field = Minesweeper::random_seed(3, 3, 8, "abc").unwrap();
    assert_eq!(field.mines().to_vec(), vec![8, 7, 1, 2, 5, 0, 3, 4]);
}

#[test]
fn seeded_field_follows_the_generator_draw_by_draw() {
    for seed in ["abc", "", "stripy zebra", "Good Luck!"] {
        for (width, height, requested) in [(11, 9, 10), (3, 3, 8), (2, 1, 1), (7, 5, 34)] {
            let field = Minesweeper::random_seed(width, height, requested, seed).unwrap();
            assert_eq!(field.mines().to_vec(), drawn_by_hand(width, height, requested, seed));
        }
    }
}

#[test]
fn seeded_field_does_not_depend_on_how_the_seed_is_held() {
    let owned = String::from("abc");
    let first = Minesweeper::random_seed(11, 9, 10, &owned).unwrap();
    let second = Minesweeper::random_seed(11, 9, 10, "abc").unwrap();
    assert_eq!(first.mines(), second.mines());
    let mut rng: Pcg64 = Seeder::from(owned).make_rng();
    let first_draw: usize = rng.gen_range(0..99);
    assert_eq!(first.mines()[0], first_draw);
}

#[test]
fn random_fields_vary() {
    let first = Minesweeper::random(11, 9, 10).unwrap();
    let mut varied = false;
    for _ in 0..50 {
        let next = Minesweeper::random(11, 9, 10).unwrap();
        if next.mines() != first.mines() {
            varied = true;
        }
    }
    assert!(varied);
}

#[test]
fn random_fields_are_not_the_lowest_cells() {
    let lowest: Vec<usize> = (0..10).collect();
    let mut drawn = false;
    for _ in 0..50 {
        let field = Minesweeper::random(11, 9, 10).unwrap();
        if field.mines().to_vec() != lowest {
            drawn = true;
        }
    }
    assert!(drawn);
}

#[test]
fn random_board_shows_the_recounted_neighbours() {
    for _ in 0..20 {
        let field = Minesweeper::random(11, 9, 30).unwrap();
        assert_board_matches(&field);
    }
}

#[test]
fn seeded_board_shows_the_recounted_neighbours() {
    for seed in ["abc", "abd", "", "dense"] {
        for (width, height, requested) in [(11, 9, 10), (3, 3, 8), (1, 6, 3), (6, 1, 3), (9, 9, 80)] {
            let field = Minesweeper::random_seed(width, height, requested, seed).unwrap();
            assert_board_matches(&field);
        }
    }
}

#[test]
fn dense_field_leaves_one_safe_cell_that_counts_its_neighbours() {
    for seed in ["abc", "abd", "one", "two", "three", "four", "five"] {
        let field = Minesweeper::random_seed(3, 3, 8, seed).unwrap();
        assert_eq!(field.mine_count(), 8);
        let safe = (0..9).find(|index| !field.mines().contains(index)).unwrap();
        let (x, y) = (safe % 3, safe / 3);
        let columns = if x == 1 { 3 } else { 2 };
        let rows = if y == 1 { 3 } else { 2 };
        let board = tiles_of(&field.get_board());
        assert_eq!(board[y][x], Tile::from(columns * rows - 1));
        for index in 0..9 {
            if index != safe {
                assert_eq!(board[index / 3][index % 3], Tile::Mine);
            }
        }
    }
}

#[test]
fn dense_random_field_leaves_one_safe_cell() {
    let field = Minesweeper::random(3, 3, 8).unwrap();
    assert_eq!(field.mine_count(), 8);
    assert_board_matches(&field);
    let board = tiles_of(&field.get_board());
    let safe = board.iter().flatten().filter(|tile| !tile.is_mine()).count();
    assert_eq!(safe, 1);
}

#[test]
fn known_seed_renders_the_known_board() {
    let field = Minesweeper::random_seed(3, 3, 8, "abc").unwrap();
    assert_eq!(
        tiles_of(&field.get_board()),
        vec![
            vec![Tile::Mine, Tile::Mine, Tile::Mine],
            vec![Tile::Mine, Tile::Mine, Tile::Mine],
            vec![Tile::Three, Tile::Mine, Tile::Mine],
        ]
    );
}
