use snake::food::Food;
use snake::game::{GameSession, TickOutcome, POLLS_PER_MOVE, START_INTERVAL_US};
use snake::grid::{Board, Coords, Tile, BOARD_HEIGHT, BOARD_WIDTH};
use snake::snake::{Direction, Player};

fn player_at(x: usize, y: usize, direction: Direction, segments: Vec<Coords>, score: usize) -> Player {
    Player { x, y, direction, segments, score, width: BOARD_WIDTH, height: BOARD_HEIGHT }
}

fn c(x: usize, y: usize) -> Coords {
    Coords { x, y }
}

#[test]
fn left_at_zero_wraps_to_last_column() {
    let mut p = player_at(0, 5, Direction::Left, vec![c(1, 5)], 0);
    p.update_pos();
    assert_eq!((p.x, p.y), (BOARD_WIDTH - 1, 5));
}

#[test]
fn right_at_last_column_wraps_to_zero() {
    let mut p = player_at(BOARD_WIDTH - 1, 5, Direction::Right, vec![c(BOARD_WIDTH - 2, 5)], 0);
    p.update_pos();
    assert_eq!((p.x, p.y), (0, 5));
}

#[test]
fn up_at_top_wraps_to_bottom_and_down_wraps_back() {
    let mut p = player_at(4, 0, Direction::Up, vec![c(4, 1)], 0);
    p.update_pos();
    assert_eq!((p.x, p.y), (4, BOARD_HEIGHT - 1));
    p.direction = Direction::Down;
    p.update_pos();
    assert_eq!((p.x, p.y), (4, 0));
}

#[test]
fn each_heading_changes_one_coordinate_by_one() {
    let cases = [
        (Direction::Left, (6, 7)),
        (Direction::Right, (8, 7)),
        (Direction::Up, (7, 6)),
        (Direction::Down, (7, 8)),
    ];
    for (d, expected) in cases {
        let mut p = player_at(7, 7, d, vec![c(0, 0)], 0);
        p.update_pos();
        assert_eq!((p.x, p.y), expected);
    }
}

#[test]
fn segment_count_settles_at_two_plus_meals() {
    let mut p = Player::new();
    assert_eq!(p.segments.len(), 2);
    for meals in 1..=4usize {
        p.score += 1;
        for _ in 0..10 {
            p.update_pos();
        }
        assert_eq!(p.segments.len(), 2 + meals);
    }
}

#[test]
fn growth_shows_one_move_after_the_meal() {
    let mut p = Player::new();
    p.update_pos();
    assert_eq!(p.segments.len(), 2);
    p.score = 1;
    p.update_pos();
    assert_eq!(p.segments.len(), 3);
    p.update_pos();
    assert_eq!(p.segments.len(), 3);
}

#[test]
fn head_on_a_segment_collides() {
    let p = player_at(5, 5, Direction::Right, vec![c(4, 5), c(5, 5), c(6, 5)], 1);
    assert!(p.detect_collision());
}

#[test]
fn separate_head_does_not_collide() {
    let p = player_at(5, 5, Direction::Right, vec![c(4, 5), c(5, 4), c(6, 6)], 1);
    assert!(!p.detect_collision());
    let bare = player_at(5, 5, Direction::Right, vec![], 0);
    assert!(!bare.detect_collision());
}

#[test]
fn reversal_is_refused_and_turns_are_taken() {
    let all = [Direction::Left, Direction::Right, Direction::Up, Direction::Down];
    for current in all {
        for requested in all {
            let mut p = player_at(3, 3, current, vec![c(2, 3)], 0);
            p.set_direction(requested);
            if requested == current.opposite() {
                assert_eq!(p.direction, current);
            } else {
                assert_eq!(p.direction, requested);
            }
            assert_eq!((p.x, p.y, p.segments.len()), (3, 3, 1));
        }
    }
}

#[test]
fn food_stays_on_the_field_and_reaches_every_cell() {
    let mut f = Food::with_size(3, 3);
    let mut seen = [[false; 3]; 3];
    for _ in 0..3000 {
        f.rand();
        assert!(f.x < 3 && f.y < 3);
        seen[f.x][f.y] = true;
    }
    assert!(seen.iter().all(|col| col.iter().all(|&s| s)));
}

#[test]
fn standard_food_is_on_the_standard_field() {
    for _ in 0..500 {
        let f = Food::new();
        assert!(f.x < BOARD_WIDTH && f.y < BOARD_HEIGHT);
        assert_eq!((f.width, f.height), (BOARD_WIDTH, BOARD_HEIGHT));
    }
}

#[test]
fn first_move_of_the_standard_snake() {
    let mut p = Player::new();
    assert_eq!((p.x, p.y, p.direction, p.score), (15, 10, Direction::Right, 0));
    assert_eq!(p.segments, vec![c(14, 10), c(13, 10)]);
    p.update_pos();
    assert_eq!((p.x, p.y), (16, 10));
    assert_eq!(p.segments, vec![c(15, 10), c(14, 10)]);
    assert!(!p.detect_collision());
}

#[test]
fn first_step_onto_food_scores_and_moves_it() {
    let mut g = GameSession::new();
    g.food.x = 16;
    g.food.y = 10;
    let r = g.step_with_food(c(3, 4));
    assert_eq!(r, TickOutcome::Continue);
    assert_eq!((g.player.x, g.player.y), (16, 10));
    assert_eq!(g.player.segments, vec![c(15, 10), c(14, 10)]);
    assert_eq!(g.player.score, 1);
    assert_eq!((g.food.x, g.food.y), (3, 4));
    assert_eq!(g.interval_us, 14550);
    assert_eq!(g.board.tile_at(16, 10), Tile::SnakeHead);
    assert_eq!(g.board.tile_at(15, 10), Tile::SnakeBody);
    assert_eq!(g.board.tile_at(14, 10), Tile::SnakeBody);
    assert_eq!(g.board.tile_at(3, 4), Tile::Food);
    assert_eq!(g.board.tile_at(13, 10), Tile::Floor);
}

#[test]
fn random_step_onto_food_draws_food_on_the_field() {
    let mut g = GameSession::new();
    g.food.x = 16;
    g.food.y = 10;
    assert_eq!(g.step(), TickOutcome::Continue);
    assert_eq!(g.player.score, 1);
    assert!(g.food.x < BOARD_WIDTH && g.food.y < BOARD_HEIGHT);
}

#[test]
fn step_without_food_keeps_score_and_interval() {
    let mut g = GameSession::new();
    g.food.x = 0;
    g.food.y = 0;
    assert_eq!(g.step_with_food(c(1, 1)), TickOutcome::Continue);
    assert_eq!(g.player.score, 0);
    assert_eq!((g.food.x, g.food.y), (0, 0));
    assert_eq!(g.interval_us, START_INTERVAL_US);
}

#[test]
fn running_into_the_body_ends_the_game() {
    let mut g = GameSession::new();
    g.food.x = 0;
    g.food.y = 0;
    g.player.segments = vec![c(15, 10), c(16, 11), c(16, 10), c(16, 9)];
    g.player.x = 15;
    g.player.y = 10;
    g.player.score = 3;
    assert_eq!(g.step_with_food(c(1, 1)), TickOutcome::GameOver);
    assert_eq!(g.player.score, 3);
}

#[test]
fn head_is_drawn_over_food() {
    let mut g = GameSession::new();
    g.food.x = 16;
    g.food.y = 10;
    assert_eq!(g.step_with_food(c(16, 10)), TickOutcome::Continue);
    assert_eq!((g.food.x, g.food.y), (16, 10));
    assert_eq!(g.board.tile_at(16, 10), Tile::SnakeHead);
}

#[test]
fn rebuilt_grid_shows_only_body_and_head() {
    let mut b = Board::with_size(4, 3);
    for x in 0..4 {
        for y in 0..3 {
            b.place_food(x, y);
        }
    }
    b.clear();
    b.place_segments(&vec![c(1, 2)]);
    b.place_head(3, 0);
    for x in 0..4 {
        for y in 0..3 {
            let expected = if (x, y) == (1, 2) {
                Tile::SnakeBody
            } else if (x, y) == (3, 0) {
                Tile::SnakeHead
            } else {
                Tile::Floor
            };
            assert_eq!(b.tile_at(x, y), expected);
        }
    }
}

#[test]
fn new_board_is_floor() {
    let b = Board::new();
    assert_eq!((b.width, b.height), (BOARD_WIDTH, BOARD_HEIGHT));
    assert!(b.cells.iter().all(|t| *t == Tile::Floor));
}

#[test]
fn render_draws_box_tiles_and_score() {
    let mut b = Board::with_size(2, 2);
    b.place_head(0, 0);
    b.place_food(1, 0);
    b.place_segments(&vec![c(0, 1)]);
    let out = String::from_utf8(b.render(120)).unwrap();
    let expected = "------\n\r|S * |\n\r|s   |\n\r------\n\rScore: 120\n\r";
    assert_eq!(out, expected);
}

#[test]
fn render_border_width_on_standard_board() {
    let b = Board::new();
    let out = String::from_utf8(b.render(0)).unwrap();
    let lines: Vec<&str> = out.split("\n\r").collect();
    assert_eq!(lines[0], "-".repeat(2 * (BOARD_WIDTH + 1)));
    assert_eq!(lines.len(), BOARD_HEIGHT + 4);
    assert_eq!(lines[BOARD_HEIGHT + 1], lines[0]);
    assert_eq!(lines[BOARD_HEIGHT + 2], "Score: 0");
}

#[test]
fn snake_moves_on_every_tenth_poll() {
    let mut g = GameSession::new();
    let mut due = Vec::new();
    for _ in 0..21 {
        due.push(g.begin_cycle());
    }
    let expected: Vec<bool> = (0..21u64).map(|i| i % POLLS_PER_MOVE == 0).collect();
    assert_eq!(due, expected);
    assert_eq!(g.tick_counter, 21);
}

#[test]
fn counter_wraps_at_its_limit() {
    let mut g = GameSession::new();
    g.tick_counter = u64::MAX;
    assert!(!g.begin_cycle());
    assert_eq!(g.tick_counter, 0);
    assert!(g.begin_cycle());
}

#[test]
fn interval_shrinks_with_each_meal() {
    let mut g = GameSession::with_size(5, 1);
    assert_eq!(g.poll_interval_ms(), 15);
    let mut expected = START_INTERVAL_US;
    for _ in 0..3 {
        let (hx, _) = ((g.player.x + 1) % 5, 0);
        g.food.x = hx;
        g.food.y = 0;
        g.player.segments.clear();
        assert_eq!(g.step_with_food(c(0, 0)), TickOutcome::Continue);
        expected = expected * 97 / 100;
        assert_eq!(g.interval_us, expected);
    }
    assert_eq!(g.interval_us, 13689);
    assert_eq!(g.poll_interval_ms(), 13);
}

#[test]
fn small_field_start_wraps_segments() {
    let p = Player::with_size(3, 3);
    assert_eq!((p.x, p.y), (1, 1));
    assert_eq!(p.segments, vec![c(0, 1), c(2, 1)]);
    let g = GameSession::with_size(3, 3);
    assert!(g.food.x < 3 && g.food.y < 3);
}
