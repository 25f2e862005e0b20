use eelgame::direction::Direction;
use eelgame::food::FoodType;
use eelgame::game::Game;
use eelgame::palette::{Hue, Paint};

fn green() -> (Paint, Paint) {
    (Paint { hue: Hue::Green, faded: false }, Paint { hue: Hue::Green, faded: true })
}

fn game(
    width: u16,
    height: u16,
    body: &[(u16, u16)],
    dir: Direction,
    food: (u16, u16, FoodType),
    grow: usize,
) -> Game {
    Game::from_parts(width, height, body.to_vec(), dir, food, grow, green())
        .expect("the parts make a well-formed game")
}

fn cells(g: &Game) -> Vec<(u16, u16)> {
    g.eel().iter().copied().collect()
}

fn has_repeats(body: &[(u16, u16)]) -> bool {
    (0..body.len()).any(|i| (i + 1..body.len()).any(|j| body[i] == body[j]))
}

#[test]
fn eating_red_food_grows_by_one_and_spawns_food_elsewhere() {
    let mut rng = rand::thread_rng();
    let mut g = game(5, 5, &[(2, 2), (1, 2), (0, 2)], Direction::Right, (3, 2, FoodType::Red), 0);
    assert!(g.can_update());
    g.update(&mut rng);
    assert_eq!(cells(&g), vec![(3, 2), (2, 2), (1, 2), (0, 2)]);
    assert_eq!(g.grow(), 0);
    assert!(!g.over());
    let (fx, fy, _) = g.food();
    assert!(fx < 5 && fy < 5);
    assert!(!cells(&g).contains(&(fx, fy)));
}

#[test]
fn running_into_the_body_ends_the_game_and_keeps_the_body() {
    let mut rng = rand::thread_rng();
    let body = [(1, 1), (1, 0), (1, 2)];
    let mut g = game(3, 3, &body, Direction::Up, (0, 0, FoodType::Blue), 0);
    g.update(&mut rng);
    assert!(g.over());
    assert_eq!(cells(&g), body.to_vec());
    assert_eq!(g.food(), (0, 0, FoodType::Blue));
    assert_eq!(g.grow(), 0);
}

#[test]
fn a_finished_game_is_frozen() {
    let mut rng = rand::thread_rng();
    let body = [(1, 1), (1, 0), (1, 2)];
    let mut g = game(3, 3, &body, Direction::Up, (2, 2, FoodType::Orange), 3);
    g.update(&mut rng);
    assert!(g.over());
    for _ in 0..10 {
        assert!(g.try_update(&mut rng));
        assert!(g.over());
        assert_eq!(cells(&g), body.to_vec());
        assert_eq!(g.food(), (2, 2, FoodType::Orange));
        assert_eq!(g.grow(), 3);
        assert_eq!(g.dir(), Direction::Up);
    }
}

#[test]
fn a_plain_move_shifts_the_eel() {
    let mut rng = rand::thread_rng();
    let mut g = game(5, 5, &[(2, 2), (1, 2), (0, 2)], Direction::Down, (4, 4, FoodType::Red), 0);
    g.update(&mut rng);
    assert_eq!(cells(&g), vec![(2, 3), (2, 2), (1, 2)]);
    assert_eq!(g.food(), (4, 4, FoodType::Red));
    assert_eq!(g.grow(), 0);
    assert!(!g.over());
    assert_eq!(g.len(), 3);
}

#[test]
fn a_growth_debt_is_paid_one_cell_per_tick() {
    let mut rng = rand::thread_rng();
    let mut g = game(9, 9, &[(2, 2), (1, 2), (0, 2)], Direction::Right, (8, 8, FoodType::Red), 2);
    g.update(&mut rng);
    assert_eq!(cells(&g), vec![(3, 2), (2, 2), (1, 2), (0, 2)]);
    assert_eq!(g.grow(), 1);
    g.update(&mut rng);
    assert_eq!(cells(&g), vec![(4, 2), (3, 2), (2, 2), (1, 2), (0, 2)]);
    assert_eq!(g.grow(), 0);
    g.update(&mut rng);
    assert_eq!(cells(&g), vec![(5, 2), (4, 2), (3, 2), (2, 2), (1, 2)]);
    assert_eq!(g.grow(), 0);
}

fn grows_by_reward(kind: FoodType, reward: usize) {
    let mut rng = rand::thread_rng();
    let mut g = game(40, 40, &[(2, 2), (1, 2), (0, 2)], Direction::Right, (3, 2, kind), 0);
    assert_eq!(kind.length(), reward);
    g.update(&mut rng);
    assert_eq!(g.len(), 4);
    assert_eq!(g.grow(), reward - 1);
    assert_eq!(g.eel_gradient(), (kind.color(), green().1));
    let (fx, fy, _) = g.food();
    if fy == 2 && fx > 3 && fx <= 8 {
        g.change_dir(Direction::Down);
    }
    for tick in 1..reward {
        g.update(&mut rng);
        assert!(!g.over());
        assert_eq!(g.len(), 4 + tick);
        assert_eq!(g.grow(), reward - 1 - tick);
    }
    assert_eq!(g.len(), 3 + reward);
    assert_eq!(g.grow(), 0);
}

#[test]
fn red_food_grows_the_eel_by_one() {
    grows_by_reward(FoodType::Red, 1);
}

#[test]
fn blue_food_grows_the_eel_by_two() {
    grows_by_reward(FoodType::Blue, 2);
}

#[test]
fn yellow_food_grows_the_eel_by_three() {
    grows_by_reward(FoodType::Yellow, 3);
}

#[test]
fn purple_food_grows_the_eel_by_four() {
    grows_by_reward(FoodType::Purple, 4);
}

#[test]
fn orange_food_grows_the_eel_by_five() {
    grows_by_reward(FoodType::Orange, 5);
}

#[test]
fn eating_adds_to_a_debt_already_owed() {
    let mut rng = rand::thread_rng();
    let mut g =
        game(9, 9, &[(2, 2), (1, 2), (0, 2)], Direction::Right, (3, 2, FoodType::Purple), 2);
    g.update(&mut rng);
    assert_eq!(g.grow(), 5);
    assert_eq!(g.len(), 4);
}

#[test]
fn the_head_wraps_at_the_left_edge() {
    let mut rng = rand::thread_rng();
    let mut g = game(5, 4, &[(0, 1), (1, 1), (2, 1)], Direction::Left, (3, 3, FoodType::Red), 0);
    g.update(&mut rng);
    assert!(!g.over());
    assert_eq!(cells(&g), vec![(4, 1), (0, 1), (1, 1)]);
}

#[test]
fn the_head_wraps_at_the_right_edge() {
    let mut rng = rand::thread_rng();
    let mut g = game(5, 4, &[(4, 1), (3, 1), (2, 1)], Direction::Right, (3, 3, FoodType::Red), 0);
    g.update(&mut rng);
    assert!(!g.over());
    assert_eq!(cells(&g), vec![(0, 1), (4, 1), (3, 1)]);
}

#[test]
fn the_head_wraps_at_the_top_edge() {
    let mut rng = rand::thread_rng();
    let mut g = game(5, 4, &[(1, 0), (1, 1), (1, 2)], Direction::Up, (3, 3, FoodType::Red), 0);
    g.update(&mut rng);
    assert!(!g.over());
    assert_eq!(cells(&g), vec![(1, 3), (1, 0), (1, 1)]);
}

#[test]
fn the_head_wraps_at_the_bottom_edge() {
    let mut rng = rand::thread_rng();
    let mut g = game(5, 4, &[(1, 3), (1, 2), (1, 1)], Direction::Down, (3, 3, FoodType::Red), 0);
    g.update(&mut rng);
    assert!(!g.over());
    assert_eq!(cells(&g), vec![(1, 0), (1, 3), (1, 2)]);
}

#[test]
fn wrapping_onto_the_eel_is_a_collision() {
    let mut rng = rand::thread_rng();
    let body = [(0, 0), (1, 0), (2, 0)];
    let mut g = game(3, 3, &body, Direction::Left, (1, 1, FoodType::Red), 0);
    g.update(&mut rng);
    assert!(g.over());
    assert_eq!(cells(&g), body.to_vec());
}

#[test]
fn wrapping_on_the_largest_board() {
    let mut rng = rand::thread_rng();
    let mut g = game(
        65535,
        65535,
        &[(65534, 65534), (65533, 65534)],
        Direction::Right,
        (7, 7, FoodType::Red),
        0,
    );
    g.update(&mut rng);
    assert_eq!(cells(&g), vec![(0, 65534), (65534, 65534)]);
    g.change_dir(Direction::Down);
    g.update(&mut rng);
    assert_eq!(cells(&g), vec![(0, 0), (0, 65534)]);
    g.change_dir(Direction::Left);
    g.update(&mut rng);
    assert_eq!(cells(&g), vec![(65534, 0), (0, 0)]);
    g.change_dir(Direction::Up);
    g.update(&mut rng);
    assert_eq!(cells(&g), vec![(65534, 65534), (65534, 0)]);
}

#[test]
fn a_request_to_reverse_is_ignored() {
    for (dir, back) in [
        (Direction::Up, Direction::Down),
        (Direction::Down, Direction::Up),
        (Direction::Left, Direction::Right),
        (Direction::Right, Direction::Left),
    ] {
        let mut g = game(5, 5, &[(2, 2)], dir, (0, 0, FoodType::Red), 0);
        g.change_dir(back);
        assert_eq!(g.dir(), dir);
        assert!(dir.is_opposite(back));
    }
}

#[test]
fn any_other_request_is_adopted() {
    let all = [Direction::Up, Direction::Down, Direction::Left, Direction::Right];
    for dir in all {
        for wanted in all {
            let mut g = game(5, 5, &[(2, 2)], dir, (0, 0, FoodType::Red), 0);
            g.change_dir(wanted);
            if dir.is_opposite(wanted) {
                assert_eq!(g.dir(), dir);
            } else {
                assert_eq!(g.dir(), wanted);
            }
            assert_eq!(cells(&g), vec![(2, 2)]);
            assert_eq!(g.food(), (0, 0, FoodType::Red));
        }
    }
}

#[test]
fn is_opposite_holds_of_the_two_axes_only() {
    let all = [Direction::Up, Direction::Down, Direction::Left, Direction::Right];
    let mut pairs = 0;
    for a in all {
        for b in all {
            if a.is_opposite(b) {
                pairs += 1;
                assert!(b.is_opposite(a));
                assert_ne!(a, b);
            }
        }
    }
    assert_eq!(pairs, 4);
}

#[test]
fn a_turn_takes_effect_on_the_next_tick() {
    let mut rng = rand::thread_rng();
    let mut g = game(7, 7, &[(3, 3), (2, 3), (1, 3)], Direction::Right, (0, 0, FoodType::Red), 0);
    g.change_dir(Direction::Up);
    g.change_dir(Direction::Left);
    assert_eq!(g.dir(), Direction::Left);
    g.change_dir(Direction::Down);
    g.update(&mut rng);
    assert_eq!(cells(&g), vec![(3, 4), (3, 3), (2, 3)]);
}

#[test]
fn the_eel_never_overlaps_itself_nor_the_food() {
    let mut rng = rand::thread_rng();
    let turns = [Direction::Up, Direction::Left, Direction::Down, Direction::Right];
    for round in 0..20 {
        let mut g = Game::new_with_size(6, 6, &mut rng);
        assert!(!has_repeats(&cells(&g)));
        for tick in 0..400 {
            if tick % 3 == round % 3 {
                g.change_dir(turns[(tick / 3 + round) % 4]);
            }
            let was_over = g.over();
            let before = cells(&g);
            if !g.try_update(&mut rng) {
                assert_eq!(cells(&g), before);
                break;
            }
            let body = cells(&g);
            assert!(!has_repeats(&body));
            let (fx, fy, _) = g.food();
            assert!(fx < 6 && fy < 6);
            assert!(!body.contains(&(fx, fy)));
            assert!(body.iter().all(|&(x, y)| x < 6 && y < 6));
            if was_over {
                assert_eq!(body, before);
            }
        }
    }
}

#[test]
fn a_new_game_starts_at_the_centre() {
    let mut rng = rand::thread_rng();
    for _ in 0..50 {
        let g = Game::new_with_size(30, 20, &mut rng);
        assert_eq!(g.width(), 30);
        assert_eq!(g.height(), 20);
        assert!(!g.over());
        assert_eq!(g.grow(), 0);
        let expected = match g.dir() {
            Direction::Up => vec![(15, 10), (15, 11), (15, 12)],
            Direction::Down => vec![(15, 10), (15, 9), (15, 8)],
            Direction::Left => vec![(15, 10), (16, 10), (17, 10)],
            Direction::Right => vec![(15, 10), (14, 10), (13, 10)],
        };
        assert_eq!(cells(&g), expected);
        let (fx, fy, _) = g.food();
        assert!(fx < 30 && fy < 20);
        assert!(!expected.contains(&(fx, fy)));
        let (head, tail) = g.eel_gradient();
        assert!(!head.faded);
        assert!(tail.faded);
        assert_eq!(head.hue, tail.hue);
        assert!(matches!(
            head.hue,
            Hue::Green | Hue::Blue | Hue::Brown | Hue::DarkGreen | Hue::DarkBlue
        ));
    }
}

#[test]
fn new_is_new_with_size() {
    let mut rng = rand::thread_rng();
    let g = Game::new(&mut rng, 12, 10);
    assert_eq!((g.width(), g.height()), (12, 10));
    assert_eq!(cells(&g)[0], (6, 5));
    assert_eq!(g.len(), 3);
}

#[test]
fn a_new_eel_is_pressed_against_the_edge_of_a_small_board() {
    let mut rng = rand::thread_rng();
    for _ in 0..50 {
        let g = Game::new_with_size(3, 1, &mut rng);
        let expected = match g.dir() {
            Direction::Up | Direction::Down => vec![(1, 0), (1, 0), (1, 0)],
            Direction::Left => vec![(1, 0), (2, 0), (2, 0)],
            Direction::Right => vec![(1, 0), (0, 0), (0, 0)],
        };
        assert_eq!(cells(&g), expected);
        let (fx, fy, _) = g.food();
        assert!(fx < 3 && fy == 0);
        assert!(!expected.contains(&(fx, fy)));
    }
}

#[test]
fn fresh_eel_lies_against_the_heading() {
    let eel = Game::fresh_eel(10, 10, Direction::Up);
    assert_eq!(eel.iter().copied().collect::<Vec<_>>(), vec![(5, 5), (5, 6), (5, 7)]);
    let eel = Game::fresh_eel(10, 10, Direction::Right);
    assert_eq!(eel.iter().copied().collect::<Vec<_>>(), vec![(5, 5), (4, 5), (3, 5)]);
    let eel = Game::fresh_eel(4, 4, Direction::Left);
    assert_eq!(eel.iter().copied().collect::<Vec<_>>(), vec![(2, 2), (3, 2), (3, 2)]);
    let eel = Game::fresh_eel(65535, 65535, Direction::Down);
    assert_eq!(
        eel.iter().copied().collect::<Vec<_>>(),
        vec![(32767, 32767), (32767, 32766), (32767, 32765)]
    );
}

#[test]
fn from_parts_refuses_what_is_not_a_game() {
    let red = (0, 0, FoodType::Red);
    let body = vec![(2, 2), (1, 2)];
    let make = |w, h, body: Vec<(u16, u16)>, food| {
        Game::from_parts(w, h, body, Direction::Up, food, 0, green())
    };
    assert!(make(5, 5, body.clone(), red).is_some());
    assert!(make(0, 5, body.clone(), red).is_none());
    assert!(make(5, 0, body.clone(), red).is_none());
    assert!(make(5, 5, vec![], red).is_none());
    assert!(make(2, 5, body.clone(), red).is_none());
    assert!(make(5, 2, body.clone(), red).is_none());
    assert!(make(5, 5, body.clone(), (5, 0, FoodType::Red)).is_none());
    assert!(make(5, 5, body.clone(), (0, 5, FoodType::Red)).is_none());
    assert!(make(5, 5, body.clone(), (1, 2, FoodType::Red)).is_none());
    assert!(make(3, 3, vec![(2, 2), (2, 2)], red).is_some());
}

#[test]
fn from_parts_keeps_the_parts() {
    let g = Game::from_parts(
        8,
        6,
        vec![(7, 5), (6, 5)],
        Direction::Left,
        (0, 1, FoodType::Yellow),
        7,
        green(),
    )
    .unwrap();
    assert_eq!((g.width(), g.height()), (8, 6));
    assert_eq!(cells(&g), vec![(7, 5), (6, 5)]);
    assert_eq!(g.len(), 2);
    assert_eq!(g.dir(), Direction::Left);
    assert_eq!(g.food(), (0, 1, FoodType::Yellow));
    assert_eq!(g.grow(), 7);
    assert!(!g.over());
    assert_eq!(g.eel_gradient(), green());
}

#[test]
fn a_tick_that_would_fill_the_board_has_no_outcome() {
    let mut rng = rand::thread_rng();
    let body = [(0, 0), (0, 1), (1, 1)];
    let mut g = game(2, 2, &body, Direction::Right, (1, 0, FoodType::Red), 0);
    assert!(!g.can_update());
    assert!(!g.try_update(&mut rng));
    assert_eq!(cells(&g), body.to_vec());
    assert_eq!(g.food(), (1, 0, FoodType::Red));
    assert!(!g.over());
}

#[test]
fn a_tick_that_leaves_one_free_cell_puts_the_food_there() {
    let mut rng = rand::thread_rng();
    let mut g = game(2, 2, &[(0, 0), (0, 1)], Direction::Right, (1, 0, FoodType::Red), 0);
    assert!(g.can_update());
    assert!(g.try_update(&mut rng));
    assert_eq!(cells(&g), vec![(1, 0), (0, 0), (0, 1)]);
    let (fx, fy, _) = g.food();
    assert_eq!((fx, fy), (1, 1));
}

#[test]
fn a_debt_the_machine_cannot_hold_has_no_outcome() {
    let mut rng = rand::thread_rng();
    let body = [(2, 2), (1, 2)];
    let mut g = game(9, 9, &body, Direction::Right, (3, 2, FoodType::Orange), usize::MAX - 3);
    assert!(!g.can_update());
    assert!(!g.try_update(&mut rng));
    assert_eq!(g.grow(), usize::MAX - 3);
    let mut g = game(9, 9, &body, Direction::Right, (3, 2, FoodType::Orange), usize::MAX - 4);
    assert!(g.can_update());
    g.update(&mut rng);
    assert_eq!(g.grow(), usize::MAX);
    let mut g = game(9, 9, &body, Direction::Right, (3, 2, FoodType::Red), usize::MAX);
    assert!(g.try_update(&mut rng));
    assert_eq!(g.grow(), usize::MAX);
}

#[test]
fn the_head_takes_the_colour_of_the_food() {
    let mut rng = rand::thread_rng();
    let mut g =
        game(9, 9, &[(2, 2), (1, 2)], Direction::Right, (3, 2, FoodType::Purple), 0);
    g.update(&mut rng);
    let (head, tail) = g.eel_gradient();
    assert_eq!(head, Paint { hue: Hue::Purple, faded: false });
    assert_eq!(tail, green().1);
}
