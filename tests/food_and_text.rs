use snake::food::spawn_food;
use snake::game::Game;
use snake::grid::{Arena, Coords, Direction};
use snake::render::{end_screen_origin, scene_sprites, Glyph, Sprite};
use snake::snake::generate_debug_snake;
use snake::text::{end_screen_text, print_debug_info, push_decimal, status_line};

#[test]
fn food_lands_on_playing_rows() {
    let a = Arena { width: 7, height: 5 };
    let mut seen = std::collections::HashSet::new();
    for _ in 0..500 {
        let f = spawn_food(&a);
        assert!(f.x < 7);
        assert!(f.y >= 1 && f.y < 5);
        seen.insert((f.x, f.y));
    }
    assert!(seen.len() > 1);
}

#[test]
fn decimal_rendering() {
    let mut s = String::new();
    push_decimal(&mut s, 0);
    assert_eq!(s, "0");
    let mut s = String::from("n=");
    push_decimal(&mut s, 1234567890);
    assert_eq!(s, "n=1234567890");
    let mut s = String::new();
    push_decimal(&mut s, u64::MAX);
    assert_eq!(s, u64::MAX.to_string());
}

#[test]
fn status_and_end_lines() {
    assert_eq!(status_line(42), "Score: 42 | Press 'q' to exit | 'wasd' to move");
    assert_eq!(
        end_screen_text(0),
        "Game Over | Final Score: 0 | 'n' to start a new game | 'q' to quit"
    );
}

#[test]
fn debug_line() {
    assert_eq!(
        print_debug_info(3, 4, 80, 24, &Direction::Left),
        "| Debug Info: | Width: 3 | Heigth: 4 | Scene: 80, 24, | Direction: Left"
    );
}

#[test]
fn debug_snake_is_straight() {
    let s = generate_debug_snake();
    assert_eq!(s.len(), 34);
    assert_eq!(s[0], Coords { x: 1, y: 5 });
    assert_eq!(s[33], Coords { x: 34, y: 5 });
}

#[test]
fn scene_lists_snake_then_food() {
    let g = Game {
        arena: Arena { width: 10, height: 10 },
        snake: vec![Coords { x: 2, y: 2 }, Coords { x: 3, y: 2 }],
        food: Coords { x: 7, y: 7 },
        score: 1,
        direction: Direction::Left,
        game_over: false,
    };
    assert_eq!(
        scene_sprites(&g),
        vec![
            Sprite { at: Coords { x: 2, y: 2 }, glyph: Glyph::Snake },
            Sprite { at: Coords { x: 3, y: 2 }, glyph: Glyph::Snake },
            Sprite { at: Coords { x: 7, y: 7 }, glyph: Glyph::Food },
        ]
    );
}

#[test]
fn end_line_is_centred() {
    let a = Arena { width: 80, height: 24 };
    assert_eq!(end_screen_origin(&a, 20), Coords { x: 30, y: 12 });
    assert_eq!(end_screen_origin(&a, 200), Coords { x: 0, y: 12 });
}
