use pong::{move_racket, Frame, Key, Point};

fn frame_with(key: Key, screen_height: u32, dt: u64) -> Frame {
    Frame {
        screen_width: 800_000,
        screen_height,
        dt,
        w: key == Key::W,
        s: key == Key::S,
        up: key == Key::Up,
        down: key == Key::Down,
    }
}

#[test]
fn key_state_is_read_per_key() {
    let frame = frame_with(Key::S, 600_000, 0);
    assert!(!frame.is_key_pressed(Key::W));
    assert!(frame.is_key_pressed(Key::S));
    assert!(!frame.is_key_pressed(Key::Up));
    assert!(!frame.is_key_pressed(Key::Down));
    let frame = frame_with(Key::Up, 600_000, 0);
    assert!(frame.is_key_pressed(Key::Up));
    assert!(!frame.is_key_pressed(Key::S));
    let frame = frame_with(Key::Down, 600_000, 0);
    assert!(frame.is_key_pressed(Key::Down));
    let frame = frame_with(Key::W, 600_000, 0);
    assert!(frame.is_key_pressed(Key::W));
}

#[test]
fn racket_moves_down_while_its_key_is_held() {
    let frame = frame_with(Key::Down, 600_000, 20_000);
    let mut pos = Point { x: 750_000, y: 300_000 };
    move_racket(&mut pos, Key::Down, 1, &frame);
    assert_eq!(pos, Point { x: 750_000, y: 310_000 });
}

#[test]
fn racket_rests_while_its_key_is_not_held() {
    let frame = frame_with(Key::S, 600_000, 20_000);
    let mut pos = Point { x: 50_000, y: 300_000 };
    move_racket(&mut pos, Key::W, -1, &frame);
    assert_eq!(pos, Point { x: 50_000, y: 300_000 });
    move_racket(&mut pos, Key::Up, -1, &frame);
    assert_eq!(pos, Point { x: 50_000, y: 300_000 });
}

#[test]
fn racket_stops_at_the_top_of_the_screen() {
    let frame = frame_with(Key::W, 600_000, 100_000);
    let mut pos = Point { x: 50_000, y: 60_000 };
    move_racket(&mut pos, Key::W, -1, &frame);
    assert_eq!(pos.y, 50_000);
}

#[test]
fn racket_stops_at_the_bottom_of_the_screen() {
    let frame = frame_with(Key::S, 600_000, 100_000);
    let mut pos = Point { x: 50_000, y: 540_000 };
    move_racket(&mut pos, Key::S, 1, &frame);
    assert_eq!(pos.y, 550_000);
}

#[test]
fn racket_off_screen_is_brought_back_without_any_key() {
    let frame = frame_with(Key::Up, 600_000, 100_000);
    let mut pos = Point { x: 50_000, y: -20_000 };
    move_racket(&mut pos, Key::W, -1, &frame);
    assert_eq!(pos.y, 50_000);
    let mut pos = Point { x: 50_000, y: 900_000 };
    move_racket(&mut pos, Key::S, 1, &frame);
    assert_eq!(pos.y, 550_000);
}

#[test]
fn racket_follows_a_resized_screen() {
    let mut pos = Point { x: 50_000, y: 550_000 };
    move_racket(&mut pos, Key::W, -1, &frame_with(Key::Down, 400_000, 16_667));
    assert_eq!(pos.y, 350_000);
}

#[test]
fn racket_on_a_screen_lower_than_itself() {
    let frame = frame_with(Key::Down, 50_000, 0);
    let mut pos = Point { x: 50_000, y: 10_000 };
    move_racket(&mut pos, Key::W, -1, &frame);
    assert_eq!(pos.y, 50_000);
    let mut pos = Point { x: 50_000, y: 49_999 };
    move_racket(&mut pos, Key::W, -1, &frame);
    assert_eq!(pos.y, 50_000);
    let mut pos = Point { x: 50_000, y: 50_000 };
    move_racket(&mut pos, Key::W, -1, &frame);
    assert_eq!(pos.y, 0);
    let mut pos = Point { x: 50_000, y: 60_000 };
    move_racket(&mut pos, Key::W, -1, &frame);
    assert_eq!(pos.y, 0);
}

#[test]
fn racket_stays_on_screen_from_any_height() {
    let heights: [i64; 9] =
        [i64::MIN, -1, 0, 49_999, 50_000, 300_000, 550_000, 550_001, i64::MAX];
    let ticks: [u64; 4] = [0, 16_667, 1_000_000, u64::MAX];
    for &start in heights.iter() {
        for &dt in ticks.iter() {
            for &(key, y_dir) in [(Key::W, -1_i8), (Key::S, 1_i8)].iter() {
                let mut pos = Point { x: 50_000, y: start };
                move_racket(&mut pos, key, y_dir, &frame_with(key, 600_000, dt));
                assert!(50_000 <= pos.y && pos.y <= 550_000);
                assert_eq!(pos.x, 50_000);
            }
        }
    }
}

#[test]
fn direction_scales_the_racket_speed() {
    let frame = frame_with(Key::S, 600_000, 10_000);
    let mut pos = Point { x: 50_000, y: 300_000 };
    move_racket(&mut pos, Key::S, 2, &frame);
    assert_eq!(pos.y, 310_000);
    move_racket(&mut pos, Key::S, 0, &frame);
    assert_eq!(pos.y, 310_000);
    move_racket(&mut pos, Key::S, -128, &frame);
    assert_eq!(pos.y, 50_000);
}
