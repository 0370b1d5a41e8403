use walk_the_dog::engine::{
    process_input, Cell, GameLoop, Image, KeyPress, KeyState, Point, Rect, Sheet, SheetRect, Size,
    FRAME_SIZE,
};
use walk_the_dog::game::{Walk, WalkTheDog};
use walk_the_dog::sprite::state::{FLOOR, RUNNING_SPEED};
use walk_the_dog::sprite::RedHatBoy;

fn cell(x: i16, y: i16, w: i16, h: i16) -> Cell {
    Cell { frame: SheetRect { x, y, w, h } }
}

fn sheet() -> Sheet {
    Sheet {
        frames: vec![
            ("Idle (1).png".to_string(), cell(0, 0, 50, 100)),
            ("Run (1).png".to_string(), cell(50, 0, 70, 110)),
            ("Run (2).png".to_string(), cell(120, 0, 71, 111)),
        ],
    }
}

fn walk() -> WalkTheDog<u8> {
    WalkTheDog::Loaded(Walk {
        boy: RedHatBoy::new(sheet(), 7),
        background: Image::new(1, Point { x: 0, y: 0 }, Size { width: 600, height: 600 }),
        stone: Image::new(2, Point { x: 150, y: 546 }, Size { width: 90, height: 54 }),
    })
}

fn boy(game: &WalkTheDog<u8>) -> &RedHatBoy<u8> {
    match game {
        WalkTheDog::Loaded(walk) => &walk.boy,
        WalkTheDog::Loading => panic!("the game is loaded"),
    }
}

#[test]
fn keys_press_and_release() {
    let mut keys = KeyState::new();
    assert!(!keys.is_pressed("Space"));
    keys.set_pressed("Space");
    keys.set_pressed("Space");
    assert!(keys.is_pressed("Space"));
    assert!(!keys.is_pressed("ArrowDown"));
    keys.set_released("Space");
    assert!(!keys.is_pressed("Space"));
    keys.set_released("Space");
    keys.set_released("ArrowDown");
    assert!(!keys.is_pressed("Space"));
}

#[test]
fn process_input_takes_events_in_order() {
    let mut keys = KeyState::new();
    let events = vec![
        KeyPress::KeyDown("ArrowRight".to_string()),
        KeyPress::KeyDown("Space".to_string()),
        KeyPress::KeyUp("ArrowRight".to_string()),
        KeyPress::KeyDown("ArrowDown".to_string()),
        KeyPress::KeyUp("ArrowDown".to_string()),
        KeyPress::KeyDown("ArrowDown".to_string()),
    ];
    process_input(&mut keys, &events);
    assert!(!keys.is_pressed("ArrowRight"));
    assert!(keys.is_pressed("Space"));
    assert!(keys.is_pressed("ArrowDown"));
    process_input(&mut keys, &Vec::new());
    assert!(keys.is_pressed("Space"));
}

#[test]
fn three_frames_of_time_run_three_ticks() {
    // 3 * 1000/60 ms = 50 ms = 50_000 microseconds.
    let mut game_loop = GameLoop::new(1_000);
    let mut game = walk();
    let keys = KeyState::new();
    let ticks = game_loop.frame(51_000, &mut game, &keys);
    assert_eq!(ticks, 3);
    assert_eq!(game_loop.last_frame, 51_000);
    assert_eq!(game_loop.accumulated_delta, 50_000 - 3 * FRAME_SIZE);
    assert_eq!(boy(&game).get_current_frame_name(), "Idle (2).png");
    assert_eq!(boy(&game).position(), Point { x: 0, y: FLOOR });
}

#[test]
fn short_frames_accumulate() {
    let mut game_loop = GameLoop::new(0);
    let mut game: WalkTheDog<u8> = WalkTheDog::new();
    let keys = KeyState::new();
    assert_eq!(game_loop.frame(FRAME_SIZE, &mut game, &keys), 0);
    assert_eq!(game_loop.accumulated_delta, FRAME_SIZE);
    assert_eq!(game_loop.frame(FRAME_SIZE + 1, &mut game, &keys), 1);
    assert_eq!(game_loop.accumulated_delta, 1);
    assert_eq!(game_loop.frame(FRAME_SIZE + 2, &mut game, &keys), 0);
    assert_eq!(game_loop.accumulated_delta, 2);
    assert!(matches!(game, WalkTheDog::Loading));
}

#[test]
fn clock_going_back_adds_no_time() {
    let mut game_loop = GameLoop::new(100_000);
    let mut game: WalkTheDog<u8> = WalkTheDog::new();
    let keys = KeyState::new();
    assert_eq!(game_loop.frame(40_000, &mut game, &keys), 0);
    assert_eq!(game_loop.accumulated_delta, 0);
    assert_eq!(game_loop.last_frame, 40_000);
}

#[test]
fn keys_steer_the_character() {
    let mut game = walk();
    let mut keys = KeyState::new();
    keys.set_pressed("ArrowRight");
    game.update(&keys);
    let b = boy(&game);
    assert_eq!(b.position(), Point { x: RUNNING_SPEED, y: FLOOR });
    assert_eq!(b.bounding_box_size(), Size { width: 70, height: 110 });
    assert_eq!(b.get_current_frame_name(), "Run (1).png");
    keys.set_released("ArrowRight");
    keys.set_pressed("Space");
    game.update(&keys);
    let b = boy(&game);
    assert_eq!(b.position(), Point { x: 2 * RUNNING_SPEED, y: FLOOR - 24 });
    assert_eq!(b.get_current_frame_name(), "Jump (1).png");
    assert_eq!(b.bounding_box_size(), Size { width: 64, height: 64 });
}

#[test]
fn loading_game_ignores_keys() {
    let mut game: WalkTheDog<u8> = WalkTheDog::new();
    let mut keys = KeyState::new();
    keys.set_pressed("ArrowRight");
    game.update(&keys);
    assert!(matches!(game, WalkTheDog::Loading));
}

fn run(frames: &[(u64, &[&str])]) -> (Vec<u64>, Point, Size, String) {
    let mut game_loop = GameLoop::new(0);
    let mut game = walk();
    let mut counts = Vec::new();
    for (now, pressed) in frames {
        let mut keys = KeyState::new();
        for code in pressed.iter() {
            keys.set_pressed(code);
        }
        counts.push(game_loop.frame(*now, &mut game, &keys));
    }
    let b = boy(&game);
    (counts, b.position(), b.bounding_box_size(), b.get_current_frame_name())
}

#[test]
fn same_frames_same_run() {
    let frames: Vec<(u64, &[&str])> = vec![
        (16_000, &[]),
        (40_000, &["ArrowRight"]),
        (41_000, &[]),
        (120_000, &["Space"]),
        (300_000, &["ArrowDown"]),
        (900_000, &[]),
    ];
    let first = run(&frames);
    let second = run(&frames);
    assert_eq!(first, second);
    assert_eq!(first.0, vec![0, 2, 0, 5, 11, 36]);
}

#[test]
fn sprite_rects_follow_the_sheet() {
    let mut b = RedHatBoy::new(sheet(), 3u8);
    assert_eq!(*b.image(), 3);
    let (source, destination) = b.sprite_rects().unwrap();
    assert_eq!(source.position, Point { x: 0, y: 0 });
    assert_eq!(source.size, Size { width: 50, height: 100 });
    assert_eq!(destination.position, Point { x: 0, y: FLOOR });
    assert_eq!(destination.size, Size { width: 50, height: 100 });
    b.run_right();
    for _ in 0..3 {
        b.update();
    }
    assert_eq!(b.get_current_frame_name(), "Run (2).png");
    let (source, destination) = b.sprite_rects().unwrap();
    assert_eq!(source.position, Point { x: 120, y: 0 });
    assert_eq!(destination.position, Point { x: 9, y: FLOOR });
    assert_eq!(destination.size, Size { width: 71, height: 111 });
    for _ in 0..3 {
        b.update();
    }
    assert!(b.sprite_rects().is_none());
    b.slide();
    assert_eq!(b.get_current_frame_name(), "Slide (1).png");
    b.jump();
    assert_eq!(b.get_current_frame_name(), "Slide (1).png");
}

#[test]
fn rect_new_keeps_parts() {
    let r = Rect::new(Point { x: 1, y: 2 }, Size { width: 3, height: 4 });
    assert_eq!(r.position, Point { x: 1, y: 2 });
    assert_eq!(r.size, Size { width: 3, height: 4 });
    let image = Image::new("img", Point { x: 5, y: 6 }, Size { width: 7, height: 8 });
    assert_eq!(image.bounding_box.position, Point { x: 5, y: 6 });
    assert_eq!(image.bounding_box.size, Size { width: 7, height: 8 });
}
