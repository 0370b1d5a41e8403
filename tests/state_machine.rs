use walk_the_dog::engine::{Cell, Point, Sheet, SheetRect, Size};
use walk_the_dog::sprite::red_hat_boy::{Event, RedHatBoyStateMachine};
use walk_the_dog::sprite::state::{
    IsJumping, IsSliding, RedHatBoyContext, RedHatBoyState, FLOOR, JUMP_SPEED, RUNNING_SPEED,
};
use walk_the_dog::sprite::{Idle, Running, Sliding};

fn cell(x: i16, y: i16, w: i16, h: i16) -> Cell {
    Cell { frame: SheetRect { x, y, w, h } }
}

fn sheet() -> Sheet {
    Sheet {
        frames: vec![
            ("Idle (1).png".to_string(), cell(0, 0, 50, 100)),
            ("Run (1).png".to_string(), cell(50, 0, 70, 110)),
            ("Slide (1).png".to_string(), cell(120, 0, 80, 60)),
            ("Jump (1).png".to_string(), cell(200, 0, 90, 120)),
        ],
    }
}

fn idle() -> RedHatBoyStateMachine {
    RedHatBoyStateMachine::Idle(RedHatBoyState::new(Size { width: 50, height: 100 }))
}

fn running() -> RedHatBoyStateMachine {
    let s = sheet();
    idle().transition(Event::Run, Some(&s))
}

#[test]
fn new_state_stands_on_floor() {
    let state = RedHatBoyState::new(Size { width: 5, height: 6 });
    let c = state.context();
    assert_eq!(c.frame, 0);
    assert_eq!(c.position, Point { x: 0, y: FLOOR });
    assert_eq!(c.velocity, Point { x: 0, y: 0 });
    assert_eq!(c.bounding_box_size, Size { width: 5, height: 6 });
}

#[test]
fn idle_run_enters_running() {
    let mut m = idle();
    for _ in 0..4 {
        m = m.update();
    }
    assert_eq!(m.context().frame, 4);
    let s = sheet();
    let m = m.transition(Event::Run, Some(&s));
    assert!(matches!(m, RedHatBoyStateMachine::Running(_)));
    assert_eq!(m.context().velocity.x, RUNNING_SPEED);
    assert_eq!(m.context().velocity.x, 3);
    assert_eq!(m.context().frame, 0);
    assert_eq!(m.context().bounding_box_size, Size { width: 70, height: 110 });
}

#[test]
fn running_jump_enters_jumping() {
    let s = sheet();
    let m = running().transition(Event::Jump, Some(&s));
    assert!(matches!(m, RedHatBoyStateMachine::Jumping(_)));
    assert_eq!(m.context().velocity.y, JUMP_SPEED);
    assert_eq!(m.context().velocity.y, -25);
    assert_eq!(m.context().frame, 0);
    assert_eq!(m.context().bounding_box_size, Size { width: 90, height: 120 });
}

#[test]
fn jumping_lands_back_to_running() {
    let s = sheet();
    let mut m = running().transition(Event::Jump, Some(&s));
    let mut ticks = 0;
    while let RedHatBoyStateMachine::Jumping(_) = m {
        m = m.transition(Event::Update, None);
        ticks += 1;
        assert!(ticks < 100);
    }
    assert!(matches!(m, RedHatBoyStateMachine::Running(_)));
    assert_eq!(m.context().position.y, FLOOR);
    assert_eq!(m.context().frame, 0);
    // Rising for 24 ticks, falling for 25: the jump lasts 49 ticks.
    assert_eq!(ticks, 49);
}

#[test]
fn sliding_stands_up_after_its_animation() {
    let s = sheet();
    let mut m = running().transition(Event::Slide, Some(&s));
    assert!(matches!(m, RedHatBoyStateMachine::Sliding(_)));
    assert_eq!(m.context().bounding_box_size, Size { width: 80, height: 60 });
    let mut ticks = 0;
    while let RedHatBoyStateMachine::Sliding(_) = m {
        m = m.update();
        ticks += 1;
        assert!(ticks < 100);
    }
    assert!(matches!(m, RedHatBoyStateMachine::Running(_)));
    assert_eq!(ticks, 14);
    assert_eq!(m.context().frame, 0);
}

#[test]
fn unlisted_pairs_change_nothing() {
    let s = sheet();
    let m = idle();
    let before = *m.context();
    for event in [Event::Slide, Event::Jump] {
        let after = m.transition(event, Some(&s));
        assert!(matches!(after, RedHatBoyStateMachine::Idle(_)));
        assert_eq!(*after.context(), before);
    }
    let jumping = running().transition(Event::Jump, Some(&s));
    let before = *jumping.context();
    for event in [Event::Run, Event::Slide, Event::Jump] {
        let after = jumping.transition(event, Some(&s));
        assert!(matches!(after, RedHatBoyStateMachine::Jumping(_)));
        assert_eq!(*after.context(), before);
    }
    let r = running();
    let after = r.transition(Event::Run, Some(&s));
    assert!(matches!(after, RedHatBoyStateMachine::Running(_)));
    assert_eq!(*after.context(), *r.context());
}

#[test]
fn transitions_reset_frame() {
    let s = sheet();
    let mut m = running();
    for _ in 0..5 {
        m = m.update();
    }
    assert_eq!(m.context().frame, 5);
    let slid = m.transition(Event::Slide, Some(&s));
    assert_eq!(slid.context().frame, 0);
    let jumped = m.transition(Event::Jump, Some(&s));
    assert_eq!(jumped.context().frame, 0);
}

#[test]
fn missing_sheet_cell_falls_back_to_default_size() {
    let empty = Sheet { frames: Vec::new() };
    assert_eq!(
        RedHatBoyStateMachine::get_size_for_state::<Running>(&empty),
        Size { width: 64, height: 64 }
    );
    let m = idle().transition(Event::Run, Some(&empty));
    assert_eq!(m.context().bounding_box_size, Size { width: 64, height: 64 });
    let s = sheet();
    assert_eq!(
        RedHatBoyStateMachine::get_size_for_state::<Sliding>(&s),
        Size { width: 80, height: 60 }
    );
}

#[test]
fn first_sheet_entry_of_a_name_counts() {
    let s = Sheet {
        frames: vec![
            ("Run (1).png".to_string(), cell(0, 0, 11, 12)),
            ("Run (1).png".to_string(), cell(0, 0, 21, 22)),
        ],
    };
    assert_eq!(
        RedHatBoyStateMachine::get_size_for_state::<Running>(&s),
        Size { width: 11, height: 12 }
    );
    assert_eq!(
        RedHatBoyStateMachine::get_size_for_state::<Idle>(&s),
        Size { width: 64, height: 64 }
    );
}

#[test]
fn context_update_applies_gravity_and_moves() {
    let c = RedHatBoyContext {
        frame: 2,
        position: Point { x: 10, y: 100 },
        velocity: Point { x: 3, y: -10 },
        bounding_box_size: Size { width: 1, height: 1 },
    };
    let n = c.update(29);
    assert_eq!(n.frame, 3);
    assert_eq!(n.velocity, Point { x: 3, y: -9 });
    assert_eq!(n.position, Point { x: 13, y: 91 });
    let wrapped = RedHatBoyContext { frame: 29, ..c }.update(29);
    assert_eq!(wrapped.frame, 0);
}

#[test]
fn context_update_cycle_returns_to_zero() {
    let mut c = *RedHatBoyState::new(Size { width: 1, height: 1 }).context();
    for _ in 0..30 {
        c = c.update(29);
    }
    assert_eq!(c.frame, 0);
}

#[test]
fn update_never_leaves_floor_downward() {
    for vy in [i16::MIN, -25, 0, 1, 100, i16::MAX - 1, i16::MAX] {
        let c = RedHatBoyContext {
            frame: 0,
            position: Point { x: i16::MAX, y: FLOOR },
            velocity: Point { x: i16::MAX, y: vy },
            bounding_box_size: Size { width: 1, height: 1 },
        };
        let n = c.update(14);
        assert!(n.position.y <= FLOOR);
        assert_eq!(n.position.x, i16::MAX);
    }
    let high = RedHatBoyContext {
        frame: 0,
        position: Point { x: 0, y: i16::MIN },
        velocity: Point { x: i16::MIN, y: i16::MIN },
        bounding_box_size: Size { width: 1, height: 1 },
    };
    let n = high.update(14);
    assert_eq!(n.position, Point { x: i16::MIN, y: i16::MIN });
    assert_eq!(n.velocity.y, i16::MIN + 1);
}

#[test]
fn typed_states_move_between_each_other() {
    let idle = RedHatBoyState::new(Size { width: 1, height: 1 });
    let running = idle.run(Size { width: 2, height: 2 });
    assert_eq!(running.context().velocity.x, RUNNING_SPEED);
    let sliding = running.slide(Size { width: 3, height: 3 });
    assert_eq!(sliding.context().bounding_box_size, Size { width: 3, height: 3 });
    let stood = sliding.stand();
    assert_eq!(stood.context().frame, 0);
    let jumping = stood.jump(Size { width: 4, height: 4 });
    assert_eq!(jumping.context().velocity.y, JUMP_SPEED);
    match jumping.update() {
        IsJumping::InProgress(j) => {
            assert_eq!(j.context().velocity.y, JUMP_SPEED + 1);
            assert_eq!(j.land().context().frame, 0);
        }
        IsJumping::Done(_) => panic!("a jump does not end after one tick"),
    }
    let sliding = stood.slide(Size { width: 3, height: 3 });
    match sliding.update() {
        IsSliding::InProgress(s) => assert_eq!(s.context().frame, 1),
        IsSliding::Done(_) => panic!("a slide does not end after one tick"),
    }
}
