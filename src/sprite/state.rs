//! The character's states, the context they share, and the moves between
//! them. Each state is a distinct type, so an operation that a state does
//! not support (jumping while idle) cannot be written.
use crate::engine::{Point, Size};
use crate::sprite::{last_tick, FRAME_TICK_RATE, Idle, Jumping, Running, Sliding, SpriteState};
use vstd::arithmetic::div_mod::{lemma_add_mod_noop, lemma_mod_self_0, lemma_small_mod};
use vstd::prelude::*;

verus! {

/// Vertical velocity given by a jump (negative is upward).
pub const JUMP_SPEED: i16 = -25;

/// Downward acceleration applied on every tick.
pub const GRAVITY: i16 = 1;

/// Ground level: the largest vertical position.
pub const FLOOR: i16 = 475;

/// Horizontal velocity of a running character.
pub const RUNNING_SPEED: i16 = 3;

/// `v` limited to the range of `i16`.
pub open spec fn clamp_i16(v: int) -> i16 {
    if v > i16::MAX {
        i16::MAX
    } else if v < i16::MIN {
        i16::MIN
    } else {
        v as i16
    }
}

/// `a + b`, saturating at the bounds of `i16`.
fn add_clamped(a: i16, b: i16) -> (r: i16)
    ensures
        r == clamp_i16(a + b),
{
    let sum: i32 = a as i32 + b as i32;
    if sum > i16::MAX as i32 {
        i16::MAX
    } else if sum < i16::MIN as i32 {
        i16::MIN
    } else {
        sum as i16
    }
}

/// Physics and animation data shared by every state.
#[derive(Debug, Copy, Clone, PartialEq, Eq, Structural)]
pub struct RedHatBoyContext {
    pub frame: u8,
    pub position: Point,
    pub velocity: Point,
    pub bounding_box_size: Size,
}

/// One tick of a context whose animation wraps after tick `last`: gravity,
/// the animation counter, an Euler step of the position (saturating at the
/// bounds of `i16`), and the floor clamp.
pub open spec fn next_context(c: RedHatBoyContext, last: u8) -> RedHatBoyContext {
    let vy = clamp_i16(c.velocity.y + GRAVITY);
    let y = clamp_i16(c.position.y + vy);
    RedHatBoyContext {
        frame: if c.frame < last {
            (c.frame + 1) as u8
        } else {
            0
        },
        position: Point {
            x: clamp_i16(c.position.x + c.velocity.x),
            y: if y > FLOOR {
                FLOOR
            } else {
                y
            },
        },
        velocity: Point { x: c.velocity.x, y: vy },
        bounding_box_size: c.bounding_box_size,
    }
}

/// `c` after `n` ticks of an animation whose last tick is `last`.
pub open spec fn updated_times(c: RedHatBoyContext, last: u8, n: nat) -> RedHatBoyContext
    decreases n,
{
    if n == 0 {
        c
    } else {
        next_context(updated_times(c, last, (n - 1) as nat), last)
    }
}

/// After `n` ticks the animation counter has advanced by `n`, modulo the
/// length of the cycle.
proof fn lemma_frame_after_ticks(c: RedHatBoyContext, last: u8, n: nat)
    requires
        1 <= last,
        c.frame <= last,
    ensures
        updated_times(c, last, n).frame == (c.frame + n) % (last + 1),
    decreases n,
{
    let m = last + 1;
    if n == 0 {
        lemma_small_mod(c.frame as nat, m as nat);
    } else {
        lemma_frame_after_ticks(c, last, (n - 1) as nat);
        let x = updated_times(c, last, (n - 1) as nat).frame;
        assert(x < m);
        lemma_add_mod_noop(c.frame + n - 1, 1, m);
        lemma_small_mod(1, m as nat);
        if x < last {
            lemma_small_mod((x + 1) as nat, m as nat);
        } else {
            lemma_mod_self_0(m);
        }
    }
}

/// Updating a context once per tick of a full cycle of state `S`'s
/// animation, `frame_count * animation_speed` ticks, brings the animation
/// counter back where it was; from 0 it wraps back to 0.
pub proof fn lemma_animation_cycle<S: SpriteState>(c: RedHatBoyContext)
    requires
        c.frame <= last_tick(S::spec_frame_count()),
    ensures
        last_tick(S::spec_frame_count()) + 1 == S::spec_frame_count() * FRAME_TICK_RATE,
        updated_times(
            c,
            last_tick(S::spec_frame_count()) as u8,
            (last_tick(S::spec_frame_count()) + 1) as nat,
        ).frame == c.frame,
{
    S::lemma_frame_count_bounds();
    let last = last_tick(S::spec_frame_count());
    assert(last >= 2) by (nonlinear_arith)
        requires
            last == S::spec_frame_count() * 3 - 1,
            S::spec_frame_count() >= 1,
    ;
    lemma_frame_after_ticks(c, last as u8, (last + 1) as nat);
    lemma_add_mod_noop(c.frame as int, last + 1, last + 1);
    lemma_mod_self_0(last + 1);
    lemma_small_mod(c.frame as nat, (last + 1) as nat);
}

/// After any tick, whatever the velocity, the character is not below the
/// floor.
pub proof fn lemma_update_stays_above_floor(c: RedHatBoyContext, last: u8)
    ensures
        next_context(c, last).position.y <= FLOOR,
{
}

/// `c` with its animation restarted, as on entering a state.
pub open spec fn restarted(c: RedHatBoyContext) -> RedHatBoyContext {
    RedHatBoyContext { frame: 0, ..c }
}

/// The context on entering Running from Idle, with a bounding box `size`.
pub open spec fn run_context(c: RedHatBoyContext, size: Size) -> RedHatBoyContext {
    RedHatBoyContext {
        frame: 0,
        velocity: Point { x: RUNNING_SPEED, y: c.velocity.y },
        bounding_box_size: size,
        ..c
    }
}

/// The context on entering Sliding, with a bounding box `size`.
pub open spec fn slide_context(c: RedHatBoyContext, size: Size) -> RedHatBoyContext {
    RedHatBoyContext { frame: 0, bounding_box_size: size, ..c }
}

/// The context on entering Jumping, with a bounding box `size`.
pub open spec fn jump_context(c: RedHatBoyContext, size: Size) -> RedHatBoyContext {
    RedHatBoyContext {
        frame: 0,
        velocity: Point { x: c.velocity.x, y: JUMP_SPEED },
        bounding_box_size: size,
        ..c
    }
}

/// The context in which the character starts.
pub open spec fn initial_context(size: Size) -> RedHatBoyContext {
    RedHatBoyContext {
        frame: 0,
        position: Point { x: 0, y: FLOOR },
        velocity: Point { x: 0, y: 0 },
        bounding_box_size: size,
    }
}

impl RedHatBoyContext {
    /// Advances the context by one tick; `frame_count` is the last tick of
    /// the current animation.
    pub fn update(self, frame_count: u8) -> (r: Self)
        ensures
            r == next_context(self, frame_count),
    {
        let mut next = self;
        next.velocity.y = add_clamped(next.velocity.y, GRAVITY);
        if next.frame < frame_count {
            next.frame = next.frame + 1;
        } else {
            next.frame = 0;
        }
        next.position.x = add_clamped(next.position.x, next.velocity.x);
        next.position.y = add_clamped(next.position.y, next.velocity.y);
        if next.position.y > FLOOR {
            next.position.y = FLOOR;
        }
        next
    }

    fn on_state_transition(self) -> (r: Self)
        ensures
            r == restarted(self),
    {
        let mut next = self;
        next.frame = 0;
        next
    }

    fn with_bounding_box_size(self, size: Size) -> (r: Self)
        ensures
            r == (RedHatBoyContext { bounding_box_size: size, ..self }),
    {
        let mut next = self;
        next.bounding_box_size = size;
        next
    }

    fn run_right(self) -> (r: Self)
        ensures
            r == (RedHatBoyContext { velocity: Point { x: RUNNING_SPEED, y: self.velocity.y }, ..self }),
    {
        let mut next = self;
        next.velocity.x = RUNNING_SPEED;
        next
    }

    fn set_vertical_velocity(self, y: i16) -> (r: Self)
        ensures
            r == (RedHatBoyContext { velocity: Point { x: self.velocity.x, y }, ..self }),
    {
        let mut next = self;
        next.velocity.y = y;
        next
    }
}

/// The character in state `S`, with its context.
#[derive(Debug, Copy, Clone)]
pub struct RedHatBoyState<S> {
    context: RedHatBoyContext,
    _state: S,
}

impl<S> View for RedHatBoyState<S> {
    type V = RedHatBoyContext;

    closed spec fn view(&self) -> RedHatBoyContext {
        self.context
    }
}

impl<S> RedHatBoyState<S> {
    pub fn context(&self) -> (r: &RedHatBoyContext)
        ensures
            *r == self@,
    {
        &self.context
    }
}

/// What a tick of Sliding leads to.
pub enum IsSliding {
    Done(RedHatBoyState<Running>),
    InProgress(RedHatBoyState<Sliding>),
}

/// What a tick of Jumping leads to.
pub enum IsJumping {
    Done(RedHatBoyState<Running>),
    InProgress(RedHatBoyState<Jumping>),
}

impl RedHatBoyState<Idle> {
    /// A character standing on the floor at the left edge, at rest.
    pub fn new(bounding_box_size: Size) -> (r: Self)
        ensures
            r@ == initial_context(bounding_box_size),
    {
        let position = Point { x: 0, y: FLOOR };
        RedHatBoyState {
            context: RedHatBoyContext {
                frame: 0,
                position,
                velocity: Point { x: 0, y: 0 },
                bounding_box_size,
            },
            _state: Idle,
        }
    }

    pub fn update(self) -> (r: Self)
        ensures
            r@ == next_context(self@, last_tick(Idle::spec_frame_count()) as u8),
    {
        RedHatBoyState { context: self.context.update(Idle::total_frames()), _state: self._state }
    }

    /// Starts running right, with a bounding box `size`.
    pub fn run(self, size: Size) -> (r: RedHatBoyState<Running>)
        ensures
            r@ == run_context(self@, size),
    {
        RedHatBoyState {
            context: self.context.on_state_transition().run_right().with_bounding_box_size(size),
            _state: Running,
        }
    }
}

impl RedHatBoyState<Running> {
    pub fn update(self) -> (r: Self)
        ensures
            r@ == next_context(self@, last_tick(Running::spec_frame_count()) as u8),
    {
        RedHatBoyState {
            context: self.context.update(Running::total_frames()),
            _state: self._state,
        }
    }

    /// Starts a slide, with a bounding box `size`.
    pub fn slide(self, size: Size) -> (r: RedHatBoyState<Sliding>)
        ensures
            r@ == slide_context(self@, size),
    {
        RedHatBoyState {
            context: self.context().on_state_transition().with_bounding_box_size(size),
            _state: Sliding,
        }
    }

    /// Starts a jump, with a bounding box `size`.
    pub fn jump(self, size: Size) -> (r: RedHatBoyState<Jumping>)
        ensures
            r@ == jump_context(self@, size),
    {
        RedHatBoyState {
            context: self.context().set_vertical_velocity(JUMP_SPEED).on_state_transition().with_bounding_box_size(
                size,
            ),
            _state: Jumping,
        }
    }
}

impl RedHatBoyState<Sliding> {
    /// One tick of the slide; it ends, back to Running, once its animation
    /// has reached its last tick.
    pub fn update(self) -> (r: IsSliding)
        ensures
            ({
                let next = next_context(self@, last_tick(Sliding::spec_frame_count()) as u8);
                match r {
                    IsSliding::Done(s) => next.frame >= last_tick(Sliding::spec_frame_count())
                        && s@ == restarted(next),
                    IsSliding::InProgress(s) => next.frame < last_tick(
                        Sliding::spec_frame_count(),
                    ) && s@ == next,
                }
            }),
    {
        let next = RedHatBoyState {
            context: self.context.update(Sliding::total_frames()),
            _state: self._state,
        };
        if next.context.frame >= Sliding::total_frames() {
            IsSliding::Done(next.stand())
        } else {
            IsSliding::InProgress(next)
        }
    }

    /// Gets up from the slide.
    pub fn stand(self) -> (r: RedHatBoyState<Running>)
        ensures
            r@ == restarted(self@),
    {
        RedHatBoyState { context: self.context.on_state_transition(), _state: Running }
    }
}

impl RedHatBoyState<Jumping> {
    /// One tick of the jump; it ends, back to Running, once the character
    /// is on the floor.
    pub fn update(self) -> (r: IsJumping)
        ensures
            ({
                let next = next_context(self@, last_tick(Jumping::spec_frame_count()) as u8);
                match r {
                    IsJumping::Done(s) => next.position.y >= FLOOR && s@ == restarted(next),
                    IsJumping::InProgress(s) => next.position.y < FLOOR && s@ == next,
                }
            }),
    {
        let next = RedHatBoyState {
            context: self.context.update(Jumping::total_frames()),
            _state: self._state,
        };
        if next.context.position.y >= FLOOR {
            IsJumping::Done(next.land())
        } else {
            IsJumping::InProgress(next)
        }
    }

    /// Lands on the floor.
    pub fn land(self) -> (r: RedHatBoyState<Running>)
        ensures
            r@ == restarted(self@),
    {
        RedHatBoyState { context: self.context.on_state_transition(), _state: Running }
    }
}

} // verus!
