//! Geometry, the sprite sheet, the key snapshot and the fixed-timestep
//! game loop.
use crate::game::{run_ticks, WalkTheDog};
use crate::sprite::red_hat_boy::Phase;
use crate::sprite::state::RedHatBoyContext;
use vstd::prelude::*;

verus! {

/// An integer 2D coordinate, used for positions and velocities.
#[derive(Clone, Copy, Debug, PartialEq, Eq, Structural)]
pub struct Point {
    pub x: i16,
    pub y: i16,
}

/// An integer extent.
#[derive(Clone, Copy, Debug, PartialEq, Eq, Structural)]
pub struct Size {
    pub width: i16,
    pub height: i16,
}

/// A rectangle given by its top-left corner and its size.
#[derive(Clone, Copy, Debug)]
pub struct Rect {
    pub position: Point,
    pub size: Size,
}

impl Rect {
    pub fn new(position: Point, size: Size) -> (r: Rect)
        ensures
            r.position == position,
            r.size == size,
    {
        Rect { position, size }
    }
}

/// A still image placed in the scene; its bounding box has the image's own
/// size.
pub struct Image<E> {
    pub element: E,
    pub position: Point,
    pub bounding_box: Rect,
}

impl<E> Image<E> {
    /// Places `element`, of the given size, at `position`.
    pub fn new(element: E, position: Point, size: Size) -> (r: Self)
        ensures
            r.element == element,
            r.position == position,
            r.bounding_box == (Rect { position, size }),
    {
        let bounding_box = Rect::new(position, size);
        Image { element, position, bounding_box }
    }
}

/// Where a sprite cell lies in the atlas image.
#[derive(Clone, Copy, Debug, PartialEq, Eq, Structural)]
pub struct SheetRect {
    pub x: i16,
    pub y: i16,
    pub w: i16,
    pub h: i16,
}

/// One named cell of a sprite sheet.
#[derive(Clone, Copy, Debug, PartialEq, Eq, Structural)]
pub struct Cell {
    pub frame: SheetRect,
}

/// The atlas metadata: cell names with their source rectangles. Where a
/// name occurs more than once, its first entry is the one that counts.
pub struct Sheet {
    pub frames: Vec<(String, Cell)>,
}

/// The cell that `frames` gives for `key`: that of its first entry of that
/// name, if any.
pub open spec fn cell_named(frames: Seq<(String, Cell)>, key: Seq<char>) -> Option<Cell>
    decreases frames.len(),
{
    if frames.len() == 0 {
        None
    } else if frames[0].0@ == key {
        Some(frames[0].1)
    } else {
        cell_named(frames.drop_first(), key)
    }
}

impl Sheet {
    /// The cell that the sheet gives for `key`.
    pub open spec fn spec_cell(&self, key: Seq<char>) -> Option<Cell> {
        cell_named(self.frames@, key)
    }

    /// Looks up the cell named `key`.
    pub fn cell(&self, key: &String) -> (r: Option<Cell>)
        ensures
            r == self.spec_cell(key@),
    {
        let mut i: usize = 0;
        assert(self.frames@.skip(0) =~= self.frames@);
        while i < self.frames.len()
            invariant
                i <= self.frames@.len(),
                cell_named(self.frames@, key@) == cell_named(self.frames@.skip(i as int), key@),
            decreases self.frames@.len() - i,
        {
            let entry = &self.frames[i];
            assert(self.frames@.skip(i as int).drop_first() =~= self.frames@.skip(i + 1));
            if entry.0 == *key {
                return Some(entry.1);
            }
            i = i + 1;
        }
        None
    }
}

/// The keys held down at one moment, by their key code (`"ArrowRight"`).
pub struct KeyState {
    pressed_keys: Vec<String>,
}

impl View for KeyState {
    type V = Set<Seq<char>>;

    closed spec fn view(&self) -> Set<Seq<char>> {
        Set::new(
            |code: Seq<char>|
                exists|i: int| 0 <= i < self.pressed_keys@.len() && #[trigger] self.pressed_keys@[i]@ == code,
        )
    }
}

impl KeyState {
    /// No key held.
    pub fn new() -> (r: Self)
        ensures
            r@ == Set::<Seq<char>>::empty(),
    {
        let r = KeyState { pressed_keys: Vec::new() };
        assert(r@ =~= Set::<Seq<char>>::empty());
        r
    }

    pub fn is_pressed(&self, code: &str) -> (r: bool)
        ensures
            r == self@.contains(code@),
    {
        let wanted = code.to_owned();
        let mut i: usize = 0;
        while i < self.pressed_keys.len()
            invariant
                i <= self.pressed_keys@.len(),
                wanted@ == code@,
                forall|j: int| 0 <= j < i ==> self.pressed_keys@[j]@ != code@,
            decreases self.pressed_keys@.len() - i,
        {
            if self.pressed_keys[i] == wanted {
                assert(self.pressed_keys@[i as int]@ == code@);
                assert(self@.contains(code@));
                return true;
            }
            i = i + 1;
        }
        false
    }

    /// Records that the key `code` is down; pressing a held key changes
    /// nothing.
    pub fn set_pressed(&mut self, code: &str)
        ensures
            final(self)@ == old(self)@.insert(code@),
    {
        if !self.is_pressed(code) {
            self.pressed_keys.push(code.to_owned());
            let ghost n = self.pressed_keys@.len() - 1;
            assert forall|k: Seq<char>| self@.contains(k) <==> old(self)@.insert(code@).contains(k) by {
                if old(self)@.contains(k) {
                    let i = choose|i: int| 0 <= i < old(self).pressed_keys@.len() && #[trigger] old(self).pressed_keys@[i]@ == k;
                    assert(self.pressed_keys@[i]@ == k);
                }
                if k == code@ {
                    assert(self.pressed_keys@[n]@ == k);
                }
                if self@.contains(k) {
                    let i = choose|i: int| 0 <= i < self.pressed_keys@.len() && #[trigger] self.pressed_keys@[i]@ == k;
                    if i < n {
                        assert(old(self).pressed_keys@[i]@ == k);
                    }
                }
            }
            assert(self@ =~= old(self)@.insert(code@));
        } else {
            assert(old(self)@.insert(code@) =~= old(self)@);
        }
    }

    /// Records that the key `code` is up; releasing a key that is not held
    /// changes nothing.
    pub fn set_released(&mut self, code: &str)
        ensures
            final(self)@ == old(self)@.remove(code@),
    {
        let released = code.to_owned();
        let mut kept: Vec<String> = Vec::new();
        let mut i: usize = 0;
        while i < self.pressed_keys.len()
            invariant
                i <= self.pressed_keys@.len(),
                released@ == code@,
                forall|j: int| 0 <= j < kept@.len() ==> #[trigger] kept@[j]@ != code@,
                forall|j: int|
                    0 <= j < kept@.len() ==> exists|m: int|
                        0 <= m < i && #[trigger] self.pressed_keys@[m]@ == (#[trigger] kept@[j])@,
                forall|m: int|
                    0 <= m < i && (#[trigger] self.pressed_keys@[m])@ != code@ ==> exists|j: int|
                        0 <= j < kept@.len() && kept@[j]@ == self.pressed_keys@[m]@,
            decreases self.pressed_keys@.len() - i,
        {
            let ghost kept_before = kept@;
            if self.pressed_keys[i] != released {
                kept.push(self.pressed_keys[i].clone());
                let ghost last = kept@.len() - 1;
                assert(kept@[last]@ == self.pressed_keys@[i as int]@);
            }
            assert forall|m: int|
                0 <= m <= i && (#[trigger] self.pressed_keys@[m])@ != code@ implies exists|j: int|
                    0 <= j < kept@.len() && kept@[j]@ == self.pressed_keys@[m]@ by {
                if m < i {
                    let j = choose|j: int|
                        0 <= j < kept_before.len() && kept_before[j]@ == self.pressed_keys@[m]@;
                    assert(kept@[j] == kept_before[j]);
                } else {
                    assert(kept@[kept@.len() - 1]@ == self.pressed_keys@[m]@);
                }
            }
            assert forall|j: int| 0 <= j < kept@.len() implies exists|m: int|
                0 <= m <= i && #[trigger] self.pressed_keys@[m]@ == (#[trigger] kept@[j])@ by {
                if j < kept_before.len() {
                    assert(kept@[j] == kept_before[j]);
                    let m = choose|m: int|
                        0 <= m < i && #[trigger] self.pressed_keys@[m]@ == kept_before[j]@;
                } else {
                    assert(self.pressed_keys@[i as int]@ == kept@[j]@);
                }
            }
            i = i + 1;
        }
        let ghost before = self.pressed_keys@;
        self.pressed_keys = kept;
        assert forall|k: Seq<char>| self@.contains(k) <==> old(self)@.remove(code@).contains(k) by {
            if self@.contains(k) {
                let j = choose|j: int| 0 <= j < self.pressed_keys@.len() && #[trigger] self.pressed_keys@[j]@ == k;
                let m = choose|m: int| 0 <= m < before.len() && #[trigger] before[m]@ == self.pressed_keys@[j]@;
                assert(old(self).pressed_keys@[m]@ == k);
            }
            if old(self)@.remove(code@).contains(k) {
                let m = choose|m: int| 0 <= m < before.len() && #[trigger] before[m]@ == k;
                assert(before[m]@ != code@);
            }
        }
        assert(self@ =~= old(self)@.remove(code@));
    }
}

/// A raw keyboard event: a key, by its code, going up or down.
#[derive(Debug, Clone)]
pub enum KeyPress {
    KeyUp(String),
    KeyDown(String),
}

/// The held keys after one event.
pub open spec fn after_key_press(keys: Set<Seq<char>>, event: KeyPress) -> Set<Seq<char>> {
    match event {
        KeyPress::KeyUp(code) => keys.remove(code@),
        KeyPress::KeyDown(code) => keys.insert(code@),
    }
}

/// The held keys after a series of events, taken in order.
pub open spec fn after_key_presses(keys: Set<Seq<char>>, events: Seq<KeyPress>) -> Set<Seq<char>>
    decreases events.len(),
{
    if events.len() == 0 {
        keys
    } else {
        after_key_press(after_key_presses(keys, events.drop_last()), events.last())
    }
}

/// Folds the queued events, oldest first, into the snapshot.
pub fn process_input(state: &mut KeyState, events: &Vec<KeyPress>)
    ensures
        final(state)@ == after_key_presses(old(state)@, events@),
{
    let mut i: usize = 0;
    while i < events.len()
        invariant
            i <= events@.len(),
            state@ == after_key_presses(old(state)@, events@.take(i as int)),
        decreases events@.len() - i,
    {
        assert(events@.take(i + 1).drop_last() =~= events@.take(i as int));
        match &events[i] {
            KeyPress::KeyUp(code) => state.set_released(code.as_str()),
            KeyPress::KeyDown(code) => state.set_pressed(code.as_str()),
        }
        i = i + 1;
    }
    assert(events@.take(events@.len() as int) =~= events@);
}

/// Length of one logic tick in microseconds: a sixtieth of a second,
/// rounded down to whole microseconds.
pub const FRAME_SIZE: u64 = 1_000_000 / 60;

/// The number of logic ticks that `accumulated` microseconds allow: ticks
/// are taken while more than a whole tick remains.
pub open spec fn tick_count(accumulated: nat) -> nat
    decreases accumulated,
{
    if accumulated > FRAME_SIZE {
        1 + tick_count((accumulated - FRAME_SIZE) as nat)
    } else {
        0
    }
}

/// Fixed-timestep clock: the time of the last displayed frame and the time
/// not yet spent on logic ticks, both in microseconds.
pub struct GameLoop {
    pub last_frame: u64,
    pub accumulated_delta: u64,
}

/// The time to spend on ticks when the frame at `now` is displayed: the
/// time left over plus the time since the last frame. A clock reading
/// earlier than the last frame adds nothing, and the sum saturates at the
/// largest `u64`.
pub open spec fn time_to_spend(game_loop: GameLoop, now: u64) -> nat {
    let elapsed: nat = if now >= game_loop.last_frame {
        (now - game_loop.last_frame) as nat
    } else {
        0
    };
    if game_loop.accumulated_delta + elapsed > u64::MAX {
        u64::MAX as nat
    } else {
        (game_loop.accumulated_delta + elapsed) as nat
    }
}

/// The clock after the frame at `now`.
pub open spec fn loop_after(game_loop: GameLoop, now: u64) -> GameLoop {
    let total = time_to_spend(game_loop, now);
    GameLoop {
        last_frame: now,
        accumulated_delta: (total - tick_count(total) * FRAME_SIZE) as u64,
    }
}

/// A run of the game loop over displayed frames, each given by its time
/// and the keys held then: the clock and the character's state at the end,
/// and the number of logic ticks of each frame.
pub open spec fn run_frames(
    game_loop: GameLoop,
    game: Option<(Phase, RedHatBoyContext)>,
    sheet: Sheet,
    frames: Seq<(u64, Set<Seq<char>>)>,
) -> (GameLoop, Option<(Phase, RedHatBoyContext)>, Seq<nat>)
    decreases frames.len(),
{
    if frames.len() == 0 {
        (game_loop, game, Seq::empty())
    } else {
        let (loop_before, game_before, ticks) = run_frames(
            game_loop,
            game,
            sheet,
            frames.drop_last(),
        );
        let (now, keys) = frames.last();
        let n = tick_count(time_to_spend(loop_before, now));
        (loop_after(loop_before, now), run_ticks(game_before, keys, sheet, n), ticks.push(n))
    }
}

/// Two runs of the game loop from the same clock and game, over the same
/// frames with the same keys, take the same number of ticks in every frame
/// and end in the same state: nothing else enters the simulation.
pub proof fn lemma_game_loop_deterministic(
    loop_a: GameLoop,
    loop_b: GameLoop,
    game_a: Option<(Phase, RedHatBoyContext)>,
    game_b: Option<(Phase, RedHatBoyContext)>,
    sheet: Sheet,
    frames: Seq<(u64, Set<Seq<char>>)>,
)
    requires
        loop_a == loop_b,
        game_a == game_b,
    ensures
        run_frames(loop_a, game_a, sheet, frames) == run_frames(loop_b, game_b, sheet, frames),
{
}

impl GameLoop {
    /// A clock whose first frame is at `now`.
    pub fn new(now: u64) -> (r: Self)
        ensures
            r.last_frame == now,
            r.accumulated_delta == 0,
    {
        GameLoop { last_frame: now, accumulated_delta: 0 }
    }

    /// Handles the displayed frame at `now`: runs as many logic ticks of
    /// `game` as the accumulated time allows, each with the keys of
    /// `keystate`, and returns how many ran. The frame is then drawn once.
    pub fn frame<I>(&mut self, now: u64, game: &mut WalkTheDog<I>, keystate: &KeyState) -> (ticks:
        u64)
        ensures
            ticks == tick_count(time_to_spend(*old(self), now)),
            final(self).accumulated_delta == time_to_spend(*old(self), now) - ticks * FRAME_SIZE,
            final(self).last_frame == now,
            *final(self) == loop_after(*old(self), now),
            final(game)@ == run_ticks(old(game)@, keystate@, old(game).spec_sheet(), ticks as nat),
            old(game).same_scene(final(game)),
    {
        let elapsed: u64 = if now >= self.last_frame {
            now - self.last_frame
        } else {
            0
        };
        self.accumulated_delta = self.accumulated_delta.saturating_add(elapsed);
        let ghost total = self.accumulated_delta as nat;
        let ghost sheet = game.spec_sheet();
        let mut ticks: u64 = 0;
        while self.accumulated_delta > FRAME_SIZE
            invariant
                total == time_to_spend(*old(self), now),
                total <= u64::MAX,
                self.accumulated_delta == total - ticks * FRAME_SIZE,
                tick_count(total) == ticks + tick_count(self.accumulated_delta as nat),
                game@ == run_ticks(old(game)@, keystate@, sheet, ticks as nat),
                old(game).same_scene(game),
                sheet == old(game).spec_sheet(),
            decreases self.accumulated_delta,
        {
            game.update(keystate);
            self.accumulated_delta = self.accumulated_delta - FRAME_SIZE;
            assert((ticks + 1) * FRAME_SIZE == ticks * FRAME_SIZE + FRAME_SIZE) by (nonlinear_arith);
            ticks = ticks + 1;
        }
        self.last_frame = now;
        ticks
    }
}

} // verus!
