//! The character: a state machine over its four states, driven by events,
//! with its sizes looked up in the shared sprite sheet.
use crate::engine::{Point, Rect, Sheet, Size};
use crate::sprite::state::{
    initial_context, jump_context, next_context, restarted, run_context, slide_context, IsJumping,
    IsSliding, RedHatBoyContext, RedHatBoyState, FLOOR,
};
use crate::sprite::{
    default_sprite_size, frame_cell, frame_key_text, last_tick, Idle, Jumping, Running, Sliding,
    SpriteState,
};
use std::rc::Rc;
use vstd::prelude::*;

verus! {

/// What can happen to the character.
#[derive(Debug, Copy, Clone, PartialEq, Eq, Structural)]
pub enum Event {
    Run,
    Slide,
    Jump,
    Update,
}

/// Which of its states the character is in.
#[derive(Debug, Copy, Clone, PartialEq, Eq, Structural)]
pub enum Phase {
    Idle,
    Running,
    Sliding,
    Jumping,
}

/// The name under which the sheet holds the animation of `phase`.
pub open spec fn phase_name(phase: Phase) -> Seq<char> {
    match phase {
        Phase::Idle => Idle::spec_name(),
        Phase::Running => Running::spec_name(),
        Phase::Sliding => Sliding::spec_name(),
        Phase::Jumping => Jumping::spec_name(),
    }
}

/// The last animation tick of `phase`.
pub open spec fn phase_last_tick(phase: Phase) -> int {
    match phase {
        Phase::Idle => last_tick(Idle::spec_frame_count()),
        Phase::Running => last_tick(Running::spec_frame_count()),
        Phase::Sliding => last_tick(Sliding::spec_frame_count()),
        Phase::Jumping => last_tick(Jumping::spec_frame_count()),
    }
}

/// The bounding box of state `S`: the size of its first cell in the sheet,
/// or the state's default size where the sheet has no such cell.
pub open spec fn size_for<S: SpriteState>(sheet: &Sheet) -> Size {
    match sheet.spec_cell(frame_key_text(S::spec_name(), 1)) {
        Some(cell) => Size { width: cell.frame.w, height: cell.frame.h },
        None => default_sprite_size(),
    }
}

/// The state after `event` in state `m`. Sizing transitions read `sheet`;
/// a pair of state and event that the table does not list leaves the state
/// as it is.
pub open spec fn next_state(
    m: (Phase, RedHatBoyContext),
    event: Event,
    sheet: Option<&Sheet>,
) -> (Phase, RedHatBoyContext) {
    let (phase, c) = m;
    match (phase, event) {
        (Phase::Idle, Event::Run) => (Phase::Running, run_context(c, size_for::<Running>(sheet->0))),
        (Phase::Running, Event::Slide) => (
            Phase::Sliding,
            slide_context(c, size_for::<Sliding>(sheet->0)),
        ),
        (Phase::Running, Event::Jump) => (
            Phase::Jumping,
            jump_context(c, size_for::<Jumping>(sheet->0)),
        ),
        (Phase::Sliding, Event::Update) => {
            let n = next_context(c, phase_last_tick(Phase::Sliding) as u8);
            if n.frame >= phase_last_tick(Phase::Sliding) {
                (Phase::Running, restarted(n))
            } else {
                (Phase::Sliding, n)
            }
        },
        (Phase::Jumping, Event::Update) => {
            let n = next_context(c, phase_last_tick(Phase::Jumping) as u8);
            if n.position.y >= FLOOR {
                (Phase::Running, restarted(n))
            } else {
                (Phase::Jumping, n)
            }
        },
        (_, Event::Update) => (phase, next_context(c, phase_last_tick(phase) as u8)),
        _ => m,
    }
}

/// Whether `event` in `phase` resizes the character, and so reads the sheet.
pub open spec fn needs_sheet(phase: Phase, event: Event) -> bool {
    ||| phase == Phase::Idle && event == Event::Run
    ||| phase == Phase::Running && event == Event::Slide
    ||| phase == Phase::Running && event == Event::Jump
}

/// Every transition that changes the state enters a state other than Idle
/// and restarts the animation at tick 0.
pub proof fn lemma_entering_state_restarts_animation(
    m: (Phase, RedHatBoyContext),
    event: Event,
    sheet: Option<&Sheet>,
)
    ensures
        next_state(m, event, sheet).0 != m.0 ==> {
            &&& next_state(m, event, sheet).0 != Phase::Idle
            &&& next_state(m, event, sheet).1.frame == 0
        },
{
}

/// After an Update, in any state, the character is not below the floor.
pub proof fn lemma_state_update_stays_above_floor(m: (Phase, RedHatBoyContext))
    ensures
        next_state(m, Event::Update, None).1.position.y <= FLOOR,
{
}

/// The character in one of its four states.
#[derive(Debug, Copy, Clone)]
pub enum RedHatBoyStateMachine {
    Idle(RedHatBoyState<Idle>),
    Running(RedHatBoyState<Running>),
    Sliding(RedHatBoyState<Sliding>),
    Jumping(RedHatBoyState<Jumping>),
}

impl View for RedHatBoyStateMachine {
    type V = (Phase, RedHatBoyContext);

    open spec fn view(&self) -> (Phase, RedHatBoyContext) {
        match self {
            RedHatBoyStateMachine::Idle(s) => (Phase::Idle, s@),
            RedHatBoyStateMachine::Running(s) => (Phase::Running, s@),
            RedHatBoyStateMachine::Sliding(s) => (Phase::Sliding, s@),
            RedHatBoyStateMachine::Jumping(s) => (Phase::Jumping, s@),
        }
    }
}

impl From<IsJumping> for RedHatBoyStateMachine {
    fn from(is_jumping: IsJumping) -> (r: Self) {
        match is_jumping {
            IsJumping::Done(running_state) => RedHatBoyStateMachine::Running(running_state),
            IsJumping::InProgress(jumping_state) => RedHatBoyStateMachine::Jumping(jumping_state),
        }
    }
}

impl vstd::std_specs::convert::FromSpecImpl<IsJumping> for RedHatBoyStateMachine {
    open spec fn obeys_from_spec() -> bool {
        true
    }

    open spec fn from_spec(is_jumping: IsJumping) -> Self {
        match is_jumping {
            IsJumping::Done(running_state) => RedHatBoyStateMachine::Running(running_state),
            IsJumping::InProgress(jumping_state) => RedHatBoyStateMachine::Jumping(jumping_state),
        }
    }
}

impl From<IsSliding> for RedHatBoyStateMachine {
    fn from(is_sliding: IsSliding) -> (r: Self) {
        match is_sliding {
            IsSliding::Done(running_state) => RedHatBoyStateMachine::Running(running_state),
            IsSliding::InProgress(sliding_state) => RedHatBoyStateMachine::Sliding(sliding_state),
        }
    }
}

impl vstd::std_specs::convert::FromSpecImpl<IsSliding> for RedHatBoyStateMachine {
    open spec fn obeys_from_spec() -> bool {
        true
    }

    open spec fn from_spec(is_sliding: IsSliding) -> Self {
        match is_sliding {
            IsSliding::Done(running_state) => RedHatBoyStateMachine::Running(running_state),
            IsSliding::InProgress(sliding_state) => RedHatBoyStateMachine::Sliding(sliding_state),
        }
    }
}

impl RedHatBoyStateMachine {
    /// The state after `event`. The sheet is needed, and must be given,
    /// only where the event resizes the character.
    pub fn transition(self, event: Event, sheet: Option<&Sheet>) -> (r: Self)
        requires
            needs_sheet(self@.0, event) ==> sheet is Some,
        ensures
            r@ == next_state(self@, event, sheet),
    {
        match event {
            Event::Run => match self {
                RedHatBoyStateMachine::Idle(state) => {
                    let size = Self::get_size_for_state::<Running>(sheet.unwrap());
                    RedHatBoyStateMachine::Running(state.run(size))
                },
                other => other,
            },
            Event::Slide => match self {
                RedHatBoyStateMachine::Running(state) => {
                    let size = Self::get_size_for_state::<Sliding>(sheet.unwrap());
                    RedHatBoyStateMachine::Sliding(state.slide(size))
                },
                other => other,
            },
            Event::Jump => match self {
                RedHatBoyStateMachine::Running(state) => {
                    let size = Self::get_size_for_state::<Jumping>(sheet.unwrap());
                    RedHatBoyStateMachine::Jumping(state.jump(size))
                },
                other => other,
            },
            Event::Update => match self {
                RedHatBoyStateMachine::Idle(state) => RedHatBoyStateMachine::Idle(state.update()),
                RedHatBoyStateMachine::Running(state) => RedHatBoyStateMachine::Running(
                    state.update(),
                ),
                RedHatBoyStateMachine::Sliding(state) => RedHatBoyStateMachine::from(
                    state.update(),
                ),
                RedHatBoyStateMachine::Jumping(state) => RedHatBoyStateMachine::from(
                    state.update(),
                ),
            },
        }
    }

    /// The bounding box of state `S`: its first cell's size in the sheet,
    /// else its default size.
    pub fn get_size_for_state<S: SpriteState>(sheet: &Sheet) -> (r: Size)
        ensures
            r == size_for::<S>(sheet),
    {
        let frame_key = S::frame_key(1);
        match sheet.cell(&frame_key) {
            Some(cell) => Size { width: cell.frame.w, height: cell.frame.h },
            None => S::metadata().default_size,
        }
    }

    /// One tick of the current state.
    pub fn update(self) -> (r: Self)
        ensures
            r@ == next_state(self@, Event::Update, None),
    {
        self.transition(Event::Update, None)
    }

    pub fn context(&self) -> (r: &RedHatBoyContext)
        ensures
            *r == self@.1,
    {
        match self {
            RedHatBoyStateMachine::Idle(state) => state.context(),
            RedHatBoyStateMachine::Running(state) => state.context(),
            RedHatBoyStateMachine::Sliding(state) => state.context(),
            RedHatBoyStateMachine::Jumping(state) => state.context(),
        }
    }
}


/// The sheet key of the cell that state `m` shows.
pub open spec fn frame_name_of(m: (Phase, RedHatBoyContext)) -> Seq<char> {
    frame_key_text(phase_name(m.0), frame_cell(m.1.frame as nat))
}

/// The player's character: its state, the shared sprite sheet, and the
/// atlas image it is drawn from.
pub struct RedHatBoy<I> {
    state: RedHatBoyStateMachine,
    sheet: Rc<Sheet>,
    image: I,
}

impl<I> View for RedHatBoy<I> {
    type V = (Phase, RedHatBoyContext);

    closed spec fn view(&self) -> (Phase, RedHatBoyContext) {
        self.state@
    }
}

impl<I> RedHatBoy<I> {
    /// The sprite sheet the character is sized and drawn by.
    pub closed spec fn spec_sheet(&self) -> Sheet {
        *self.sheet
    }

    /// The atlas image the character is drawn from.
    pub closed spec fn spec_image(&self) -> I {
        self.image
    }

    /// A character standing idle, sized by the sheet's first Idle cell.
    pub fn new(sheet: Sheet, image: I) -> (r: Self)
        ensures
            r@ == (Phase::Idle, initial_context(size_for::<Idle>(&sheet))),
            r.spec_sheet() == sheet,
            r.spec_image() == image,
    {
        let sheet = Rc::new(sheet);
        let bounding_box_size = RedHatBoyStateMachine::get_size_for_state::<Idle>(&sheet);
        RedHatBoy {
            state: RedHatBoyStateMachine::Idle(RedHatBoyState::new(bounding_box_size)),
            sheet,
            image,
        }
    }

    /// One tick of the character's current state.
    pub fn update(&mut self)
        ensures
            final(self)@ == next_state(old(self)@, Event::Update, None),
            final(self).spec_sheet() == old(self).spec_sheet(),
            final(self).spec_image() == old(self).spec_image(),
    {
        self.state = self.state.update();
    }

    /// Starts running, where the character is idle.
    pub fn run_right(&mut self)
        ensures
            final(self)@ == next_state(old(self)@, Event::Run, Some(&old(self).spec_sheet())),
            final(self).spec_sheet() == old(self).spec_sheet(),
            final(self).spec_image() == old(self).spec_image(),
    {
        self.state = self.state.transition(Event::Run, Some(&self.sheet));
    }

    /// Starts a slide, where the character is running.
    pub fn slide(&mut self)
        ensures
            final(self)@ == next_state(old(self)@, Event::Slide, Some(&old(self).spec_sheet())),
            final(self).spec_sheet() == old(self).spec_sheet(),
            final(self).spec_image() == old(self).spec_image(),
    {
        self.state = self.state.transition(Event::Slide, Some(&self.sheet));
    }

    /// Starts a jump, where the character is running.
    pub fn jump(&mut self)
        ensures
            final(self)@ == next_state(old(self)@, Event::Jump, Some(&old(self).spec_sheet())),
            final(self).spec_sheet() == old(self).spec_sheet(),
            final(self).spec_image() == old(self).spec_image(),
    {
        self.state = self.state.transition(Event::Jump, Some(&self.sheet));
    }

    pub fn position(&self) -> (r: Point)
        ensures
            r == self@.1.position,
    {
        self.state.context().position
    }

    pub fn bounding_box_size(&self) -> (r: Size)
        ensures
            r == self@.1.bounding_box_size,
    {
        self.state.context().bounding_box_size
    }

    /// The sheet key of the cell to draw now.
    pub fn get_current_frame_name(&self) -> (r: String)
        ensures
            r@ == frame_name_of(self@),
    {
        let frame = self.state.context().frame;
        match self.state {
            RedHatBoyStateMachine::Idle(_) => Idle::current_frame_name(frame),
            RedHatBoyStateMachine::Running(_) => Running::current_frame_name(frame),
            RedHatBoyStateMachine::Sliding(_) => Sliding::current_frame_name(frame),
            RedHatBoyStateMachine::Jumping(_) => Jumping::current_frame_name(frame),
        }
    }

    /// What to draw now: the current cell's rectangle in the atlas, and the
    /// rectangle of the same size at the character's position; `None` where
    /// the sheet has no such cell.
    pub fn sprite_rects(&self) -> (r: Option<(Rect, Rect)>)
        ensures
            match self.spec_sheet().spec_cell(frame_name_of(self@)) {
                None => r is None,
                Some(cell) => r == Some(
                    (
                        Rect {
                            position: Point { x: cell.frame.x, y: cell.frame.y },
                            size: Size { width: cell.frame.w, height: cell.frame.h },
                        },
                        Rect {
                            position: self@.1.position,
                            size: Size { width: cell.frame.w, height: cell.frame.h },
                        },
                    ),
                ),
            },
    {
        let frame_name = self.get_current_frame_name();
        match self.sheet.cell(&frame_name) {
            None => None,
            Some(sprite) => {
                let size = Size { width: sprite.frame.w, height: sprite.frame.h };
                Some(
                    (
                        Rect::new(Point { x: sprite.frame.x, y: sprite.frame.y }, size),
                        Rect::new(self.position(), size),
                    ),
                )
            },
        }
    }

    /// The atlas image the character is drawn from.
    pub fn image(&self) -> (r: &I)
        ensures
            *r == self.spec_image(),
    {
        &self.image
    }
}

} // verus!
