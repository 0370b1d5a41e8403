//! The scene: the character, a background and a stone, steered by the keys.
use crate::engine::{Image, KeyState, Sheet};
use crate::sprite::red_hat_boy::{next_state, Event, Phase, RedHatBoy};
use crate::sprite::state::RedHatBoyContext;
use vstd::prelude::*;

verus! {

/// Code of the key that starts a run.
pub open spec fn run_key() -> Seq<char> {
    seq!['A', 'r', 'r', 'o', 'w', 'R', 'i', 'g', 'h', 't']
}

/// Code of the key that starts a slide.
pub open spec fn slide_key() -> Seq<char> {
    seq!['A', 'r', 'r', 'o', 'w', 'D', 'o', 'w', 'n']
}

/// Code of the key that starts a jump.
pub open spec fn jump_key() -> Seq<char> {
    seq!['S', 'p', 'a', 'c', 'e']
}

/// One logic tick of the character: Run, Slide and Jump, each where its key
/// is held, then Update.
pub open spec fn boy_tick(
    m: (Phase, RedHatBoyContext),
    keys: Set<Seq<char>>,
    sheet: Sheet,
) -> (Phase, RedHatBoyContext) {
    let m1 = if keys.contains(run_key()) {
        next_state(m, Event::Run, Some(&sheet))
    } else {
        m
    };
    let m2 = if keys.contains(slide_key()) {
        next_state(m1, Event::Slide, Some(&sheet))
    } else {
        m1
    };
    let m3 = if keys.contains(jump_key()) {
        next_state(m2, Event::Jump, Some(&sheet))
    } else {
        m2
    };
    next_state(m3, Event::Update, None)
}

/// One logic tick of the game: nothing happens while it is loading.
pub open spec fn game_tick(
    g: Option<(Phase, RedHatBoyContext)>,
    keys: Set<Seq<char>>,
    sheet: Sheet,
) -> Option<(Phase, RedHatBoyContext)> {
    match g {
        None => None,
        Some(m) => Some(boy_tick(m, keys, sheet)),
    }
}

/// The game after `n` logic ticks with the same keys held.
pub open spec fn run_ticks(
    g: Option<(Phase, RedHatBoyContext)>,
    keys: Set<Seq<char>>,
    sheet: Sheet,
    n: nat,
) -> Option<(Phase, RedHatBoyContext)>
    decreases n,
{
    if n == 0 {
        g
    } else {
        game_tick(run_ticks(g, keys, sheet, (n - 1) as nat), keys, sheet)
    }
}

/// The loaded scene.
pub struct Walk<I> {
    pub boy: RedHatBoy<I>,
    pub background: Image<I>,
    pub stone: Image<I>,
}

/// The game: loading its assets, then running.
pub enum WalkTheDog<I> {
    Loading,
    Loaded(Walk<I>),
}

impl<I> View for WalkTheDog<I> {
    type V = Option<(Phase, RedHatBoyContext)>;

    /// The character's state, once loaded.
    open spec fn view(&self) -> Option<(Phase, RedHatBoyContext)> {
        match self {
            WalkTheDog::Loading => None,
            WalkTheDog::Loaded(walk) => Some(walk.boy@),
        }
    }
}

impl<I> WalkTheDog<I> {
    /// The sheet the character is sized by, once loaded.
    pub open spec fn spec_sheet(&self) -> Sheet {
        match self {
            WalkTheDog::Loading => arbitrary(),
            WalkTheDog::Loaded(walk) => walk.boy.spec_sheet(),
        }
    }

    /// Whether `self` and `other` differ at most in the character's state.
    pub open spec fn same_scene(&self, other: &Self) -> bool {
        match (self, other) {
            (WalkTheDog::Loading, WalkTheDog::Loading) => true,
            (WalkTheDog::Loaded(a), WalkTheDog::Loaded(b)) => {
                &&& a.boy.spec_sheet() == b.boy.spec_sheet()
                &&& a.boy.spec_image() == b.boy.spec_image()
                &&& a.background == b.background
                &&& a.stone == b.stone
            },
            _ => false,
        }
    }

    pub fn new() -> (r: Self)
        ensures
            r is Loading,
    {
        WalkTheDog::Loading
    }

    /// One logic tick, steered by the keys held in `keystate`.
    pub fn update(&mut self, keystate: &KeyState)
        ensures
            final(self)@ == game_tick(old(self)@, keystate@, old(self).spec_sheet()),
            old(self).same_scene(final(self)),
    {
        if let WalkTheDog::Loaded(walk) = self {
            let ghost sheet = walk.boy.spec_sheet();
            let ghost m0 = walk.boy@;
            proof {
                reveal_strlit("ArrowRight");
                reveal_strlit("ArrowDown");
                reveal_strlit("Space");
                assert("ArrowRight"@ == run_key());
                assert("ArrowDown"@ == slide_key());
                assert("Space"@ == jump_key());
            }
            if keystate.is_pressed("ArrowRight") {
                walk.boy.run_right();
            }
            let ghost m1 = walk.boy@;
            assert(m1 == if keystate@.contains(run_key()) {
                next_state(m0, Event::Run, Some(&sheet))
            } else {
                m0
            });
            if keystate.is_pressed("ArrowDown") {
                walk.boy.slide();
            }
            let ghost m2 = walk.boy@;
            assert(m2 == if keystate@.contains(slide_key()) {
                next_state(m1, Event::Slide, Some(&sheet))
            } else {
                m1
            });
            if keystate.is_pressed("Space") {
                walk.boy.jump();
            }
            let ghost m3 = walk.boy@;
            assert(m3 == if keystate@.contains(jump_key()) {
                next_state(m2, Event::Jump, Some(&sheet))
            } else {
                m2
            });
            walk.boy.update();
            assert(walk.boy@ == boy_tick(m0, keystate@, sheet));
        }
    }
}

} // verus!
