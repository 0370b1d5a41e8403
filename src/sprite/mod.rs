//! Per-state sprite metadata and the naming of sprite-sheet cells.
use crate::engine::Size;
use vstd::prelude::*;

pub mod red_hat_boy;
pub mod state;

pub use red_hat_boy::RedHatBoy;

verus! {

/// Ticks for which one sprite cell stays on screen.
pub const FRAME_TICK_RATE: u8 = 3;

/// Width of the bounding box used when the sheet has no cell for a state.
pub const DEFAULT_SPRITE_WIDTH: i16 = 64;

/// Height of the bounding box used when the sheet has no cell for a state.
pub const DEFAULT_SPRITE_HEIGHT: i16 = 64;

/// Cells of the idle animation.
pub const IDLE_FRAMES: u8 = 10;
/// Cells of the running animation.
pub const RUN_FRAMES: u8 = 8;
/// Cells of the sliding animation.
pub const SLIDE_FRAMES: u8 = 5;
/// Cells of the jumping animation.
pub const JUMP_FRAMES: u8 = 12;

/// The fallback bounding box of every state.
pub open spec fn default_sprite_size() -> Size {
    Size { width: DEFAULT_SPRITE_WIDTH, height: DEFAULT_SPRITE_HEIGHT }
}

/// The character of a decimal digit.
pub open spec fn digit_char(d: nat) -> char {
    if d == 0 {
        '0'
    } else if d == 1 {
        '1'
    } else if d == 2 {
        '2'
    } else if d == 3 {
        '3'
    } else if d == 4 {
        '4'
    } else if d == 5 {
        '5'
    } else if d == 6 {
        '6'
    } else if d == 7 {
        '7'
    } else if d == 8 {
        '8'
    } else {
        '9'
    }
}

/// The decimal notation of `n`, without leading zeros.
pub open spec fn decimal(n: nat) -> Seq<char>
    decreases n,
{
    if n < 10 {
        seq![digit_char(n)]
    } else {
        decimal(n / 10).push(digit_char(n % 10))
    }
}

/// The sheet key of the `n`-th (1-based) cell of the animation `name`:
/// `"<name> (<n>).png"`.
pub open spec fn frame_key_text(name: Seq<char>, n: nat) -> Seq<char> {
    name + seq![' ', '('] + decimal(n) + seq![')', '.', 'p', 'n', 'g']
}

/// The 1-based sheet cell shown at animation tick `tick`.
pub open spec fn frame_cell(tick: nat) -> nat {
    tick / (FRAME_TICK_RATE as nat) + 1
}

/// The last tick of an animation of `frame_count` cells, after which the
/// tick counter wraps to 0.
pub open spec fn last_tick(frame_count: nat) -> int {
    frame_count * (FRAME_TICK_RATE as int) - 1
}

/// The string of one decimal digit.
fn digit_str(d: u8) -> (r: &'static str)
    requires
        d < 10,
    ensures
        r@ == seq![digit_char(d as nat)],
{
    match d {
        0 => {
            proof {
                reveal_strlit("0");
            }
            "0"
        },
        1 => {
            proof {
                reveal_strlit("1");
            }
            "1"
        },
        2 => {
            proof {
                reveal_strlit("2");
            }
            "2"
        },
        3 => {
            proof {
                reveal_strlit("3");
            }
            "3"
        },
        4 => {
            proof {
                reveal_strlit("4");
            }
            "4"
        },
        5 => {
            proof {
                reveal_strlit("5");
            }
            "5"
        },
        6 => {
            proof {
                reveal_strlit("6");
            }
            "6"
        },
        7 => {
            proof {
                reveal_strlit("7");
            }
            "7"
        },
        8 => {
            proof {
                reveal_strlit("8");
            }
            "8"
        },
        _ => {
            proof {
                reveal_strlit("9");
            }
            "9"
        },
    }
}

/// Appends the decimal notation of `n` to `s`.
fn push_decimal(s: &mut String, n: u8)
    ensures
        final(s)@ == old(s)@ + decimal(n as nat),
{
    reveal_with_fuel(decimal, 3);
    if n >= 100 {
        s.append(digit_str(n / 100));
        s.append(digit_str(n / 10 % 10));
        s.append(digit_str(n % 10));
        assert((n as nat / 10) / 10 == n as nat / 100);
    } else if n >= 10 {
        s.append(digit_str(n / 10));
        s.append(digit_str(n % 10));
    } else {
        s.append(digit_str(n));
    }
}

/// Over one animation cycle the cell shown never moves backwards, the
/// cycle starts at cell 1, and every tick shows one of the animation's cells.
pub proof fn lemma_frame_cells_in_order<S: SpriteState>(t1: nat, t2: nat)
    requires
        t1 <= t2 <= last_tick(S::spec_frame_count()),
    ensures
        frame_cell(t1) <= frame_cell(t2),
        frame_cell(0) == 1,
        1 <= frame_cell(t2) <= S::spec_frame_count(),
{
    let count = S::spec_frame_count();
    assert(t1 / 3 <= t2 / 3) by (nonlinear_arith)
        requires
            t1 <= t2,
    ;
    assert(t2 / 3 < count) by (nonlinear_arith)
        requires
            t2 < count * 3,
    ;
}

/// Static description of one animation: how many cells it has, how many
/// ticks each cell is held, and the bounding box to fall back on.
pub struct SpriteMetaData {
    frame_count: u8,
    pub animation_speed: u8,
    pub default_size: Size,
}

impl SpriteMetaData {
    /// Number of cells in the animation.
    pub closed spec fn frames(self) -> nat {
        self.frame_count as nat
    }

    /// Ticks each cell is held.
    pub closed spec fn speed(self) -> u8 {
        self.animation_speed
    }

    /// Bounding box used when the sheet has no cell for the animation.
    pub closed spec fn fallback_size(self) -> Size {
        self.default_size
    }

    #[verifier::type_invariant]
    spec fn has_cells(self) -> bool {
        self.frame_count > 0
    }

    /// Metadata of an animation of `frame_count` cells; an animation
    /// without cells is a content error and cannot be described.
    pub fn new(frame_count: u8) -> (r: Self)
        requires
            frame_count > 0,
        ensures
            r.frames() == frame_count,
            r.speed() == FRAME_TICK_RATE,
            r.fallback_size() == default_sprite_size(),
    {
        SpriteMetaData {
            frame_count,
            animation_speed: FRAME_TICK_RATE,
            default_size: Size { width: DEFAULT_SPRITE_WIDTH, height: DEFAULT_SPRITE_HEIGHT },
        }
    }

    /// Number of cells in the animation, never 0.
    pub fn frame_count(&self) -> (r: u8)
        ensures
            r == self.frames(),
            r > 0,
    {
        proof {
            use_type_invariant(self);
        }
        self.frame_count
    }
}

/// What each character state knows of its own animation.
pub trait SpriteState {
    /// The animation's name in the sheet.
    spec fn spec_name() -> Seq<char>;

    /// The animation's number of cells.
    spec fn spec_frame_count() -> nat;

    /// Every animation has at least one cell, and its ticks fit in a `u8`.
    proof fn lemma_frame_count_bounds()
        ensures
            0 < Self::spec_frame_count(),
            last_tick(Self::spec_frame_count()) <= u8::MAX,
    ;

    fn name() -> (r: &'static str)
        ensures
            r@ == Self::spec_name(),
    ;

    fn metadata() -> (r: SpriteMetaData)
        ensures
            r.frames() == Self::spec_frame_count(),
            r.speed() == FRAME_TICK_RATE,
            r.fallback_size() == default_sprite_size(),
    ;

    /// The sheet key of cell `frame` (1-based) of this animation.
    fn frame_key(frame: u8) -> (r: String)
        ensures
            r@ == frame_key_text(Self::spec_name(), frame as nat),
    {
        let mut key = Self::name().to_owned();
        key.append(" (");
        push_decimal(&mut key, frame);
        key.append(").png");
        proof {
            reveal_strlit(" (");
            reveal_strlit(").png");
            assert(key@ =~= frame_key_text(Self::spec_name(), frame as nat));
        }
        key
    }

    /// The last tick of the animation before the counter wraps to 0.
    fn total_frames() -> (r: u8)
        ensures
            r == last_tick(Self::spec_frame_count()),
    {
        let metadata = Self::metadata();
        proof {
            Self::lemma_frame_count_bounds();
        }
        metadata.frame_count() * metadata.animation_speed - 1
    }

    /// The sheet key of the cell shown at tick `frame`.
    fn current_frame_name(frame: u8) -> (r: String)
        ensures
            r@ == frame_key_text(Self::spec_name(), frame_cell(frame as nat)),
    {
        Self::frame_key(frame / FRAME_TICK_RATE + 1)
    }
}

#[derive(Debug, Copy, Clone)]
pub struct Idle;

#[derive(Debug, Copy, Clone)]
pub struct Running;

#[derive(Debug, Copy, Clone)]
pub struct Sliding;

#[derive(Debug, Copy, Clone)]
pub struct Jumping;

impl SpriteState for Idle {
    open spec fn spec_name() -> Seq<char> {
        seq!['I', 'd', 'l', 'e']
    }

    open spec fn spec_frame_count() -> nat {
        IDLE_FRAMES as nat
    }

    proof fn lemma_frame_count_bounds() {
    }

    fn name() -> (r: &'static str) {
        proof {
            reveal_strlit("Idle");
        }
        "Idle"
    }

    fn metadata() -> (r: SpriteMetaData) {
        SpriteMetaData::new(IDLE_FRAMES)
    }
}

impl SpriteState for Running {
    open spec fn spec_name() -> Seq<char> {
        seq!['R', 'u', 'n']
    }

    open spec fn spec_frame_count() -> nat {
        RUN_FRAMES as nat
    }

    proof fn lemma_frame_count_bounds() {
    }

    fn name() -> (r: &'static str) {
        proof {
            reveal_strlit("Run");
        }
        "Run"
    }

    fn metadata() -> (r: SpriteMetaData) {
        SpriteMetaData::new(RUN_FRAMES)
    }
}

impl SpriteState for Sliding {
    open spec fn spec_name() -> Seq<char> {
        seq!['S', 'l', 'i', 'd', 'e']
    }

    open spec fn spec_frame_count() -> nat {
        SLIDE_FRAMES as nat
    }

    proof fn lemma_frame_count_bounds() {
    }

    fn name() -> (r: &'static str) {
        proof {
            reveal_strlit("Slide");
        }
        "Slide"
    }

    fn metadata() -> (r: SpriteMetaData) {
        SpriteMetaData::new(SLIDE_FRAMES)
    }
}

impl SpriteState for Jumping {
    open spec fn spec_name() -> Seq<char> {
        seq!['J', 'u', 'm', 'p']
    }

    open spec fn spec_frame_count() -> nat {
        JUMP_FRAMES as nat
    }

    proof fn lemma_frame_count_bounds() {
    }

    fn name() -> (r: &'static str) {
        proof {
            reveal_strlit("Jump");
        }
        "Jump"
    }

    fn metadata() -> (r: SpriteMetaData) {
        SpriteMetaData::new(JUMP_FRAMES)
    }
}

} // verus!
