use vstd::prelude::*;

use crate::config::file_loader::{FileLoader, LoaderNames};
use crate::config::listing::{listed_from_conf, spec_listed_from_conf, Listable};
use crate::config::parse::FromConfig;
use crate::config::{ConfigError, ConfigParseError};

verus! {

/// How much of a field a team can see, from the most to the least.
#[derive(Debug, Clone, Copy, PartialEq, Eq, Structural, Hash)]
pub enum FogIntensity {
    /// even stealthed units are visible
    TrueSight,
    /// stealth is hidden, some terrain may hide units, the rest is visible
    NormalVision,
    /// terrain is grey, unit types and owners are hidden for non-structures
    Light,
    /// structures are visible, other units are hidden
    Dark,
}

impl Listable for FogIntensity {
    open spec fn spec_list() -> Seq<Self> {
        seq![Self::TrueSight, Self::NormalVision, Self::Light, Self::Dark]
    }

    open spec fn spec_name(self) -> Seq<char> {
        match self {
            Self::TrueSight => "TrueSight"@,
            Self::NormalVision => "NormalVision"@,
            Self::Light => "Light"@,
            Self::Dark => "Dark"@,
        }
    }

    open spec fn spec_kind_name() -> Seq<char> {
        "FogIntensity"@
    }

    fn list() -> (r: Vec<Self>) {
        vec![Self::TrueSight, Self::NormalVision, Self::Light, Self::Dark]
    }

    fn name(&self) -> (r: &'static str) {
        match self {
            Self::TrueSight => "TrueSight",
            Self::NormalVision => "NormalVision",
            Self::Light => "Light",
            Self::Dark => "Dark",
        }
    }

    fn kind_name() -> (r: &'static str) {
        "FogIntensity"
    }
}

impl FromConfig for FogIntensity {
    open spec fn spec_from_conf(s: Seq<char>, names: LoaderNames) -> Result<(Self, Seq<char>), ConfigError> {
        spec_listed_from_conf::<Self>(s)
    }

    fn from_conf<'a>(s: &'a [char], loader: &FileLoader) -> (r: Result<(Self, &'a [char]), ConfigParseError>) {
        listed_from_conf(s)
    }
}

/// How dark the fog of war is; the number is extra vision range.
#[derive(Debug, Clone, Copy, PartialEq, Eq, Structural)]
pub enum FogSetting {
    /// no fog
    NoFog,
    /// the highest intensity is half
    Light(u8),
    /// the highest intensity is full, without half intensity
    Sharp(u8),
    /// the outer-most layer of vision is replaced by half vision
    Fade1(u8),
    /// the two outer-most layers of vision are replaced by half vision
    Fade2(u8),
    /// normal vision is replaced by half vision
    ExtraDark(u8),
}

impl FogSetting {
    /// The strongest fog this setting puts on a field.
    pub open spec fn spec_intensity(self) -> FogIntensity {
        match self {
            FogSetting::NoFog => FogIntensity::TrueSight,
            FogSetting::Light(_) => FogIntensity::Light,
            _ => FogIntensity::Dark,
        }
    }

    pub fn intensity(&self) -> (r: FogIntensity)
        ensures
            r == self.spec_intensity(),
    {
        match self {
            FogSetting::NoFog => FogIntensity::TrueSight,
            FogSetting::Light(_) => FogIntensity::Light,
            _ => FogIntensity::Dark,
        }
    }
}

/// The settings a fog gradient passes through, from bright to dark.
#[derive(Debug, Clone, Copy, PartialEq, Eq, Structural)]
pub enum FogGradient {
    WithNone,
    Dark,
    Light,
    Large,
}

impl FogGradient {
    pub open spec fn spec_steps(self) -> Seq<FogSetting> {
        match self {
            FogGradient::WithNone => seq![FogSetting::NoFog, FogSetting::Sharp(2), FogSetting::Sharp(1), FogSetting::Sharp(0)],
            FogGradient::Dark => seq![FogSetting::Fade1(2), FogSetting::Fade2(1), FogSetting::ExtraDark(0)],
            FogGradient::Light => seq![FogSetting::Light(0), FogSetting::Fade2(3), FogSetting::Fade2(1)],
            FogGradient::Large => seq![
                FogSetting::Light(0),
                FogSetting::Fade2(3),
                FogSetting::Fade2(2),
                FogSetting::Fade2(1),
                FogSetting::Fade2(0),
                FogSetting::ExtraDark(0),
            ],
        }
    }

    pub fn steps(&self) -> (r: Vec<FogSetting>)
        ensures
            r@ == self.spec_steps(),
    {
        match self {
            FogGradient::WithNone => vec![FogSetting::NoFog, FogSetting::Sharp(2), FogSetting::Sharp(1), FogSetting::Sharp(0)],
            FogGradient::Dark => vec![FogSetting::Fade1(2), FogSetting::Fade2(1), FogSetting::ExtraDark(0)],
            FogGradient::Light => vec![FogSetting::Light(0), FogSetting::Fade2(3), FogSetting::Fade2(1)],
            FogGradient::Large => vec![
                FogSetting::Light(0),
                FogSetting::Fade2(3),
                FogSetting::Fade2(2),
                FogSetting::Fade2(1),
                FogSetting::Fade2(0),
                FogSetting::ExtraDark(0),
            ],
        }
    }
}

/// How the fog changes over the turns: constant, or moving back and forth
/// along a gradient, staying `bright` turns at its bright end and `dark`
/// turns at its dark end, and starting at the dark end where asked.
#[derive(Debug, Clone, Copy, PartialEq, Eq, Structural)]
pub enum FogMode {
    Constant(FogSetting),
    GradientWithNone(u8, u8, bool),
    GradientDark(u8, u8, bool),
    GradientLight(u8, u8, bool),
    GradientLarge(u8, u8, bool),
}

/// Turns spent in the middle of a gradient with `len` steps on the way in
/// one direction: every intermediate step is used the same number of
/// times, as often as fits in `player_count - 1` turns, but at least once.
pub open spec fn spec_intermediate_turns(len: nat, player_count: nat) -> nat {
    let k = (len - 2) as nat;
    let times = (player_count - 1) as nat / k;
    (if times >= 1 { times } else { 1 }) * k
}

/// Whether the numbers for a gradient of `len` steps fit in `usize`.
pub open spec fn gradient_fits(len: nat, bright: u8, dark: u8, player_count: nat) -> bool {
    let g = spec_intermediate_turns(len, player_count);
    &&& bright + dark + 2 * g <= usize::MAX
    &&& g * (len - 2) <= usize::MAX
}

/// Every intermediate setting is used K times, such that the result is the
/// biggest value not above `player_count - 1`, or one round.
pub fn intermediate_turns(gradient: &[FogSetting], player_count: usize) -> (r: usize)
    requires
        gradient@.len() > 2,
        player_count >= 1,
    ensures
        r == spec_intermediate_turns(gradient@.len(), player_count as nat),
        r >= gradient@.len() - 2,
{
    let k = gradient.len() - 2;
    let fitting = (player_count - 1) / k;
    let times = if fitting >= 1 { fitting } else { 1 };
    assert(times * k >= k) by (nonlinear_arith) requires times >= 1, k >= 1;
    assert(times * k <= usize::MAX) by {
        if fitting >= 1 {
            let t = fitting as int;
            let kk = k as int;
            let pc = player_count as int;
            assert(t * kk <= pc - 1) by (nonlinear_arith)
                requires t == (pc - 1) / kk, kk >= 1, pc >= 1;
        }
    }
    times * k
}

/// The setting of a gradient at `turn`: the cycle is `bright` turns at the
/// first step, the intermediate steps on the way to the dark end, `dark`
/// turns at the last step and the intermediate steps back; a fog that
/// starts dark is ahead by `bright` turns and the way to the dark end.
pub open spec fn spec_gradient_progress(gradient: Seq<FogSetting>, bright: u8, dark: u8, start_dark: bool, turn: nat, player_count: nat) -> FogSetting {
    let g = spec_intermediate_turns(gradient.len(), player_count) as int;
    let progress: int = if start_dark { turn + bright + g } else { turn as int };
    let cycle: int = bright + dark + 2 * g;
    let p = progress % cycle;
    if p < bright {
        gradient[0]
    } else if p < bright + g {
        gradient[1 + (p - bright) * (gradient.len() - 2) / g]
    } else if p < bright + g + dark {
        gradient[gradient.len() - 1]
    } else {
        gradient[1 + (cycle - p - 1) * (gradient.len() - 2) / g]
    }
}

proof fn lemma_step_in_range(q: int, k: int, g: int)
    requires
        0 <= q < g,
        k >= 1,
        g >= 1,
    ensures
        0 <= q * k / g < k,
{
    assert(q * k < g * k) by (nonlinear_arith) requires 0 <= q < g, k >= 1;
    assert(q * k >= 0) by (nonlinear_arith) requires q >= 0, k >= 1;
    assert(q * k / g < k) by (nonlinear_arith) requires q * k < g * k, g >= 1, q * k >= 0;
    assert(q * k / g >= 0) by (nonlinear_arith) requires q * k >= 0, g >= 1;
}

pub fn gradient_progress(gradient: &[FogSetting], bright: u8, dark: u8, start_dark: bool, turn: usize, player_count: usize) -> (r: FogSetting)
    requires
        gradient@.len() > 2,
        player_count >= 1,
        gradient_fits(gradient@.len(), bright, dark, player_count as nat),
        turn + bright + spec_intermediate_turns(gradient@.len(), player_count as nat) <= usize::MAX,
    ensures
        r == spec_gradient_progress(gradient@, bright, dark, start_dark, turn as nat, player_count as nat),
{
    let g = intermediate_turns(gradient, player_count);
    let k = gradient.len() - 2;
    let mut progress = turn;
    if start_dark {
        progress = progress + bright as usize + g;
    }
    let cycle = bright as usize + dark as usize + 2 * g;
    let p = progress % cycle;
    if p < bright as usize {
        gradient[0]
    } else if p < bright as usize + g {
        let q = p - bright as usize;
        proof { lemma_step_in_range(q as int, k as int, g as int); }
        assert(q * k <= g * k) by (nonlinear_arith) requires q < g, k >= 1;
        gradient[1 + q * k / g]
    } else if p < bright as usize + g + dark as usize {
        gradient[gradient.len() - 1]
    } else {
        let q = cycle - p - 1;
        proof { lemma_step_in_range(q as int, k as int, g as int); }
        assert(q * k <= g * k) by (nonlinear_arith) requires q < g, k >= 1;
        gradient[1 + q * k / g]
    }
}

impl FogMode {
    /// The gradient of a changing fog, with its durations and whether it
    /// starts dark.
    pub open spec fn spec_gradient(self) -> Option<(FogGradient, u8, u8, bool)> {
        match self {
            FogMode::Constant(_) => None,
            FogMode::GradientWithNone(b, d, s) => Some((FogGradient::WithNone, b, d, s)),
            FogMode::GradientDark(b, d, s) => Some((FogGradient::Dark, b, d, s)),
            FogMode::GradientLight(b, d, s) => Some((FogGradient::Light, b, d, s)),
            FogMode::GradientLarge(b, d, s) => Some((FogGradient::Large, b, d, s)),
        }
    }

    fn gradient(&self) -> (r: Option<(FogGradient, u8, u8, bool)>)
        ensures
            r == self.spec_gradient(),
    {
        match self {
            FogMode::Constant(_) => None,
            FogMode::GradientWithNone(b, d, s) => Some((FogGradient::WithNone, *b, *d, *s)),
            FogMode::GradientDark(b, d, s) => Some((FogGradient::Dark, *b, *d, *s)),
            FogMode::GradientLight(b, d, s) => Some((FogGradient::Light, *b, *d, *s)),
            FogMode::GradientLarge(b, d, s) => Some((FogGradient::Large, *b, *d, *s)),
        }
    }

    /// The setting in force at `turn`.
    pub open spec fn spec_fog_setting(self, turn: nat, player_count: nat) -> FogSetting {
        match self.spec_gradient() {
            None => self->Constant_0,
            Some((gradient, bright, dark, start_dark)) => spec_gradient_progress(gradient.spec_steps(), bright, dark, start_dark, turn, player_count),
        }
    }

    /// Whether the numbers of this mode fit in `usize` for `turn`.
    pub open spec fn fits(self, turn: nat, player_count: nat) -> bool {
        match self.spec_gradient() {
            None => true,
            Some((gradient, bright, dark, _)) => {
                &&& gradient_fits(gradient.spec_steps().len(), bright, dark, player_count)
                &&& turn + bright + spec_intermediate_turns(gradient.spec_steps().len(), player_count) <= usize::MAX
            },
        }
    }

    /// After how many turns the settings repeat.
    pub open spec fn spec_turns_until_repeat(self, player_count: nat) -> nat {
        match self.spec_gradient() {
            None => 1,
            Some((gradient, bright, dark, _)) => (bright + dark + 2 * spec_intermediate_turns(gradient.spec_steps().len(), player_count)) as nat,
        }
    }

    /// The fog setting at `turn` in a game of `player_count` players.
    pub fn fog_setting(&self, turn: usize, player_count: usize) -> (r: FogSetting)
        requires
            player_count >= 1,
            self.fits(turn as nat, player_count as nat),
        ensures
            r == self.spec_fog_setting(turn as nat, player_count as nat),
    {
        match self.gradient() {
            None => match self {
                FogMode::Constant(setting) => *setting,
                _ => FogSetting::NoFog,
            },
            Some((gradient, bright, dark, start_dark)) => {
                let steps = gradient.steps();
                gradient_progress(steps.as_slice(), bright, dark, start_dark, turn, player_count)
            },
        }
    }

    /// Whether there is fog at `turn`.
    pub fn is_foggy(&self, turn: usize, player_count: usize) -> (r: bool)
        requires
            player_count >= 1,
            self.fits(turn as nat, player_count as nat),
        ensures
            r == (self.spec_fog_setting(turn as nat, player_count as nat) != FogSetting::NoFog),
    {
        match self.fog_setting(turn, player_count) {
            FogSetting::NoFog => false,
            _ => true,
        }
    }

    /// After how many turns the settings repeat.
    pub fn turns_until_repeat(&self, player_count: usize) -> (r: usize)
        requires
            player_count >= 1,
            self.fits(0, player_count as nat),
        ensures
            r == self.spec_turns_until_repeat(player_count as nat),
    {
        match self.gradient() {
            None => 1,
            Some((gradient, bright, dark, _)) => {
                let steps = gradient.steps();
                let g = intermediate_turns(steps.as_slice(), player_count);
                bright as usize + dark as usize + 2 * g
            },
        }
    }
}

/// The fog settings repeat: after `turns_until_repeat` turns the setting
/// is the same again.
pub proof fn lemma_fog_repeats(mode: FogMode, turn: nat, player_count: nat)
    requires
        player_count >= 1,
    ensures
        mode.spec_fog_setting(turn + mode.spec_turns_until_repeat(player_count), player_count) == mode.spec_fog_setting(turn, player_count),
{
    match mode.spec_gradient() {
        None => {},
        Some((gradient, bright, dark, start_dark)) => {
            let len = gradient.spec_steps().len();
            let k = (len - 2) as nat;
            let times = (player_count - 1) as nat / k;
            let t: nat = if times >= 1 { times } else { 1 };
            let g = spec_intermediate_turns(len, player_count) as int;
            assert(len > 2);
            assert(g == t * k);
            assert(t * k >= 1) by (nonlinear_arith) requires t >= 1, k >= 1;
            let cycle: int = bright + dark + 2 * g;
            let progress: int = if start_dark { turn + bright + g } else { turn as int };
            let progress2: int = if start_dark { (turn + cycle) + bright + g } else { turn + cycle };
            assert(progress2 == progress + cycle);
            assert((progress + cycle) % cycle == progress % cycle) by (nonlinear_arith)
                requires cycle >= 1;
        },
    }
}

/// Whether a unit can see while it moves.
#[derive(Debug, Clone, Copy, PartialEq, Eq, Structural)]
pub enum VisionMode {
    Normal,
    Movement,
}

impl VisionMode {
    pub fn see_while_moving(&self) -> (r: bool)
        ensures
            r == (*self == VisionMode::Normal),
    {
        match self {
            VisionMode::Normal => true,
            VisionMode::Movement => false,
        }
    }
}

impl Listable for VisionMode {
    open spec fn spec_list() -> Seq<Self> {
        seq![Self::Normal, Self::Movement]
    }

    open spec fn spec_name(self) -> Seq<char> {
        match self {
            Self::Normal => "Normal"@,
            Self::Movement => "Movement"@,
        }
    }

    open spec fn spec_kind_name() -> Seq<char> {
        "VisionMode"@
    }

    fn list() -> (r: Vec<Self>) {
        vec![Self::Normal, Self::Movement]
    }

    fn name(&self) -> (r: &'static str) {
        match self {
            Self::Normal => "Normal",
            Self::Movement => "Movement",
        }
    }

    fn kind_name() -> (r: &'static str) {
        "VisionMode"
    }
}

impl FromConfig for VisionMode {
    open spec fn spec_from_conf(s: Seq<char>, names: LoaderNames) -> Result<(Self, Seq<char>), ConfigError> {
        spec_listed_from_conf::<Self>(s)
    }

    fn from_conf<'a>(s: &'a [char], loader: &FileLoader) -> (r: Result<(Self, &'a [char]), ConfigParseError>) {
        listed_from_conf(s)
    }
}

} // verus!
