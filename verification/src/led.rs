//! LED modes, blink timing and what one pass of the display loop drives.

use vstd::prelude::*;

verus! {

/// Delay at the highest level (fastest blink).
pub const MIN_DELAY_MS: u32 = 50;

/// Delay at level 1 (slowest blink).
pub const MAX_DELAY_MS: u32 = 1000;

/// The highest speed level.
pub const MAX_LEVEL: u32 = 10;

/// How often a static state is checked again.
pub const OFF_POLL_MS: u32 = 100;

/// LED held low, no blink timing.
pub const MODE_OFF: u8 = 0;

/// LED held high, no blink timing.
pub const MODE_ON: u8 = 1;

/// LED blinking at the speed level.
pub const MODE_BLINK: u8 = 2;

/// The name of a mode in status payloads.
pub open spec fn mode_name(mode: u8) -> Seq<char> {
    if mode == MODE_OFF {
        "off"@
    } else if mode == MODE_ON {
        "on"@
    } else {
        "blink"@
    }
}

/// The name of `mode`; a value that is neither `MODE_OFF` nor `MODE_ON` reads as blinking.
pub fn mode_str(mode: u8) -> (name: &'static str)
    ensures
        name@ == mode_name(mode),
{
    match mode {
        MODE_OFF => "off",
        MODE_ON => "on",
        _ => "blink",
    }
}

/// The half-period of the blink at `level`: `None` at level 0 (always off); from `MAX_DELAY_MS`
/// at level 1 down to `MIN_DELAY_MS` at `MAX_LEVEL` on a straight line, rounded up to a whole
/// millisecond; levels above `MAX_LEVEL` count as `MAX_LEVEL`.
pub open spec fn half_period(level: u32) -> Option<u32> {
    if level == 0 {
        None
    } else {
        let capped: int = if level < MAX_LEVEL { level as int } else { MAX_LEVEL as int };
        Some((MAX_DELAY_MS - ((MAX_DELAY_MS - MIN_DELAY_MS) * (capped - 1)) / (MAX_LEVEL - 1)) as u32)
    }
}

/// Half-period by level, fixed at compile time. Level 0 has none; its entry is 0.
pub const DELAY_TABLE: [u32; 11] = [0, 1000, 895, 789, 684, 578, 473, 367, 262, 156, 50];

/// Computes the half-period of every level from the two end points.
pub fn build_delay_table() -> (table: [Option<u32>; 11])
    ensures
        forall|level: u32| level <= MAX_LEVEL ==> #[trigger] table@[level as int] == half_period(level),
{
    let mut table: [Option<u32>; 11] = [None; 11];
    let span: u32 = MAX_DELAY_MS - MIN_DELAY_MS;
    let steps: u32 = MAX_LEVEL - 1;
    let mut level: u32 = 1;
    while level <= MAX_LEVEL
        invariant
            1 <= level <= MAX_LEVEL + 1,
            span == 950,
            steps == 9,
            table@[0] == None::<u32>,
            forall|l: u32| l < level ==> #[trigger] table@[l as int] == half_period(l),
        decreases MAX_LEVEL + 1 - level,
    {
        let delay: u32 = MAX_DELAY_MS - (span * (level - 1)) / steps;
        table[level as usize] = Some(delay);
        level = level + 1;
    }
    table
}

/// The blink half-period in milliseconds at a speed level.
pub fn level_to_delay_ms(level: u32) -> (delay: Option<u32>)
    ensures
        delay == half_period(level),
{
    let idx: usize = if level < MAX_LEVEL { level as usize } else { MAX_LEVEL as usize };
    if idx == 0 {
        None
    } else {
        Some(DELAY_TABLE[idx])
    }
}

/// One pin level held for some time.
#[derive(Clone, Copy, Debug, PartialEq, Eq, Structural)]
pub struct Phase {
    /// Whether the pin is high.
    pub high: bool,
    /// How long it is held, in milliseconds.
    pub ms: u32,
}

/// What one pass of the display loop drives: one phase, or two in turn.
#[derive(Clone, Copy, Debug, PartialEq, Eq, Structural)]
pub struct Frame {
    pub first: Phase,
    pub second: Option<Phase>,
}

impl View for Frame {
    type V = Seq<Phase>;

    /// The phases in the order in which they are driven.
    open spec fn view(&self) -> Seq<Phase> {
        match self.second {
            Some(second) => seq![self.first, second],
            None => seq![self.first],
        }
    }
}

/// The pin held at one level until the next check.
pub open spec fn held(high: bool) -> Seq<Phase> {
    seq![Phase { high: high, ms: OFF_POLL_MS }]
}

/// The phases that `mode` and `level` drive. Only blinking looks at the level.
pub open spec fn phases(mode: u8, level: u32) -> Seq<Phase> {
    if mode == MODE_OFF {
        held(false)
    } else if mode == MODE_ON {
        held(true)
    } else {
        match half_period(level) {
            None => held(false),
            Some(ms) => seq![Phase { high: true, ms: ms }, Phase { high: false, ms: ms }],
        }
    }
}

/// What the display loop drives next in `mode` at `level`.
pub fn display_frame(mode: u8, level: u32) -> (frame: Frame)
    ensures
        frame@ == phases(mode, level),
{
    match mode {
        MODE_OFF => Frame { first: Phase { high: false, ms: OFF_POLL_MS }, second: None },
        MODE_ON => Frame { first: Phase { high: true, ms: OFF_POLL_MS }, second: None },
        _ => match level_to_delay_ms(level) {
            None => Frame { first: Phase { high: false, ms: OFF_POLL_MS }, second: None },
            Some(delay) => Frame {
                first: Phase { high: true, ms: delay },
                second: Some(Phase { high: false, ms: delay }),
            },
        },
    }
}

/// The table that is fixed at compile time holds the half-period of every level that has one.
pub proof fn law_constant_table_holds_half_periods(level: u32)
    requires
        0 < level <= MAX_LEVEL,
    ensures
        half_period(level) == Some(DELAY_TABLE@[level as int]),
{
}

/// Level 0 has no half-period, level 1 is the slowest and `MAX_LEVEL` the fastest; every
/// half-period lies between the two.
pub proof fn law_delay_range(level: u32)
    ensures
        half_period(0) == None::<u32>,
        half_period(1) == Some(MAX_DELAY_MS),
        half_period(MAX_LEVEL) == Some(MIN_DELAY_MS),
        level > 0 ==> half_period(level) is Some,
        level > 0 ==> MIN_DELAY_MS <= half_period(level)->0 <= MAX_DELAY_MS,
{
}

/// A higher level blinks strictly faster, up to `MAX_LEVEL`.
pub proof fn law_higher_level_is_faster(slow: u32, fast: u32)
    requires
        0 < slow < fast <= MAX_LEVEL,
    ensures
        half_period(fast)->0 < half_period(slow)->0,
{
}

/// Two neighbouring levels are one ninth of the whole range apart, up to the rounding to a
/// whole millisecond.
pub proof fn law_levels_are_evenly_spaced(level: u32)
    requires
        0 < level < MAX_LEVEL,
    ensures
        ({
            let step = (MAX_DELAY_MS - MIN_DELAY_MS) / (MAX_LEVEL - 1);
            step <= half_period(level)->0 - half_period((level + 1) as u32)->0 <= step + 1
        }),
{
}

/// Levels above `MAX_LEVEL` blink like `MAX_LEVEL`.
pub proof fn law_levels_are_capped(level: u32)
    requires
        level >= MAX_LEVEL,
    ensures
        half_period(level) == half_period(MAX_LEVEL),
{
}

/// The static modes hold one pin level and never look at the speed level; blinking at level 0
/// holds the pin low as well.
pub proof fn law_static_modes_bypass_the_blink(level: u32)
    ensures
        phases(MODE_OFF, level) == held(false),
        phases(MODE_ON, level) == held(true),
        phases(MODE_BLINK, 0) == held(false),
{
}

/// A blink at a level above 0 drives the pin high and then low for equal times.
pub proof fn law_blink_is_symmetric(level: u32)
    requires
        level > 0,
    ensures
        phases(MODE_BLINK, level).len() == 2,
        phases(MODE_BLINK, level)[0].high,
        !phases(MODE_BLINK, level)[1].high,
        phases(MODE_BLINK, level)[0].ms == phases(MODE_BLINK, level)[1].ms,
        Some(phases(MODE_BLINK, level)[0].ms) == half_period(level),
{
}

/// The two static modes have names of their own; every other mode is named as blinking.
pub proof fn law_mode_names(mode: u8)
    ensures
        mode == MODE_OFF ==> mode_name(mode) == seq!['o', 'f', 'f'],
        mode == MODE_ON ==> mode_name(mode) == seq!['o', 'n'],
        mode != MODE_OFF && mode != MODE_ON ==> mode_name(mode) == seq!['b', 'l', 'i', 'n', 'k'],
{
    reveal_strlit("off");
    reveal_strlit("on");
    reveal_strlit("blink");
    assert("off"@ =~= seq!['o', 'f', 'f']);
    assert("on"@ =~= seq!['o', 'n']);
    assert("blink"@ =~= seq!['b', 'l', 'i', 'n', 'k']);
}

/// The half-period of a level is the least whole number of milliseconds that is not below the
/// straight line from `MAX_DELAY_MS` at level 1 to `MIN_DELAY_MS` at `MAX_LEVEL`.
pub proof fn law_delay_is_on_the_line(level: u32)
    requires
        0 < level <= MAX_LEVEL,
    ensures
        half_period(level) is Some,
        ({
            let saved = MAX_DELAY_MS - half_period(level)->0;
            let steps = MAX_LEVEL - 1;
            let rise = (MAX_DELAY_MS - MIN_DELAY_MS) * (level - 1);
            steps * saved <= rise < steps * (saved + 1)
        }),
{
}

/// The phases of a frame are its first and, where there is one, its second.
pub proof fn law_frame_drives_its_phases(frame: Frame)
    ensures
        frame@.len() == if frame.second is Some { 2int } else { 1int },
        frame@[0] == frame.first,
        frame.second is Some ==> frame@[1] == frame.second->0,
{
}

/// Every mode drives the pin at every level: off is low and on is high, checked again after
/// `OFF_POLL_MS`; any other mode is low in the same way at level 0, and at the other levels high
/// and then low for the level's half-period each.
pub proof fn law_every_mode_drives_the_pin(mode: u8, level: u32)
    ensures
        mode == MODE_OFF ==> phases(mode, level) == seq![Phase { high: false, ms: OFF_POLL_MS }],
        mode == MODE_ON ==> phases(mode, level) == seq![Phase { high: true, ms: OFF_POLL_MS }],
        mode != MODE_OFF && mode != MODE_ON && level == 0 ==> phases(mode, level) == seq![
            Phase { high: false, ms: OFF_POLL_MS },
        ],
        mode != MODE_OFF && mode != MODE_ON && level > 0 ==> {
            &&& half_period(level) is Some
            &&& phases(mode, level) == seq![
                Phase { high: true, ms: half_period(level)->0 },
                Phase { high: false, ms: half_period(level)->0 },
            ]
        },
{
}

} // verus!
