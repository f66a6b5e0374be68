use vstd::prelude::*;

verus! {

/// Units in one normalized trackpad dimension: positions run from 0 to `SCALE`.
pub const SCALE: i64 = 1_000_000;

/// Default swipe threshold on each direction: a tenth of the trackpad.
pub const DEFAULT_THRESHOLD: i64 = 100_000;

pub const DEFAULT_MIN_FINGERS: i32 = 3;

pub const DEFAULT_EDGE_MARGIN: i64 = 0;

pub const DEFAULT_MIN_PRESSURE: i64 = 0;

pub const DEFAULT_TWO_FINGER_COOLDOWN_MS: u64 = 0;

/// Settings of the tracker. Thresholds, margin and pressure are in units of
/// [`SCALE`].
#[derive(Debug, Clone, Copy, PartialEq, Eq, Structural)]
pub struct Config {
    /// Smallest average leftward displacement that makes a left swipe.
    pub left: i64,
    /// Smallest average rightward displacement that makes a right swipe.
    pub right: i64,
    /// Smallest average upward displacement that makes an up swipe.
    pub up: i64,
    /// Smallest average downward displacement that makes a down swipe.
    pub down: i64,
    /// Fewest concurrent fingers that start a gesture.
    pub min_fingers: i32,
    /// Width of the border in which contacts are ignored; zero turns it off.
    pub edge_margin: i64,
    /// Contacts lighter than this are ignored.
    pub min_pressure: i64,
    /// Time after a two-finger contact span during which no gesture starts;
    /// zero turns it off.
    pub two_finger_cooldown_ms: u64,
}

impl Config {
    /// A usable configuration asks for at least one finger.
    pub open spec fn wf(self) -> bool {
        self.min_fingers >= 1
    }
}

pub fn default_threshold() -> (r: i64)
    ensures
        r == DEFAULT_THRESHOLD,
{
    DEFAULT_THRESHOLD
}

pub fn default_min_fingers() -> (r: i32)
    ensures
        r == DEFAULT_MIN_FINGERS,
{
    DEFAULT_MIN_FINGERS
}

pub fn default_edge_margin() -> (r: i64)
    ensures
        r == DEFAULT_EDGE_MARGIN,
{
    DEFAULT_EDGE_MARGIN
}

pub fn default_min_pressure() -> (r: i64)
    ensures
        r == DEFAULT_MIN_PRESSURE,
{
    DEFAULT_MIN_PRESSURE
}

pub fn default_two_finger_cooldown_ms() -> (r: u64)
    ensures
        r == DEFAULT_TWO_FINGER_COOLDOWN_MS,
{
    DEFAULT_TWO_FINGER_COOLDOWN_MS
}

/// The built-in settings.
pub open spec fn default_config() -> Config {
    Config {
        left: DEFAULT_THRESHOLD,
        right: DEFAULT_THRESHOLD,
        up: DEFAULT_THRESHOLD,
        down: DEFAULT_THRESHOLD,
        min_fingers: DEFAULT_MIN_FINGERS,
        edge_margin: DEFAULT_EDGE_MARGIN,
        min_pressure: DEFAULT_MIN_PRESSURE,
        two_finger_cooldown_ms: DEFAULT_TWO_FINGER_COOLDOWN_MS,
    }
}

impl Default for Config {
    fn default() -> (r: Self)
        ensures
            r == default_config(),
            r.wf(),
    {
        Config {
            left: default_threshold(),
            right: default_threshold(),
            up: default_threshold(),
            down: default_threshold(),
            min_fingers: default_min_fingers(),
            edge_margin: default_edge_margin(),
            min_pressure: default_min_pressure(),
            two_finger_cooldown_ms: default_two_finger_cooldown_ms(),
        }
    }
}

} // verus!
