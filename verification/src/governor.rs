//! The resource governor: how much work the app allows itself while a game runs.
//! Its state is two one-byte codes, one for the governor mode and one for the
//! screen-capture (vision) mode.
use vstd::prelude::*;

verus! {

/// How much the app may do while a game runs, from everything to nothing.
#[derive(Debug, Clone, Copy, PartialEq, Eq, Structural)]
pub enum GovernorMode {
    Normal,
    Lite,
    Minimal,
    Paused,
}

/// How often the screen is captured for game detection.
#[derive(Debug, Clone, Copy, PartialEq, Eq, Structural)]
pub enum VisionMode {
    Active,
    Reduced,
    Minimal,
    Disabled,
}

/// The byte code of a governor mode.
pub open spec fn mode_code_of(m: GovernorMode) -> u8 {
    match m {
        GovernorMode::Normal => 0,
        GovernorMode::Lite => 1,
        GovernorMode::Minimal => 2,
        GovernorMode::Paused => 3,
    }
}

/// The governor mode of a byte code; unknown codes read as `Normal`.
pub open spec fn mode_of_code(v: u8) -> GovernorMode {
    if v == 1 {
        GovernorMode::Lite
    } else if v == 2 {
        GovernorMode::Minimal
    } else if v == 3 {
        GovernorMode::Paused
    } else {
        GovernorMode::Normal
    }
}

/// The byte code of a vision mode.
pub open spec fn vision_code_of(m: VisionMode) -> u8 {
    match m {
        VisionMode::Active => 0,
        VisionMode::Reduced => 1,
        VisionMode::Minimal => 2,
        VisionMode::Disabled => 3,
    }
}

/// The vision mode of a byte code; unknown codes read as `Active`.
pub open spec fn vision_of_code(v: u8) -> VisionMode {
    if v == 1 {
        VisionMode::Reduced
    } else if v == 2 {
        VisionMode::Minimal
    } else if v == 3 {
        VisionMode::Disabled
    } else {
        VisionMode::Active
    }
}

/// The governor mode that a byte code stands for.
pub fn mode_from_u8(v: u8) -> (r: GovernorMode)
    ensures
        r == mode_of_code(v),
{
    if v == 1 {
        GovernorMode::Lite
    } else if v == 2 {
        GovernorMode::Minimal
    } else if v == 3 {
        GovernorMode::Paused
    } else {
        GovernorMode::Normal
    }
}

/// The byte code of a governor mode.
pub fn mode_to_u8(m: GovernorMode) -> (r: u8)
    ensures
        r == mode_code_of(m),
{
    match m {
        GovernorMode::Normal => 0,
        GovernorMode::Lite => 1,
        GovernorMode::Minimal => 2,
        GovernorMode::Paused => 3,
    }
}

/// The vision mode that a byte code stands for.
pub fn vision_from_u8(v: u8) -> (r: VisionMode)
    ensures
        r == vision_of_code(v),
{
    if v == 1 {
        VisionMode::Reduced
    } else if v == 2 {
        VisionMode::Minimal
    } else if v == 3 {
        VisionMode::Disabled
    } else {
        VisionMode::Active
    }
}

/// The byte code of a vision mode.
pub fn vision_to_u8(m: VisionMode) -> (r: u8)
    ensures
        r == vision_code_of(m),
{
    match m {
        VisionMode::Active => 0,
        VisionMode::Reduced => 1,
        VisionMode::Minimal => 2,
        VisionMode::Disabled => 3,
    }
}

/// The governor's state: the stored codes of the two modes. A new state is in
/// `Normal` and `Active`.
pub struct GovernorState {
    pub mode_code: u8,
    pub vision_code: u8,
}

impl GovernorState {
    /// The starting state: `Normal` and `Active`.
    pub fn new() -> (s: GovernorState)
        ensures
            s.mode_code == 0,
            s.vision_code == 0,
    {
        GovernorState { mode_code: 0, vision_code: 0 }
    }
}

/// The current governor mode.
pub fn current_mode(state: &GovernorState) -> (r: GovernorMode)
    ensures
        r == mode_of_code(state.mode_code),
{
    mode_from_u8(state.mode_code)
}

/// Stores a new governor mode; the vision mode is left as it is.
pub fn set_mode(state: &mut GovernorState, mode: GovernorMode)
    ensures
        final(state).mode_code == mode_code_of(mode),
        final(state).vision_code == old(state).vision_code,
{
    state.mode_code = mode_to_u8(mode);
}

/// The current vision mode.
pub fn current_vision_mode(state: &GovernorState) -> (r: VisionMode)
    ensures
        r == vision_of_code(state.vision_code),
{
    vision_from_u8(state.vision_code)
}

/// Stores a new vision mode; the governor mode is left as it is.
pub fn set_vision_mode(state: &mut GovernorState, mode: VisionMode)
    ensures
        final(state).vision_code == vision_code_of(mode),
        final(state).mode_code == old(state).mode_code,
{
    state.vision_code = vision_to_u8(mode);
}

/// The pause between screen captures in a vision mode; `u64::MAX` when disabled.
pub open spec fn capture_interval_of(m: VisionMode) -> u64 {
    match m {
        VisionMode::Active => 3000,
        VisionMode::Reduced => 10000,
        VisionMode::Minimal => 30000,
        VisionMode::Disabled => u64::MAX,
    }
}

/// The pause between telemetry samples in a governor mode.
pub open spec fn telemetry_interval_of(m: GovernorMode) -> u64 {
    match m {
        GovernorMode::Normal => 5000,
        GovernorMode::Lite => 10000,
        GovernorMode::Minimal => 30000,
        GovernorMode::Paused => 60000,
    }
}

/// The pause between screen captures, in ms, for the current vision mode.
pub fn capture_interval_ms(state: &GovernorState) -> (r: u64)
    ensures
        r == capture_interval_of(vision_of_code(state.vision_code)),
{
    match current_vision_mode(state) {
        VisionMode::Active => 3000,
        VisionMode::Reduced => 10000,
        VisionMode::Minimal => 30000,
        VisionMode::Disabled => u64::MAX,
    }
}

/// The pause between telemetry samples, in ms, for the current governor mode.
pub fn telemetry_interval_ms(state: &GovernorState) -> (r: u64)
    ensures
        r == telemetry_interval_of(mode_of_code(state.mode_code)),
{
    match current_mode(state) {
        GovernorMode::Normal => 5000,
        GovernorMode::Lite => 10000,
        GovernorMode::Minimal => 30000,
        GovernorMode::Paused => 60000,
    }
}

/// The mode's rank from least to most restrictive.
pub open spec fn mode_rank(m: GovernorMode) -> int {
    mode_code_of(m) as int
}

/// The vision mode's rank from most to least capturing.
pub open spec fn vision_rank(m: VisionMode) -> int {
    vision_code_of(m) as int
}

/// What is set is what is read back: after `set_mode(m)` the current mode is `m`,
/// and after `set_vision_mode(v)` the current vision mode is `v`.
pub proof fn law_mode_read_after_write(m: GovernorMode, v: VisionMode)
    ensures
        mode_of_code(mode_code_of(m)) == m,
        vision_of_code(vision_code_of(v)) == v,
{
}

/// A more restrictive governor mode never samples telemetry more often, and a
/// less capturing vision mode never captures more often.
pub proof fn law_intervals_monotone(a: GovernorMode, b: GovernorMode, x: VisionMode, y: VisionMode)
    ensures
        mode_rank(a) <= mode_rank(b) ==> telemetry_interval_of(a) <= telemetry_interval_of(b),
        vision_rank(x) <= vision_rank(y) ==> capture_interval_of(x) <= capture_interval_of(y),
{
}

} // verus!
