use vstd::prelude::*;

verus! {

/// Controls whether a mock clock stays frozen or progresses with monotonic time.
///
/// `Frozen` is the default because deterministic tests usually need the clock
/// to change only when explicitly advanced. `Monotonic` keeps the current
/// logical reading anchored to an internal monotonic time source, so
/// subsequent reads naturally progress.
#[derive(Debug, Clone, Copy, PartialEq, Eq, Structural)]
pub enum MockClockProgression {
    /// Keep the logical time frozen until explicitly advanced.
    Frozen,
    /// Progress the logical time using an internal monotonic time source.
    Monotonic,
}

impl MockClockProgression {
    /// Returns `true` when this mode uses monotonic progression.
    pub fn is_monotonic(self) -> (r: bool)
        ensures
            r <==> self == MockClockProgression::Monotonic,
    {
        match self {
            MockClockProgression::Frozen => false,
            MockClockProgression::Monotonic => true,
        }
    }
}

impl Default for MockClockProgression {
    fn default() -> (r: Self)
        ensures
            r == MockClockProgression::Frozen,
    {
        MockClockProgression::Frozen
    }
}

} // verus!
