use vstd::prelude::*;

verus! {

/// Why a clock query or a reconfiguration request was refused.
#[derive(Clone, Copy, Debug, PartialEq, Eq, Structural)]
pub enum ClockError {
    /// A mux selection that this engine does not implement (the frequency doubler).
    UnsupportedSource,
    /// The clock source that the core clock depends on is disabled or not ready.
    SourceNotReady,
    /// A DLL enable request whose output lies outside 24..=384 MHz.
    InvalidDllFrequency,
    /// A DLL2 enable request above the ceiling of the target operating mode.
    Dll2OverLimit,
    /// A core frequency outside every operating mode's band.
    FrequencyOutOfRange,
    /// A requested value that does not fit its register field.
    FieldOutOfRange,
    /// A status bit did not reach the awaited value within the allowed number of polls.
    /// The hardware may be left half reconfigured: the only safe recovery is a reset.
    HardwareTimeout,
}

} // verus!
