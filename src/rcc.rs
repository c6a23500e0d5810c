use vstd::prelude::*;

verus! {

/// One action on a peripheral's clock-enable and reset bits.
#[derive(Clone, Copy, Debug, PartialEq, Eq, Structural)]
pub enum PeripheralStep {
    SetEnable(bool),
    SetReset(bool),
    /// Wait until the reset bit reads back as the value.
    WaitReset(bool),
}

/// Enable the peripheral's clock, pulse its reset, and wait for the reset to take hold
/// before releasing it.
pub open spec fn enable_and_reset_steps() -> Seq<PeripheralStep> {
    seq![
        PeripheralStep::SetEnable(true),
        PeripheralStep::SetReset(true),
        PeripheralStep::WaitReset(true),
        PeripheralStep::SetReset(false),
    ]
}

/// The sequence that enables and resets a peripheral.
pub fn enable_and_reset() -> (r: Vec<PeripheralStep>)
    ensures
        r@ == enable_and_reset_steps(),
{
    let r = vec![
        PeripheralStep::SetEnable(true),
        PeripheralStep::SetReset(true),
        PeripheralStep::WaitReset(true),
        PeripheralStep::SetReset(false),
    ];
    assert(r@ =~= enable_and_reset_steps());
    r
}

/// The sequence that disables a peripheral: its clock-enable bit cleared.
pub fn disable() -> (r: Vec<PeripheralStep>)
    ensures
        r@ == seq![PeripheralStep::SetEnable(false)],
{
    let r = vec![PeripheralStep::SetEnable(false)];
    assert(r@ =~= seq![PeripheralStep::SetEnable(false)]);
    r
}

} // verus!
