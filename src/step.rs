use vstd::prelude::*;

use crate::regs::{ChipState, ClkPeriSel, ClkSysSel, ClockRegs, DllRegs, PowerRegs, TickSel, UsbSel};

verus! {

/// One of the two DLLs.
#[derive(Clone, Copy, Debug, PartialEq, Eq, Structural)]
pub enum DllIndex {
    Dll1,
    Dll2,
}

/// One hardware action of a reconfiguration sequence: a register write, a fixed
/// delay, or a wait until a status bit shows the requested state.
#[derive(Clone, Copy, Debug, PartialEq, Eq, Structural)]
pub enum Step {
    SetHxt48Req(bool),
    /// Wait until the ready bit of the external oscillator equals the value.
    WaitHxt48Ready(bool),
    SetHrc48Req(bool),
    /// Wait until the ready bit of the internal oscillator equals the value.
    WaitHrc48Ready(bool),
    SetPclk1Div(u8),
    SetPclk2Div(u8),
    SetUsbSel(UsbSel),
    SetUsbDiv(u8),
    SetTickSel(TickSel),
    SetTickDiv(u8),
    SetPeriSel(ClkPeriSel),
    /// Switch on the DLL input buffer and the bandgap that both DLLs share.
    EnableDllBias,
    /// Enable a DLL at the given stage, with or without output halving.
    ProgramDll(DllIndex, u8, bool),
    /// Wait until the DLL reports lock.
    WaitDllReady(DllIndex),
    DisableDll(DllIndex),
    SetSysSel(ClkSysSel),
    SetHclkDiv(u8),
    /// Switching-regulator trim for S modes.
    SetBuckVout(u8),
    /// Core LDO trim for S modes.
    SetLdoVout(u8),
    /// Switching-regulator trim staged for D modes.
    SetBuckVoutM(u8),
    /// Core LDO reference staged for D modes.
    SetLdoVref(u8),
    SetUlpmcr(u32),
    /// Select the regulator path: `true` for the LDO (D) rail.
    SetLdoVsel(bool),
    /// Busy-wait the given number of microseconds.
    DelayUs(u32),
}

/// What a step does to the clock-tree fields.
pub open spec fn clock_step(k: ClockRegs, s: Step) -> ClockRegs {
    match s {
        Step::SetHxt48Req(b) => ClockRegs { hxt48_req: b, ..k },
        Step::WaitHxt48Ready(b) => ClockRegs { hxt48_rdy: b, ..k },
        Step::SetHrc48Req(b) => ClockRegs { hrc48_req: b, ..k },
        Step::WaitHrc48Ready(b) => ClockRegs { hrc48_rdy: b, ..k },
        Step::SetPclk1Div(v) => ClockRegs { pdiv1: v, ..k },
        Step::SetPclk2Div(v) => ClockRegs { pdiv2: v, ..k },
        Step::SetUsbSel(v) => ClockRegs { sel_usbc: v, ..k },
        Step::SetUsbDiv(v) => ClockRegs { usb_div: v, ..k },
        Step::SetTickSel(v) => ClockRegs { sel_tick: v, ..k },
        Step::SetTickDiv(v) => ClockRegs { tick_div: v, ..k },
        Step::SetPeriSel(v) => ClockRegs { sel_peri: v, ..k },
        Step::EnableDllBias => ClockRegs { buf_dll_en: true, hpbg_en: true, hpbg_vddpsw_en: true, ..k },
        Step::ProgramDll(i, stg, div2) => match i {
            DllIndex::Dll1 => ClockRegs { dll1: DllRegs { en: true, stg: stg, out_div2_en: div2, ..k.dll1 }, ..k },
            DllIndex::Dll2 => ClockRegs { dll2: DllRegs { en: true, stg: stg, out_div2_en: div2, ..k.dll2 }, ..k },
        },
        Step::WaitDllReady(i) => match i {
            DllIndex::Dll1 => ClockRegs { dll1: DllRegs { ready: true, ..k.dll1 }, ..k },
            DllIndex::Dll2 => ClockRegs { dll2: DllRegs { ready: true, ..k.dll2 }, ..k },
        },
        Step::DisableDll(i) => match i {
            DllIndex::Dll1 => ClockRegs { dll1: DllRegs { en: false, ready: false, ..k.dll1 }, ..k },
            DllIndex::Dll2 => ClockRegs { dll2: DllRegs { en: false, ready: false, ..k.dll2 }, ..k },
        },
        Step::SetSysSel(v) => ClockRegs { sel_sys: v, ..k },
        Step::SetHclkDiv(v) => ClockRegs { hdiv: v, ..k },
        _ => k,
    }
}

/// What a step does to the voltage-regulation fields.
pub open spec fn power_step(p: PowerRegs, s: Step) -> PowerRegs {
    match s {
        Step::SetBuckVout(v) => PowerRegs { buck_vout: v, ..p },
        Step::SetLdoVout(v) => PowerRegs { hpsys_vout: v, ..p },
        Step::SetBuckVoutM(v) => PowerRegs { buck_vout_m: v, ..p },
        Step::SetLdoVref(v) => PowerRegs { ldo_vref: v, ..p },
        Step::SetUlpmcr(v) => PowerRegs { ulpmcr: v, ..p },
        Step::SetLdoVsel(b) => PowerRegs { ldo_vsel: b, ..p },
        _ => p,
    }
}

/// The register file after one step, assuming that every wait ends with the
/// awaited status.
pub open spec fn step_effect(c: ChipState, s: Step) -> ChipState {
    ChipState { clock: clock_step(c.clock, s), power: power_step(c.power, s) }
}

/// The register file after a whole sequence of steps, in order.
#[verifier::opaque]
pub open spec fn run(c: ChipState, steps: Seq<Step>) -> ChipState
    decreases steps.len(),
{
    if steps.len() == 0 {
        c
    } else {
        step_effect(run(c, steps.drop_last()), steps.last())
    }
}

/// Running a sequence and then one more step.
pub proof fn lemma_run_push(c: ChipState, steps: Seq<Step>, s: Step)
    ensures
        run(c, steps.push(s)) == step_effect(run(c, steps), s),
{
    reveal(run);
    assert(steps.push(s).drop_last() =~= steps);
}

/// Running no step changes nothing.
pub proof fn lemma_run_empty(c: ChipState)
    ensures
        run(c, Seq::<Step>::empty()) == c,
{
    reveal(run);
}

/// Running a sequence of one step.
pub proof fn lemma_run_one(c: ChipState, a: Step)
    ensures
        run(c, seq![a]) == step_effect(c, a),
{
    let e = Seq::<Step>::empty();
    lemma_run_empty(c);
    lemma_run_push(c, e, a);
    assert(seq![a] =~= e.push(a));
}

/// Running a sequence of two steps.
pub proof fn lemma_run_two(c: ChipState, a: Step, b: Step)
    ensures
        run(c, seq![a, b]) == step_effect(step_effect(c, a), b),
{
    let e = Seq::<Step>::empty();
    lemma_run_empty(c);
    lemma_run_push(c, e, a);
    lemma_run_push(c, e.push(a), b);
    assert(seq![a, b] =~= e.push(a).push(b));
}

/// Running a sequence of three steps.
pub proof fn lemma_run_three(c: ChipState, a: Step, b: Step, d: Step)
    ensures
        run(c, seq![a, b, d]) == step_effect(step_effect(step_effect(c, a), b), d),
{
    let e = Seq::<Step>::empty();
    lemma_run_empty(c);
    lemma_run_push(c, e, a);
    lemma_run_push(c, e.push(a), b);
    lemma_run_push(c, e.push(a).push(b), d);
    assert(seq![a, b, d] =~= e.push(a).push(b).push(d));
}

/// Whether a step leaves the voltage-regulation fields alone.
pub open spec fn is_clock_step(s: Step) -> bool {
    !(s is SetBuckVout || s is SetLdoVout || s is SetBuckVoutM || s is SetLdoVref || s is SetUlpmcr
        || s is SetLdoVsel)
}

/// A sequence of clock steps leaves the voltage-regulation fields alone.
pub proof fn lemma_run_clock_steps(c: ChipState, steps: Seq<Step>)
    requires
        forall|i: int| 0 <= i < steps.len() ==> is_clock_step(#[trigger] steps[i]),
    ensures
        run(c, steps).power == c.power,
    decreases steps.len(),
{
    reveal(run);
    if steps.len() > 0 {
        lemma_run_clock_steps(c, steps.drop_last());
        assert(is_clock_step(steps[steps.len() - 1]));
    }
}

/// What a sequence does to the clock tree depends on the clock tree alone.
pub proof fn lemma_run_clock_only(c1: ChipState, c2: ChipState, steps: Seq<Step>)
    requires
        c1.clock == c2.clock,
    ensures
        run(c1, steps).clock == run(c2, steps).clock,
    decreases steps.len(),
{
    reveal(run);
    if steps.len() > 0 {
        lemma_run_clock_only(c1, c2, steps.drop_last());
    }
}

/// Running two sequences one after the other is running their concatenation.
pub proof fn lemma_run_append(c: ChipState, a: Seq<Step>, b: Seq<Step>)
    ensures
        run(c, a + b) == run(run(c, a), b),
    decreases b.len(),
{
    reveal(run);
    if b.len() == 0 {
        assert(a + b =~= a);
    } else {
        assert((a + b).drop_last() =~= a + b.drop_last());
        lemma_run_append(c, a, b.drop_last());
    }
}

impl Step {
    /// Applies this step to a model of the register file.
    pub fn apply_to(&self, c: &mut ChipState)
        ensures
            *final(c) == step_effect(*old(c), *self),
    {
        *c = self.effect(*c);
    }

    fn effect(self, c: ChipState) -> (r: ChipState)
        ensures
            r == step_effect(c, self),
    {
        ChipState { clock: self.clock_effect(c.clock), power: self.power_effect(c.power) }
    }

    fn power_effect(self, p: PowerRegs) -> (r: PowerRegs)
        ensures
            r == power_step(p, self),
    {
        match self {
            Step::SetBuckVout(v) => PowerRegs { buck_vout: v, ..p },
            Step::SetLdoVout(v) => PowerRegs { hpsys_vout: v, ..p },
            Step::SetBuckVoutM(v) => PowerRegs { buck_vout_m: v, ..p },
            Step::SetLdoVref(v) => PowerRegs { ldo_vref: v, ..p },
            Step::SetUlpmcr(v) => PowerRegs { ulpmcr: v, ..p },
            Step::SetLdoVsel(b) => PowerRegs { ldo_vsel: b, ..p },
            _ => p,
        }
    }

    fn clock_effect(self, k: ClockRegs) -> (r: ClockRegs)
        ensures
            r == clock_step(k, self),
    {
        match self {
            Step::SetHxt48Req(b) => ClockRegs { hxt48_req: b, ..k },
            Step::WaitHxt48Ready(b) => ClockRegs { hxt48_rdy: b, ..k },
            Step::SetHrc48Req(b) => ClockRegs { hrc48_req: b, ..k },
            Step::WaitHrc48Ready(b) => ClockRegs { hrc48_rdy: b, ..k },
            Step::SetPclk1Div(v) => ClockRegs { pdiv1: v, ..k },
            Step::SetPclk2Div(v) => ClockRegs { pdiv2: v, ..k },
            Step::SetUsbSel(v) => ClockRegs { sel_usbc: v, ..k },
            Step::SetUsbDiv(v) => ClockRegs { usb_div: v, ..k },
            Step::SetTickSel(v) => ClockRegs { sel_tick: v, ..k },
            Step::SetTickDiv(v) => ClockRegs { tick_div: v, ..k },
            Step::SetPeriSel(v) => ClockRegs { sel_peri: v, ..k },
            Step::EnableDllBias => ClockRegs { buf_dll_en: true, hpbg_en: true, hpbg_vddpsw_en: true, ..k },
            Step::ProgramDll(i, stg, div2) => match i {
                DllIndex::Dll1 => ClockRegs { dll1: DllRegs { en: true, stg, out_div2_en: div2, ..k.dll1 }, ..k },
                DllIndex::Dll2 => ClockRegs { dll2: DllRegs { en: true, stg, out_div2_en: div2, ..k.dll2 }, ..k },
            },
            Step::WaitDllReady(i) => match i {
                DllIndex::Dll1 => ClockRegs { dll1: DllRegs { ready: true, ..k.dll1 }, ..k },
                DllIndex::Dll2 => ClockRegs { dll2: DllRegs { ready: true, ..k.dll2 }, ..k },
            },
            Step::DisableDll(i) => match i {
                DllIndex::Dll1 => ClockRegs { dll1: DllRegs { en: false, ready: false, ..k.dll1 }, ..k },
                DllIndex::Dll2 => ClockRegs { dll2: DllRegs { en: false, ready: false, ..k.dll2 }, ..k },
            },
            Step::SetSysSel(v) => ClockRegs { sel_sys: v, ..k },
            Step::SetHclkDiv(v) => ClockRegs { hdiv: v, ..k },
            _ => k,
        }
    }
}

/// Runs a sequence of steps on a model of the register file.
pub fn simulate(c: &ChipState, steps: &Vec<Step>) -> (r: ChipState)
    ensures
        r == run(*c, steps@),
{
    let mut s = *c;
    let mut i: usize = 0;
    proof {
        lemma_run_empty(*c);
        assert(steps@.subrange(0, 0) =~= Seq::<Step>::empty());
    }
    while i < steps.len()
        invariant
            i <= steps.len(),
            s == run(*c, steps@.subrange(0, i as int)),
        decreases steps.len() - i,
    {
        proof {
            reveal(run);
            assert(steps@.subrange(0, i + 1).drop_last() =~= steps@.subrange(0, i as int));
        }
        steps[i].apply_to(&mut s);
        i = i + 1;
    }
    assert(steps@.subrange(0, steps.len() as int) =~= steps@);
    s
}

/// What to do after one poll of a status bit.
#[derive(Clone, Copy, Debug, PartialEq, Eq, Structural)]
pub enum WaitDecision {
    /// The bit shows the awaited value.
    Done,
    /// Poll again.
    Retry,
    /// Give up: the bit did not change within the allowed polls.
    TimedOut,
}

/// Decides a bounded wait: `polls` polls have been made so far, the last of which read
/// `observed`, and at most `max_polls` are allowed.
pub fn wait_decision(observed: bool, expected: bool, polls: u32, max_polls: u32) -> (r: WaitDecision)
    ensures
        observed == expected ==> r == WaitDecision::Done,
        observed != expected && polls < max_polls ==> r == WaitDecision::Retry,
        observed != expected && polls >= max_polls ==> r == WaitDecision::TimedOut,
{
    if observed == expected {
        WaitDecision::Done
    } else if polls < max_polls {
        WaitDecision::Retry
    } else {
        WaitDecision::TimedOut
    }
}

} // verus!
