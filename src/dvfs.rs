use vstd::prelude::*;

use crate::error::ClockError;
use crate::regs::PowerRegs;
use crate::step::Step;
use crate::time::Hertz;

verus! {

/// Highest core frequency, in MHz, of each operating mode.
pub const HPSYS_DVFS_MODE_D0_LIMIT: u32 = 24;
pub const HPSYS_DVFS_MODE_D1_LIMIT: u32 = 48;
pub const HPSYS_DVFS_MODE_S0_LIMIT: u32 = 144;
pub const HPSYS_DVFS_MODE_S1_LIMIT: u32 = 240;

/// Highest DLL2 frequency, in Hz, allowed in the S modes (none is allowed in D modes).
pub const HPSYS_DLL2_S_LIMIT: u32 = 288_000_000;

/// Voltage/frequency operating mode of the high-power subsystem, lowest first.
/// D modes run from the LDO rail, S modes from the switching regulator.
#[derive(Clone, Copy, Debug, PartialEq, Eq, Structural)]
pub enum HpsysDvfsMode {
    D0,
    D1,
    S0,
    S1,
}

/// Voltage profile of one operating mode.
#[derive(Clone, Copy, Debug, PartialEq, Eq, Structural)]
pub struct HpsysDvfsConfig {
    /// Correction added to `ldo` when the LDO rail is staged for a D mode.
    pub ldo_offset: i8,
    pub ldo: u8,
    pub buck: u8,
    /// Memory timing register value.
    pub ulpmcr: u32,
}

/// The mode whose band holds `mhz`: D0 for 0..=24, D1 for 25..=48, S0 for 49..=144,
/// S1 for 145..=240; none above 240.
pub open spec fn mode_of(mhz: int) -> Option<HpsysDvfsMode> {
    if 0 <= mhz <= 24 {
        Some(HpsysDvfsMode::D0)
    } else if 25 <= mhz <= 48 {
        Some(HpsysDvfsMode::D1)
    } else if 49 <= mhz <= 144 {
        Some(HpsysDvfsMode::S0)
    } else if 145 <= mhz <= 240 {
        Some(HpsysDvfsMode::S1)
    } else {
        None
    }
}

/// The mode of a frequency in hertz, truncated to whole megahertz first.
pub open spec fn mode_of_hz(hz: u32) -> Option<HpsysDvfsMode> {
    mode_of(hz as int / 1_000_000)
}

/// A frequency outside every operating mode's band.
#[derive(Clone, Copy, Debug, PartialEq, Eq, Structural)]
pub struct FrequencyOutOfRange;

impl HpsysDvfsMode {
    pub open spec fn is_s(self) -> bool {
        self is S0 || self is S1
    }

    pub open spec fn spec_config(self) -> HpsysDvfsConfig {
        match self {
            HpsysDvfsMode::D0 => HpsysDvfsConfig { ldo_offset: -5i8, ldo: 0x6, buck: 0x9, ulpmcr: 0x00100330 },
            HpsysDvfsMode::D1 => HpsysDvfsConfig { ldo_offset: -3i8, ldo: 0x8, buck: 0xA, ulpmcr: 0x00110331 },
            HpsysDvfsMode::S0 => HpsysDvfsConfig { ldo_offset: 0, ldo: 0xB, buck: 0xD, ulpmcr: 0x00130213 },
            HpsysDvfsMode::S1 => HpsysDvfsConfig { ldo_offset: 2, ldo: 0xD, buck: 0xF, ulpmcr: 0x00130213 },
        }
    }

    /// Highest DLL2 frequency in hertz: 0 in D modes, 288 MHz in S modes.
    pub open spec fn spec_dll2_limit(self) -> u32 {
        if self.is_s() { HPSYS_DLL2_S_LIMIT } else { 0 }
    }

    pub open spec fn spec_frequency_limit(self) -> u32 {
        match self {
            HpsysDvfsMode::D0 => HPSYS_DVFS_MODE_D0_LIMIT,
            HpsysDvfsMode::D1 => HPSYS_DVFS_MODE_D1_LIMIT,
            HpsysDvfsMode::S0 => HPSYS_DVFS_MODE_S0_LIMIT,
            HpsysDvfsMode::S1 => HPSYS_DVFS_MODE_S1_LIMIT,
        }
    }

    /// Classifies a core frequency given in whole megahertz.
    pub fn from_frequency(freq_mhz: u32) -> (r: Result<Self, FrequencyOutOfRange>)
        ensures
            r is Ok <==> mode_of(freq_mhz as int) is Some,
            r is Ok ==> mode_of(freq_mhz as int) == Some(r->Ok_0),
    {
        if freq_mhz <= HPSYS_DVFS_MODE_D0_LIMIT {
            Ok(HpsysDvfsMode::D0)
        } else if freq_mhz <= HPSYS_DVFS_MODE_D1_LIMIT {
            Ok(HpsysDvfsMode::D1)
        } else if freq_mhz <= HPSYS_DVFS_MODE_S0_LIMIT {
            Ok(HpsysDvfsMode::S0)
        } else if freq_mhz <= HPSYS_DVFS_MODE_S1_LIMIT {
            Ok(HpsysDvfsMode::S1)
        } else {
            Err(FrequencyOutOfRange)
        }
    }

    /// Classifies a core frequency, dropping its sub-megahertz part first.
    pub fn from_hertz(freq: Hertz) -> (r: Result<Self, FrequencyOutOfRange>)
        ensures
            r is Ok <==> mode_of_hz(freq.0) is Some,
            r is Ok ==> mode_of_hz(freq.0) == Some(r->Ok_0),
    {
        Self::from_frequency(freq.0 / 1_000_000)
    }

    pub fn get_dll2_limit(self) -> (r: Hertz)
        ensures
            r.0 == self.spec_dll2_limit(),
    {
        match self {
            HpsysDvfsMode::D0 | HpsysDvfsMode::D1 => Hertz(0),
            HpsysDvfsMode::S0 | HpsysDvfsMode::S1 => Hertz(HPSYS_DLL2_S_LIMIT),
        }
    }

    pub fn get_config(self) -> (r: HpsysDvfsConfig)
        ensures
            r == self.spec_config(),
    {
        match self {
            HpsysDvfsMode::D0 => HpsysDvfsConfig { ldo_offset: -5, ldo: 0x6, buck: 0x9, ulpmcr: 0x00100330 },
            HpsysDvfsMode::D1 => HpsysDvfsConfig { ldo_offset: -3, ldo: 0x8, buck: 0xA, ulpmcr: 0x00110331 },
            HpsysDvfsMode::S0 => HpsysDvfsConfig { ldo_offset: 0, ldo: 0xB, buck: 0xD, ulpmcr: 0x00130213 },
            HpsysDvfsMode::S1 => HpsysDvfsConfig { ldo_offset: 2, ldo: 0xD, buck: 0xF, ulpmcr: 0x00130213 },
        }
    }

    /// Highest core frequency of the mode's band.
    pub fn get_frequency_limit(self) -> (r: Hertz)
        ensures
            r.0 == self.spec_frequency_limit() * 1_000_000,
    {
        let mhz = match self {
            HpsysDvfsMode::D0 => HPSYS_DVFS_MODE_D0_LIMIT,
            HpsysDvfsMode::D1 => HPSYS_DVFS_MODE_D1_LIMIT,
            HpsysDvfsMode::S0 => HPSYS_DVFS_MODE_S0_LIMIT,
            HpsysDvfsMode::S1 => HPSYS_DVFS_MODE_S1_LIMIT,
        };
        Hertz(mhz * 1_000_000)
    }
}

/// Whether the regulator path currently feeds the core from the switching regulator.
pub fn is_hpsys_dvfs_mode_s(power: &PowerRegs) -> (r: bool)
    ensures
        r == !power.ldo_vsel,
{
    !power.ldo_vsel
}

/// Settle time of the switching regulator after a trim or path change, in microseconds.
pub const BUCK_SETTLE_US: u32 = 250;

/// How the voltage rails are sequenced around a clock change from one mode to another.
#[derive(Clone, Copy, Debug, PartialEq, Eq, Structural)]
pub enum Transition {
    /// Same mode: the clock change alone.
    Same,
    /// From a D mode to an S mode: raise the voltage first.
    RaiseToS,
    /// From an S mode to a D mode: change the clock, then drop the voltage.
    LowerToD,
    /// Between the two S modes: retrim the switching regulator, then change the clock.
    RetrimS,
    /// Between the two D modes: sequenced as `LowerToD`.
    BetweenD,
}

/// The transition between two modes.
pub open spec fn transition_of(current: HpsysDvfsMode, target: HpsysDvfsMode) -> Transition {
    if current == target {
        Transition::Same
    } else if !current.is_s() && target.is_s() {
        Transition::RaiseToS
    } else if current.is_s() && !target.is_s() {
        Transition::LowerToD
    } else if current.is_s() {
        Transition::RetrimS
    } else {
        Transition::BetweenD
    }
}

/// Every ordered pair of modes falls in exactly one of five cases, and its transition is
/// the one of that case; a change between the two D modes is sequenced as a drop from S to D.
pub proof fn lemma_dispatch_complete(current: HpsysDvfsMode, target: HpsysDvfsMode, clock: Seq<Step>)
    ensures
        ({
            let same = current == target;
            let up = !current.is_s() && target.is_s();
            let down = current.is_s() && !target.is_s();
            let within_s = current != target && current.is_s() && target.is_s();
            let within_d = current != target && !current.is_s() && !target.is_s();
            &&& (same as int) + (up as int) + (down as int) + (within_s as int) + (within_d as int) == 1
            &&& same ==> transition_of(current, target) == Transition::Same
            &&& up ==> transition_of(current, target) == Transition::RaiseToS
            &&& down ==> transition_of(current, target) == Transition::LowerToD
            &&& within_s ==> transition_of(current, target) == Transition::RetrimS
            &&& within_d ==> transition_of(current, target) == Transition::BetweenD
        }),
        transition_of(current, target) == Transition::BetweenD ==> transition_steps(current, target, clock)
            == s2d_steps(target, clock),
{
}

/// Writes of the S-mode voltage trims of `target`.
pub open spec fn sx_volt_steps(target: HpsysDvfsMode) -> Seq<Step> {
    seq![Step::SetBuckVout(target.spec_config().buck), Step::SetLdoVout(target.spec_config().ldo)]
}

/// The LDO reference staged for a D mode: the trim plus its correction.
pub open spec fn staged_ldo_vref(target: HpsysDvfsMode) -> u8 {
    (target.spec_config().ldo as int + target.spec_config().ldo_offset as int) as u8
}

/// D to S: trims, switch to the switching regulator, settle, then the clock change.
pub open spec fn d2s_steps(target: HpsysDvfsMode, clock: Seq<Step>) -> Seq<Step> {
    sx_volt_steps(target) + seq![Step::SetLdoVsel(false), Step::DelayUs(BUCK_SETTLE_US)] + clock
}

/// S to D: stage the D trims, change the clock, set memory timing, then switch to the LDO.
pub open spec fn s2d_steps(target: HpsysDvfsMode, clock: Seq<Step>) -> Seq<Step> {
    seq![Step::SetBuckVoutM(target.spec_config().buck), Step::SetLdoVref(staged_ldo_vref(target))]
        + clock + seq![Step::SetUlpmcr(target.spec_config().ulpmcr), Step::SetLdoVsel(true)]
}

/// S to S: retrim, settle, then the clock change.
pub open spec fn s2s_steps(target: HpsysDvfsMode, clock: Seq<Step>) -> Seq<Step> {
    sx_volt_steps(target) + seq![Step::DelayUs(BUCK_SETTLE_US)] + clock
}

/// The whole sequence that runs the clock change `clock` from mode `current` to `target`.
pub open spec fn transition_steps(current: HpsysDvfsMode, target: HpsysDvfsMode, clock: Seq<Step>) -> Seq<Step> {
    match transition_of(current, target) {
        Transition::Same => clock,
        Transition::RaiseToS => d2s_steps(target, clock),
        Transition::LowerToD => s2d_steps(target, clock),
        Transition::BetweenD => s2d_steps(target, clock),
        Transition::RetrimS => s2s_steps(target, clock),
    }
}

/// The transition from `current` to `target`.
pub fn transition_for(current: HpsysDvfsMode, target: HpsysDvfsMode) -> (r: Transition)
    ensures
        r == transition_of(current, target),
{
    let cur_s = matches!(current, HpsysDvfsMode::S0 | HpsysDvfsMode::S1);
    let tgt_s = matches!(target, HpsysDvfsMode::S0 | HpsysDvfsMode::S1);
    if current == target {
        Transition::Same
    } else if !cur_s && tgt_s {
        Transition::RaiseToS
    } else if cur_s && !tgt_s {
        Transition::LowerToD
    } else if cur_s {
        Transition::RetrimS
    } else {
        Transition::BetweenD
    }
}

/// Appends `steps` to `plan`.
pub fn push_all(plan: &mut Vec<Step>, steps: &Vec<Step>)
    ensures
        final(plan)@ == old(plan)@ + steps@,
{
    let ghost start = plan@;
    let mut i: usize = 0;
    while i < steps.len()
        invariant
            i <= steps.len(),
            plan@ == start + steps@.subrange(0, i as int),
        decreases steps.len() - i,
    {
        plan.push(steps[i]);
        i = i + 1;
        assert(plan@ =~= start + steps@.subrange(0, i as int));
    }
    assert(steps@.subrange(0, steps.len() as int) =~= steps@);
}

/// Writes the S-mode voltage trims of `target_dvfs_mode`.
fn config_hcpu_sx_mode_volt(plan: &mut Vec<Step>, target_dvfs_mode: HpsysDvfsMode)
    ensures
        final(plan)@ == old(plan)@ + sx_volt_steps(target_dvfs_mode),
{
    let dvfs_config = target_dvfs_mode.get_config();
    plan.push(Step::SetBuckVout(dvfs_config.buck));
    plan.push(Step::SetLdoVout(dvfs_config.ldo));
    assert(final(plan)@ =~= old(plan)@ + sx_volt_steps(target_dvfs_mode));
}

fn switch_hcpu_dvfs_d2s(plan: &mut Vec<Step>, target_dvfs_mode: HpsysDvfsMode, config_clock: &Vec<Step>)
    ensures
        final(plan)@ == old(plan)@ + d2s_steps(target_dvfs_mode, config_clock@),
{
    config_hcpu_sx_mode_volt(plan, target_dvfs_mode);
    plan.push(Step::SetLdoVsel(false));
    plan.push(Step::DelayUs(BUCK_SETTLE_US));
    push_all(plan, config_clock);
    assert(final(plan)@ =~= old(plan)@ + d2s_steps(target_dvfs_mode, config_clock@));
}

fn switch_hcpu_dvfs_s2d(plan: &mut Vec<Step>, target_dvfs_mode: HpsysDvfsMode, config_clock: &Vec<Step>)
    ensures
        final(plan)@ == old(plan)@ + s2d_steps(target_dvfs_mode, config_clock@),
{
    let dvfs_config = target_dvfs_mode.get_config();
    plan.push(Step::SetBuckVoutM(dvfs_config.buck));
    let vref = (dvfs_config.ldo as i16 + dvfs_config.ldo_offset as i16) as u8;
    plan.push(Step::SetLdoVref(vref));
    push_all(plan, config_clock);
    plan.push(Step::SetUlpmcr(dvfs_config.ulpmcr));
    plan.push(Step::SetLdoVsel(true));
    assert(final(plan)@ =~= old(plan)@ + s2d_steps(target_dvfs_mode, config_clock@));
}

fn switch_hcpu_dvfs_s2s(plan: &mut Vec<Step>, target_dvfs_mode: HpsysDvfsMode, config_clock: &Vec<Step>)
    ensures
        final(plan)@ == old(plan)@ + s2s_steps(target_dvfs_mode, config_clock@),
{
    config_hcpu_sx_mode_volt(plan, target_dvfs_mode);
    plan.push(Step::DelayUs(BUCK_SETTLE_US));
    push_all(plan, config_clock);
    assert(final(plan)@ =~= old(plan)@ + s2s_steps(target_dvfs_mode, config_clock@));
}

/// Appends to `plan` the clock change `config_clock` from a core clock of
/// `current_hclk_freq` to one of `target_hclk_freq`, with the voltage changes that the
/// two frequencies' modes call for. Refused, with `plan` untouched, when either
/// frequency lies in no mode's band.
pub fn config_hcpu_dvfs(
    plan: &mut Vec<Step>,
    current_hclk_freq: Hertz,
    target_hclk_freq: Hertz,
    config_clock: &Vec<Step>,
) -> (r: Result<(), ClockError>)
    ensures
        r is Ok <==> (mode_of_hz(current_hclk_freq.0) is Some && mode_of_hz(target_hclk_freq.0) is Some),
        r is Err ==> r == Err::<(), ClockError>(ClockError::FrequencyOutOfRange) && final(plan)@ == old(plan)@,
        r is Ok ==> final(plan)@ == old(plan)@ + transition_steps(
            mode_of_hz(current_hclk_freq.0)->Some_0,
            mode_of_hz(target_hclk_freq.0)->Some_0,
            config_clock@,
        ),
{
    let current_dvfs_mode = match HpsysDvfsMode::from_hertz(current_hclk_freq) {
        Ok(m) => m,
        Err(_) => return Err(ClockError::FrequencyOutOfRange),
    };
    let target_dvfs_mode = match HpsysDvfsMode::from_hertz(target_hclk_freq) {
        Ok(m) => m,
        Err(_) => return Err(ClockError::FrequencyOutOfRange),
    };
    match transition_for(current_dvfs_mode, target_dvfs_mode) {
        Transition::Same => push_all(plan, config_clock),
        Transition::RaiseToS => switch_hcpu_dvfs_d2s(plan, target_dvfs_mode, config_clock),
        Transition::LowerToD | Transition::BetweenD => switch_hcpu_dvfs_s2d(plan, target_dvfs_mode, config_clock),
        Transition::RetrimS => switch_hcpu_dvfs_s2s(plan, target_dvfs_mode, config_clock),
    }
    Ok(())
}

} // verus!
