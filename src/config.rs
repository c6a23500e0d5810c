use vstd::prelude::*;

use crate::clock::{
    clk_sys_freq, dll_freq, dll_output, dll_output_hz, get_clk_dll1_freq, get_clk_dll2_freq,
    get_clk_sys_freq, get_hclk_freq, hclk_freq,
};
use crate::dvfs::{config_hcpu_dvfs, mode_of_hz, transition_steps, HpsysDvfsMode};
use crate::error::ClockError;
use crate::regs::{ChipState, ClkPeriSel, ClkSysSel, ClockRegs, DllRegs, TickSel, UsbSel};
use crate::step::{DllIndex, Step};
use crate::time::Hertz;

verus! {

/// Lowest and highest output, in hertz, of an enabled DLL.
pub const DLL_MIN_HZ: u32 = 24_000_000;
pub const DLL_MAX_HZ: u32 = 384_000_000;

/// Least wait after programming a DLL before its lock bit is polled, in microseconds.
pub const DLL_SETTLE_US: u32 = 10;

/// A configuration value that either replaces the current one or keeps it.
#[derive(Clone, Copy, Debug, PartialEq, Eq, Structural)]
pub enum ConfigOption<T> {
    /// Replace the current value with this one.
    Update(T),
    /// Leave the current value as the hardware has it.
    Keep,
}

impl<T> ConfigOption<T> {
    /// The value after applying this option to `current`.
    pub open spec fn spec_apply(self, current: T) -> T {
        match self {
            ConfigOption::Update(v) => v,
            ConfigOption::Keep => current,
        }
    }

    pub fn new(value: T) -> (r: Self)
        ensures
            r == ConfigOption::Update(value),
    {
        ConfigOption::Update(value)
    }

    pub fn keep() -> (r: Self)
        ensures
            r == ConfigOption::<T>::Keep,
    {
        ConfigOption::Keep
    }

    pub fn is_update(&self) -> (r: bool)
        ensures
            r == (*self is Update),
    {
        matches!(self, ConfigOption::Update(_))
    }

    pub fn is_keep(&self) -> (r: bool)
        ensures
            r == (*self is Keep),
    {
        matches!(self, ConfigOption::Keep)
    }

    /// The new value for an update, `current` otherwise.
    pub fn apply(self, current: T) -> (r: T)
        ensures
            r == self.spec_apply(current),
    {
        match self {
            ConfigOption::Update(new_value) => new_value,
            ConfigOption::Keep => current,
        }
    }
}

/// Keeping returns the current value and updating returns the new one, whatever they are.
pub proof fn lemma_overlay_merge<T>(x: T, y: T)
    ensures
        ConfigOption::<T>::Keep.spec_apply(x) == x,
        ConfigOption::Update(y).spec_apply(x) == y,
{
}

/// Requested state of one DLL.
#[derive(Clone, Copy, Debug, PartialEq, Eq, Structural)]
pub struct DllConfig {
    pub enable: bool,
    /// Stage: the output is `(stg + 1) * 24 MHz`; 0..=15.
    pub stg: u8,
    /// Halve the output.
    pub div2: bool,
}

/// Requested USB clock.
#[derive(Clone, Copy, Debug, PartialEq, Eq, Structural)]
pub struct UsbConfig {
    pub sel: UsbSel,
    /// 0..=7.
    pub div: u8,
}

/// Requested system tick clock.
#[derive(Clone, Copy, Debug, PartialEq, Eq, Structural)]
pub struct TickConfig {
    pub sel: TickSel,
    /// 0..=63.
    pub div: u8,
}

/// A partial clock configuration: each field replaces what the hardware has, or keeps it.
#[derive(Clone, Copy, Debug, PartialEq, Eq, Structural)]
pub struct Config {
    /// 48 MHz external crystal oscillator.
    pub hxt48_enable: ConfigOption<bool>,
    /// 48 MHz internal RC oscillator.
    pub hrc48_enable: ConfigOption<bool>,
    pub dll1: ConfigOption<DllConfig>,
    pub dll2: ConfigOption<DllConfig>,
    pub clk_sys_sel: ConfigOption<ClkSysSel>,
    /// `hclk = clk_sys / hclk_div`, where 0 divides by one.
    pub hclk_div: ConfigOption<u8>,
    /// `pclk1 = hclk / 2^pclk1_div`; 0..=7.
    pub pclk1_div: ConfigOption<u8>,
    /// `pclk2 = hclk / 2^pclk2_div`; 0..=7.
    pub pclk2_div: ConfigOption<u8>,
    pub usb: ConfigOption<UsbConfig>,
    pub tick: ConfigOption<TickConfig>,
    pub clk_peri_sel: ConfigOption<ClkPeriSel>,
}

/// Whether the output of a DLL at this stage lies in 24..=384 MHz.
pub open spec fn dll_freq_ok(stg: int, div2: bool) -> bool {
    DLL_MIN_HZ <= dll_output_hz(stg, div2) <= DLL_MAX_HZ
}

/// Whether a DLL request, if it enables the DLL, puts it in its frequency range.
pub open spec fn dll_request_in_range(o: ConfigOption<DllConfig>) -> bool {
    match o {
        ConfigOption::Update(d) => d.enable ==> dll_freq_ok(d.stg as int, d.div2),
        ConfigOption::Keep => true,
    }
}

/// Whether a DLL request asks to enable it.
pub open spec fn enables(o: ConfigOption<DllConfig>) -> bool {
    o matches ConfigOption::Update(d) && d.enable
}

/// A DLL after a request: enabled and locked at the new stage, or disabled.
pub open spec fn merge_dll(o: ConfigOption<DllConfig>, d: DllRegs) -> DllRegs {
    match o {
        ConfigOption::Update(x) => if x.enable {
            DllRegs { en: true, stg: x.stg, out_div2_en: x.div2, ready: true }
        } else {
            DllRegs { en: false, ready: false, ..d }
        },
        ConfigOption::Keep => d,
    }
}

/// Whether the system clock source `s` runs in the clock tree `t`.
pub open spec fn source_running(t: ClockRegs, s: ClkSysSel) -> bool {
    match s {
        ClkSysSel::Hrc48 => t.hrc48_rdy,
        ClkSysSel::Hxt48 => t.hxt48_rdy,
        ClkSysSel::Dbl96 => false,
        ClkSysSel::Dll1 => t.dll1.en,
    }
}

/// Whether the analog bias shared by the DLLs is fully on.
pub open spec fn bias_on(c: ClockRegs) -> bool {
    c.buf_dll_en && c.hpbg_en && c.hpbg_vddpsw_en
}

/// The frequency, when there is one, and its mode; the error that stops a change otherwise.
pub open spec fn mode_check(f: Result<Option<Hertz>, ClockError>) -> Result<HpsysDvfsMode, ClockError> {
    match f {
        Err(e) => Err(e),
        Ok(None) => Err(ClockError::SourceNotReady),
        Ok(Some(h)) => match mode_of_hz(h.0) {
            Some(m) => Ok(m),
            None => Err(ClockError::FrequencyOutOfRange),
        },
    }
}

/// Steps that program one DLL; the shared bias is switched on first unless it already is.
pub open spec fn dll_steps(i: DllIndex, d: DllConfig, bias: bool) -> Seq<Step> {
    if d.enable {
        (if bias { seq![] } else { seq![Step::EnableDllBias] }) + seq![
            Step::ProgramDll(i, d.stg, d.div2),
            Step::DelayUs(DLL_SETTLE_US),
            Step::WaitDllReady(i),
        ]
    } else {
        seq![Step::DisableDll(i)]
    }
}

pub open spec fn dll_opt_steps(i: DllIndex, o: ConfigOption<DllConfig>, bias: bool) -> Seq<Step> {
    match o {
        ConfigOption::Update(d) => dll_steps(i, d, bias),
        ConfigOption::Keep => seq![],
    }
}

impl Config {
    /// Every requested value fits its register field.
    pub open spec fn wf(self) -> bool {
        &&& (self.dll1 matches ConfigOption::Update(d) ==> d.stg <= 15)
        &&& (self.dll2 matches ConfigOption::Update(d) ==> d.stg <= 15)
        &&& (self.pclk1_div matches ConfigOption::Update(v) ==> v <= 7)
        &&& (self.pclk2_div matches ConfigOption::Update(v) ==> v <= 7)
        &&& (self.usb matches ConfigOption::Update(u) ==> u.div <= 7)
        &&& (self.tick matches ConfigOption::Update(t) ==> t.div <= 63)
    }

    /// Every DLL enable request lies in the DLL's frequency range.
    pub open spec fn dlls_in_range(self) -> bool {
        dll_request_in_range(self.dll1) && dll_request_in_range(self.dll2)
    }

    /// The clock tree once this configuration is applied to `c`: each field on its own
    /// takes the requested value, or keeps the one in `c`.
    pub open spec fn spec_apply_to(self, c: ClockRegs) -> ClockRegs {
        let bias = enables(self.dll1) || enables(self.dll2);
        ClockRegs {
            hxt48_req: self.hxt48_enable.spec_apply(c.hxt48_req),
            hxt48_rdy: self.hxt48_enable.spec_apply(c.hxt48_rdy),
            hrc48_req: self.hrc48_enable.spec_apply(c.hrc48_req),
            hrc48_rdy: self.hrc48_enable.spec_apply(c.hrc48_rdy),
            dll1: merge_dll(self.dll1, c.dll1),
            dll2: merge_dll(self.dll2, c.dll2),
            sel_sys: self.clk_sys_sel.spec_apply(c.sel_sys),
            sel_peri: self.clk_peri_sel.spec_apply(c.sel_peri),
            sel_usbc: match self.usb {
                ConfigOption::Update(u) => u.sel,
                ConfigOption::Keep => c.sel_usbc,
            },
            usb_div: match self.usb {
                ConfigOption::Update(u) => u.div,
                ConfigOption::Keep => c.usb_div,
            },
            sel_tick: match self.tick {
                ConfigOption::Update(t) => t.sel,
                ConfigOption::Keep => c.sel_tick,
            },
            tick_div: match self.tick {
                ConfigOption::Update(t) => t.div,
                ConfigOption::Keep => c.tick_div,
            },
            hdiv: self.hclk_div.spec_apply(c.hdiv),
            pdiv1: self.pclk1_div.spec_apply(c.pdiv1),
            pdiv2: self.pclk2_div.spec_apply(c.pdiv2),
            buf_dll_en: c.buf_dll_en || bias,
            hpbg_en: c.hpbg_en || bias,
            hpbg_vddpsw_en: c.hpbg_vddpsw_en || bias,
        }
    }

    /// Whether the request can change the core clock: it sets its source or divider,
    /// or changes the oscillator or DLL1 that is to feed it.
    pub open spec fn touches_hclk(self, c: ClockRegs) -> bool {
        let sel = self.spec_apply_to(c).sel_sys;
        ||| self.clk_sys_sel is Update
        ||| self.hclk_div is Update
        ||| (self.dll1 is Update && sel == ClkSysSel::Dll1)
        ||| (self.hxt48_enable is Update && sel == ClkSysSel::Hxt48)
        ||| (self.hrc48_enable is Update && sel == ClkSysSel::Hrc48)
    }

    /// Why DLL1's request cannot be programmed: a stage too wide for its field, or an
    /// output outside 24..=384 MHz.
    pub open spec fn dll1_check(self) -> Result<(), ClockError> {
        if !self.wf() {
            Err(ClockError::FieldOutOfRange)
        } else if !dll_request_in_range(self.dll1) {
            Err(ClockError::InvalidDllFrequency)
        } else {
            Ok(())
        }
    }

    /// Why DLL2's request cannot be programmed once the configuration is applied to `c`:
    /// a stage too wide for its field, an output outside 24..=384 MHz, or, for an enable
    /// request, a target core clock with no mode or an output above that mode's ceiling.
    pub open spec fn dll2_check(self, c: ClockRegs) -> Result<(), ClockError> {
        let target = self.spec_apply_to(c);
        let tgt_mode = mode_check(hclk_freq(target));
        if !self.wf() {
            Err(ClockError::FieldOutOfRange)
        } else if !dll_request_in_range(self.dll2) {
            Err(ClockError::InvalidDllFrequency)
        } else if enables(self.dll2) && tgt_mode is Err {
            Err(tgt_mode->Err_0)
        } else if enables(self.dll2) && (dll_freq(target.dll2)->Some_0.0 > tgt_mode->Ok_0.spec_dll2_limit()) {
            Err(ClockError::Dll2OverLimit)
        } else {
            Ok(())
        }
    }

    /// Why the core clock switch cannot be made on the reading `c`: the frequency doubler
    /// requested; a requested source that is off once the configuration is applied; or a
    /// core that ends on DLL1 while DLL1 is neither programmed by the switch itself (DLL1
    /// feeds the core now and the request enables it) nor enabled and locked in `c`.
    pub open spec fn hclk_check(self, c: ClockRegs) -> Result<(), ClockError> {
        let target = self.spec_apply_to(c);
        let src: Result<(), ClockError> = match self.clk_sys_sel {
            ConfigOption::Update(s) => if s == ClkSysSel::Dbl96 {
                Err(ClockError::UnsupportedSource)
            } else if source_running(target, s) {
                Ok(())
            } else {
                Err(ClockError::SourceNotReady)
            },
            ConfigOption::Keep => Ok(()),
        };
        if src is Err {
            src
        } else if target.sel_sys == ClkSysSel::Dll1 {
            if c.sel_sys == ClkSysSel::Dll1 && self.dll1 is Update {
                if self.dll1_check() is Err {
                    self.dll1_check()
                } else if !enables(self.dll1) {
                    Err(ClockError::SourceNotReady)
                } else {
                    Ok(())
                }
            } else if c.dll1.en && c.dll1.ready {
                Ok(())
            } else {
                Err(ClockError::SourceNotReady)
            }
        } else {
            Ok(())
        }
    }

    /// The reading at the moment of the core clock switch: when DLL1 does not feed the
    /// core now, the plan carries out DLL1's request before the switch.
    pub open spec fn spec_switch_reading(self, c: ClockRegs) -> ClockRegs {
        if c.sel_sys != ClkSysSel::Dll1 {
            ClockRegs { dll1: merge_dll(self.dll1, c.dll1), ..c }
        } else {
            c
        }
    }

    /// The steps of the core clock switch on `c`: DLL1's request first when DLL1 feeds the
    /// core before and after, then the source, then the divider.
    pub open spec fn hclk_change_steps(self, c: ClockRegs) -> Seq<Step> {
        let live_stays = c.sel_sys == ClkSysSel::Dll1 && self.spec_apply_to(c).sel_sys == ClkSysSel::Dll1;
        (if live_stays { dll_opt_steps(DllIndex::Dll1, self.dll1, bias_on(c)) } else { seq![] })
            + self.hclk_steps()
    }

    /// The first reason, in this order, to refuse the request on the clock tree `c`:
    /// a value that does not fit its field; a DLL outside its range; when the core clock
    /// changes, a current or target core clock that cannot be derived or classified; for a
    /// DLL2 enable request, a target core clock that cannot be classified; when the core
    /// clock changes, a switch that `hclk_check` refuses; for a DLL2 enable request, a DLL2
    /// frequency above that mode's ceiling.
    pub open spec fn validation(self, c: ClockRegs) -> Result<(), ClockError> {
        let target = self.spec_apply_to(c);
        let cur_mode = mode_check(hclk_freq(c));
        let tgt_mode = mode_check(hclk_freq(target));
        if !self.wf() {
            Err(ClockError::FieldOutOfRange)
        } else if !self.dlls_in_range() {
            Err(ClockError::InvalidDllFrequency)
        } else if self.touches_hclk(c) && cur_mode is Err {
            Err(cur_mode->Err_0)
        } else if (self.touches_hclk(c) || enables(self.dll2)) && tgt_mode is Err {
            Err(tgt_mode->Err_0)
        } else if self.touches_hclk(c) && self.hclk_check(self.spec_switch_reading(c)) is Err {
            self.hclk_check(self.spec_switch_reading(c))
        } else if enables(self.dll2) && (dll_freq(target.dll2)->Some_0.0 > tgt_mode->Ok_0.spec_dll2_limit()) {
            Err(ClockError::Dll2OverLimit)
        } else {
            Ok(())
        }
    }

    /// Steps of the oscillator requests that switch an oscillator on (`on`) or off
    /// (`!on`): request, then wait until the ready bit follows.
    pub open spec fn osc_steps(self, on: bool) -> Seq<Step> {
        (if self.hxt48_enable == ConfigOption::Update(on) {
            seq![Step::SetHxt48Req(on), Step::WaitHxt48Ready(on)]
        } else {
            seq![]
        }) + (if self.hrc48_enable == ConfigOption::Update(on) {
            seq![Step::SetHrc48Req(on), Step::WaitHrc48Ready(on)]
        } else {
            seq![]
        })
    }

    pub open spec fn pclk1_steps(self) -> Seq<Step> {
        match self.pclk1_div {
            ConfigOption::Update(v) => seq![Step::SetPclk1Div(v)],
            ConfigOption::Keep => seq![],
        }
    }

    pub open spec fn pclk2_steps(self) -> Seq<Step> {
        match self.pclk2_div {
            ConfigOption::Update(v) => seq![Step::SetPclk2Div(v)],
            ConfigOption::Keep => seq![],
        }
    }

    pub open spec fn usb_steps(self) -> Seq<Step> {
        match self.usb {
            ConfigOption::Update(u) => seq![Step::SetUsbSel(u.sel), Step::SetUsbDiv(u.div)],
            ConfigOption::Keep => seq![],
        }
    }

    pub open spec fn tick_steps(self) -> Seq<Step> {
        match self.tick {
            ConfigOption::Update(t) => seq![Step::SetTickSel(t.sel), Step::SetTickDiv(t.div)],
            ConfigOption::Keep => seq![],
        }
    }

    pub open spec fn peri_steps(self) -> Seq<Step> {
        match self.clk_peri_sel {
            ConfigOption::Update(v) => seq![Step::SetPeriSel(v)],
            ConfigOption::Keep => seq![],
        }
    }

    /// Bus, USB, tick and peripheral clock steps.
    pub open spec fn bus_steps(self) -> Seq<Step> {
        self.pclk1_steps() + self.pclk2_steps() + self.usb_steps() + self.tick_steps() + self.peri_steps()
    }

    /// The core clock switch: source, then divider.
    pub open spec fn hclk_steps(self) -> Seq<Step> {
        (match self.clk_sys_sel {
            ConfigOption::Update(v) => seq![Step::SetSysSel(v)],
            ConfigOption::Keep => seq![],
        }) + (match self.hclk_div {
            ConfigOption::Update(v) => seq![Step::SetHclkDiv(v)],
            ConfigOption::Keep => seq![],
        })
    }

    /// DLL1 and core clock steps, for the clock tree `c` and the current and target modes
    /// `cm` and `tm`. DLL1 is programmed before the voltage and clock change when it does
    /// not feed the core now; inside the clock change, before the switch, when it feeds the
    /// core before and after; after the change when the core moves off it.
    pub open spec fn core_steps(self, c: ClockRegs, cm: HpsysDvfsMode, tm: HpsysDvfsMode) -> Seq<Step> {
        let live = c.sel_sys == ClkSysSel::Dll1;
        let stays = self.spec_apply_to(c).sel_sys == ClkSysSel::Dll1;
        let d1 = dll_opt_steps(DllIndex::Dll1, self.dll1, bias_on(c));
        let pre = if !live { d1 } else { seq![] };
        let post = if live && !stays { d1 } else { seq![] };
        let change = if self.touches_hclk(c) { transition_steps(cm, tm, self.hclk_change_steps(c)) } else { seq![] };
        pre + change + post
    }

    /// The whole sequence for the clock tree `c`: oscillators switched on, buses, DLL1 and
    /// the core clock with its voltage changes, oscillators switched off, and DLL2 last.
    pub open spec fn plan_steps(self, c: ClockRegs) -> Seq<Step> {
        let cm = mode_check(hclk_freq(c))->Ok_0;
        let tm = mode_check(hclk_freq(self.spec_apply_to(c)))->Ok_0;
        let d2 = dll_opt_steps(DllIndex::Dll2, self.dll2, bias_on(c) || enables(self.dll1));
        self.osc_steps(true) + self.bus_steps() + self.core_steps(c, cm, tm) + self.osc_steps(false) + d2
    }
}

proof fn lemma_validation_at_switch(cfg: Config, c: ClockRegs)
    requires
        cfg.wf(),
        cfg.dlls_in_range(),
        cfg.touches_hclk(c),
        mode_check(hclk_freq(c)) is Ok,
        mode_check(hclk_freq(cfg.spec_apply_to(c))) is Ok,
        cfg.hclk_check(cfg.spec_switch_reading(c)) is Err,
    ensures
        cfg.validation(c) == cfg.hclk_check(cfg.spec_switch_reading(c)),
{
}

/// Whether a DLL2 frequency is within the ceiling of `mode`.
pub fn dll2_within_limit(mode: HpsysDvfsMode, freq: Hertz) -> (r: bool)
    ensures
        r == (freq.0 <= mode.spec_dll2_limit()),
{
    freq.0 <= mode.get_dll2_limit().0
}

/// Under a D mode no DLL2 output above 0 Hz is accepted; under an S mode exactly those up
/// to 288 MHz are.
pub proof fn lemma_dll2_ceiling(mode: HpsysDvfsMode, freq: u32)
    ensures
        !mode.is_s() && freq > 0 ==> !(freq <= mode.spec_dll2_limit()),
        mode.is_s() ==> (freq <= mode.spec_dll2_limit() <==> freq <= 288_000_000),
{
}

/// Whether a DLL at stage `stg`, halved or not, lies in 24..=384 MHz.
pub fn dll_frequency_valid(stg: u8, div2: bool) -> (r: bool)
    requires
        stg <= 15,
    ensures
        r == dll_freq_ok(stg as int, div2),
{
    let f = dll_output(stg, div2);
    DLL_MIN_HZ <= f.0 && f.0 <= DLL_MAX_HZ
}

/// For every stage in 0..=15 and either halving, the output is `(stg + 1) * 24 MHz`,
/// halved when asked, and it is accepted exactly when it lies in 24..=384 MHz: all stages
/// are accepted unhalved, and all but stage 0 halved.
pub proof fn lemma_dll_frequency_law(stg: u8, div2: bool)
    requires
        stg <= 15,
    ensures
        dll_output_hz(stg as int, div2) == (stg as int + 1) * 24_000_000 / (if div2 { 2int } else { 1int }),
        dll_freq_ok(stg as int, div2) <==> 24_000_000 <= dll_output_hz(stg as int, div2) <= 384_000_000,
        dll_freq_ok(stg as int, div2) <==> (div2 ==> stg >= 1),
        stg == 0 && !div2 ==> dll_output_hz(stg as int, div2) == 24_000_000,
        stg == 0 && div2 ==> dll_output_hz(stg as int, div2) == 12_000_000,
        stg == 15 && !div2 ==> dll_output_hz(stg as int, div2) == 384_000_000,
{
}

fn dll_request_valid(o: &ConfigOption<DllConfig>) -> (r: bool)
    requires
        o matches ConfigOption::Update(d) ==> d.stg <= 15,
    ensures
        r == dll_request_in_range(*o),
{
    match o {
        ConfigOption::Update(d) => !d.enable || dll_frequency_valid(d.stg, d.div2),
        ConfigOption::Keep => true,
    }
}

fn enables_dll(o: &ConfigOption<DllConfig>) -> (r: bool)
    ensures
        r == enables(*o),
{
    match o {
        ConfigOption::Update(d) => d.enable,
        ConfigOption::Keep => false,
    }
}

fn merge_dll_regs(o: &ConfigOption<DllConfig>, d: &DllRegs) -> (r: DllRegs)
    ensures
        r == merge_dll(*o, *d),
{
    match o {
        ConfigOption::Update(x) => if x.enable {
            DllRegs { en: true, stg: x.stg, out_div2_en: x.div2, ready: true }
        } else {
            DllRegs { en: false, ready: false, ..*d }
        },
        ConfigOption::Keep => *d,
    }
}

/// The mode of a derived core clock, or why there is none.
pub fn check_mode(f: Result<Option<Hertz>, ClockError>) -> (r: Result<HpsysDvfsMode, ClockError>)
    ensures
        r == mode_check(f),
{
    match f {
        Err(e) => Err(e),
        Ok(None) => Err(ClockError::SourceNotReady),
        Ok(Some(h)) => match HpsysDvfsMode::from_hertz(h) {
            Ok(m) => Ok(m),
            Err(_) => Err(ClockError::FrequencyOutOfRange),
        },
    }
}

fn bias_is_on(c: &ClockRegs) -> (r: bool)
    ensures
        r == bias_on(*c),
{
    c.buf_dll_en && c.hpbg_en && c.hpbg_vddpsw_en
}

impl Default for Config {
    /// Runs the core from DLL1 at 144 MHz, undivided, with the external oscillator on,
    /// the internal one off, and DLL2 kept.
    fn default() -> (r: Self)
        ensures
            r.hxt48_enable == ConfigOption::Update(true),
            r.hrc48_enable == ConfigOption::Update(false),
            r.dll1 == ConfigOption::Update(DllConfig { enable: true, stg: 5, div2: false }),
            r.dll2 is Keep,
            r.clk_sys_sel == ConfigOption::Update(ClkSysSel::Dll1),
            r.hclk_div == ConfigOption::Update(0u8),
            r.pclk1_div == ConfigOption::Update(0u8),
            r.pclk2_div == ConfigOption::Update(0u8),
            r.usb == ConfigOption::Update(UsbConfig { sel: UsbSel::ClkSys, div: 0 }),
            r.tick == ConfigOption::Update(TickConfig { sel: TickSel::ClkRtc, div: 0 }),
            r.clk_peri_sel == ConfigOption::Update(ClkPeriSel::Hxt48),
    {
        Self {
            hxt48_enable: ConfigOption::new(true),
            hrc48_enable: ConfigOption::new(false),
            dll1: ConfigOption::new(DllConfig { enable: true, stg: 5, div2: false }),
            dll2: ConfigOption::keep(),
            clk_sys_sel: ConfigOption::new(ClkSysSel::Dll1),
            hclk_div: ConfigOption::new(0),
            pclk1_div: ConfigOption::new(0),
            pclk2_div: ConfigOption::new(0),
            usb: ConfigOption::new(UsbConfig { sel: UsbSel::ClkSys, div: 0 }),
            tick: ConfigOption::new(TickConfig { sel: TickSel::ClkRtc, div: 0 }),
            clk_peri_sel: ConfigOption::new(ClkPeriSel::Hxt48),
        }
    }
}

impl Config {
    /// A configuration that keeps every field.
    pub fn new_keep() -> (r: Self)
        ensures
            r.hxt48_enable is Keep && r.hrc48_enable is Keep && r.dll1 is Keep && r.dll2 is Keep,
            r.clk_sys_sel is Keep && r.hclk_div is Keep && r.pclk1_div is Keep && r.pclk2_div is Keep,
            r.usb is Keep && r.tick is Keep && r.clk_peri_sel is Keep,
    {
        Self {
            hxt48_enable: ConfigOption::keep(),
            hrc48_enable: ConfigOption::keep(),
            dll1: ConfigOption::keep(),
            dll2: ConfigOption::keep(),
            clk_sys_sel: ConfigOption::keep(),
            hclk_div: ConfigOption::keep(),
            pclk1_div: ConfigOption::keep(),
            pclk2_div: ConfigOption::keep(),
            usb: ConfigOption::keep(),
            tick: ConfigOption::keep(),
            clk_peri_sel: ConfigOption::keep(),
        }
    }

    /// Tests `wf`.
    pub fn is_wf(&self) -> (r: bool)
        ensures
            r == self.wf(),
    {
        let d1 = match self.dll1 {
            ConfigOption::Update(d) => d.stg <= 15,
            ConfigOption::Keep => true,
        };
        let d2 = match self.dll2 {
            ConfigOption::Update(d) => d.stg <= 15,
            ConfigOption::Keep => true,
        };
        let pc1 = match self.pclk1_div {
            ConfigOption::Update(v) => v <= 7,
            ConfigOption::Keep => true,
        };
        let pc2 = match self.pclk2_div {
            ConfigOption::Update(v) => v <= 7,
            ConfigOption::Keep => true,
        };
        let u = match self.usb {
            ConfigOption::Update(u) => u.div <= 7,
            ConfigOption::Keep => true,
        };
        let t = match self.tick {
            ConfigOption::Update(t) => t.div <= 63,
            ConfigOption::Keep => true,
        };
        d1 && d2 && pc1 && pc2 && u && t
    }

    /// The clock tree once this configuration is applied to `current`.
    pub fn apply_to(&self, current: &ClockRegs) -> (r: ClockRegs)
        ensures
            r == self.spec_apply_to(*current),
    {
        let bias = enables_dll(&self.dll1) || enables_dll(&self.dll2);
        let (sel_usbc, usb_div) = match self.usb {
            ConfigOption::Update(u) => (u.sel, u.div),
            ConfigOption::Keep => (current.sel_usbc, current.usb_div),
        };
        let (sel_tick, tick_div) = match self.tick {
            ConfigOption::Update(t) => (t.sel, t.div),
            ConfigOption::Keep => (current.sel_tick, current.tick_div),
        };
        ClockRegs {
            hxt48_req: self.hxt48_enable.apply(current.hxt48_req),
            hxt48_rdy: self.hxt48_enable.apply(current.hxt48_rdy),
            hrc48_req: self.hrc48_enable.apply(current.hrc48_req),
            hrc48_rdy: self.hrc48_enable.apply(current.hrc48_rdy),
            dll1: merge_dll_regs(&self.dll1, &current.dll1),
            dll2: merge_dll_regs(&self.dll2, &current.dll2),
            sel_sys: self.clk_sys_sel.apply(current.sel_sys),
            sel_peri: self.clk_peri_sel.apply(current.sel_peri),
            sel_usbc,
            usb_div,
            sel_tick,
            tick_div,
            hdiv: self.hclk_div.apply(current.hdiv),
            pdiv1: self.pclk1_div.apply(current.pdiv1),
            pdiv2: self.pclk2_div.apply(current.pdiv2),
            buf_dll_en: current.buf_dll_en || bias,
            hpbg_en: current.hpbg_en || bias,
            hpbg_vddpsw_en: current.hpbg_vddpsw_en || bias,
        }
    }

    /// DLL1 frequency once applied to `current`.
    pub fn get_final_dll1_freq(&self, current: &ClockRegs) -> (r: Option<Hertz>)
        requires
            self.wf(),
            current.wf(),
        ensures
            r == dll_freq(self.spec_apply_to(*current).dll1),
    {
        get_clk_dll1_freq(&self.apply_to(current))
    }

    /// DLL2 frequency once applied to `current`.
    pub fn get_final_dll2_freq(&self, current: &ClockRegs) -> (r: Option<Hertz>)
        requires
            self.wf(),
            current.wf(),
        ensures
            r == dll_freq(self.spec_apply_to(*current).dll2),
    {
        get_clk_dll2_freq(&self.apply_to(current))
    }

    /// System clock frequency once applied to `current`.
    pub fn get_final_clk_sys_freq(&self, current: &ClockRegs) -> (r: Result<Option<Hertz>, ClockError>)
        requires
            self.wf(),
            current.wf(),
        ensures
            r == clk_sys_freq(self.spec_apply_to(*current)),
    {
        get_clk_sys_freq(&self.apply_to(current))
    }

    /// Core clock frequency once applied to `current`.
    pub fn get_final_hclk_freq(&self, current: &ClockRegs) -> (r: Result<Option<Hertz>, ClockError>)
        requires
            self.wf(),
            current.wf(),
        ensures
            r == hclk_freq(self.spec_apply_to(*current)),
    {
        get_hclk_freq(&self.apply_to(current))
    }

    /// Whether the request leaves the core clock path as it is.
    pub fn hclk_is_keep(&self, current: &ClockRegs) -> (r: bool)
        ensures
            r == !self.touches_hclk(*current),
    {
        if self.clk_sys_sel.is_update() || self.hclk_div.is_update() {
            return false;
        }
        let sel = self.clk_sys_sel.apply(current.sel_sys);
        !(self.dll1.is_update() && sel == ClkSysSel::Dll1) && !(self.hxt48_enable.is_update() && sel
            == ClkSysSel::Hxt48) && !(self.hrc48_enable.is_update() && sel == ClkSysSel::Hrc48)
    }

    /// Whether DLL1 is enabled once applied to `current`.
    pub fn get_final_dll1_enable(&self, current: &ClockRegs) -> (r: bool)
        ensures
            r == self.spec_apply_to(*current).dll1.en,
    {
        match self.dll1 {
            ConfigOption::Update(d) => d.enable,
            ConfigOption::Keep => current.dll1.en,
        }
    }

    /// Whether the external oscillator runs once applied to `current`.
    pub fn get_final_hxt48_enable(&self, current: &ClockRegs) -> (r: bool)
        ensures
            r == self.spec_apply_to(*current).hxt48_rdy,
    {
        self.hxt48_enable.apply(current.hxt48_rdy)
    }

    /// Whether the internal oscillator runs once applied to `current`.
    pub fn get_final_hrc48_enable(&self, current: &ClockRegs) -> (r: bool)
        ensures
            r == self.spec_apply_to(*current).hrc48_rdy,
    {
        self.hrc48_enable.apply(current.hrc48_rdy)
    }

    /// Appends the oscillator requests that switch an oscillator on (`on`) or off.
    fn config_oscillators(&self, plan: &mut Vec<Step>, on: bool)
        ensures
            final(plan)@ == old(plan)@ + self.osc_steps(on),
    {
        if let ConfigOption::Update(enable) = self.hxt48_enable {
            if enable == on {
                plan.push(Step::SetHxt48Req(enable));
                plan.push(Step::WaitHxt48Ready(enable));
            }
        }
        if let ConfigOption::Update(enable) = self.hrc48_enable {
            if enable == on {
                plan.push(Step::SetHrc48Req(enable));
                plan.push(Step::WaitHrc48Ready(enable));
            }
        }
        assert(final(plan)@ =~= old(plan)@ + self.osc_steps(on));
    }

    fn config_buses(&self, plan: &mut Vec<Step>)
        ensures
            final(plan)@ == old(plan)@ + self.bus_steps(),
    {
        if let ConfigOption::Update(div) = self.pclk1_div {
            plan.push(Step::SetPclk1Div(div));
        }
        if let ConfigOption::Update(div) = self.pclk2_div {
            plan.push(Step::SetPclk2Div(div));
        }
        if let ConfigOption::Update(usb_cfg) = self.usb {
            plan.push(Step::SetUsbSel(usb_cfg.sel));
            plan.push(Step::SetUsbDiv(usb_cfg.div));
        }
        if let ConfigOption::Update(tick_cfg) = self.tick {
            plan.push(Step::SetTickSel(tick_cfg.sel));
            plan.push(Step::SetTickDiv(tick_cfg.div));
        }
        if let ConfigOption::Update(sel) = self.clk_peri_sel {
            plan.push(Step::SetPeriSel(sel));
        }
        assert(final(plan)@ =~= old(plan)@ + self.bus_steps());
    }

    /// Appends the core clock switch on the reading `current`, taken at the moment of the
    /// switch: DLL1's request first when DLL1 feeds the core before and after, then the
    /// source, then the divider. Refused, with nothing appended, as `hclk_check` says: in
    /// particular the core is never switched onto a DLL1 that this call does not program
    /// and that `current` does not show enabled and locked.
    pub fn config_hclk(&self, plan: &mut Vec<Step>, current: &ClockRegs) -> (r: Result<(), ClockError>)
        ensures
            r == self.hclk_check(*current),
            r is Ok ==> final(plan)@ == old(plan)@ + self.hclk_change_steps(*current),
            r is Err ==> final(plan)@ == old(plan)@,
    {
        let target = self.apply_to(current);
        if let ConfigOption::Update(sel) = self.clk_sys_sel {
            let running = match sel {
                ClkSysSel::Hrc48 => target.hrc48_rdy,
                ClkSysSel::Hxt48 => target.hxt48_rdy,
                ClkSysSel::Dbl96 => return Err(ClockError::UnsupportedSource),
                ClkSysSel::Dll1 => target.dll1.en,
            };
            if !running {
                return Err(ClockError::SourceNotReady);
            }
        }
        if target.sel_sys == ClkSysSel::Dll1 {
            if current.sel_sys == ClkSysSel::Dll1 && self.dll1.is_update() {
                if !enables_dll(&self.dll1) {
                    if !self.is_wf() {
                        return Err(ClockError::FieldOutOfRange);
                    }
                    if !dll_request_valid(&self.dll1) {
                        return Err(ClockError::InvalidDllFrequency);
                    }
                    return Err(ClockError::SourceNotReady);
                }
                if let Err(e) = self.config_dll1(plan, current) {
                    return Err(e);
                }
            } else if !(current.dll1.en && current.dll1.ready) {
                return Err(ClockError::SourceNotReady);
            }
        }
        if let ConfigOption::Update(sel) = self.clk_sys_sel {
            plan.push(Step::SetSysSel(sel));
        }
        if let ConfigOption::Update(div) = self.hclk_div {
            plan.push(Step::SetHclkDiv(div));
        }
        proof {
            let e: Seq<Step> = seq![];
            assert(old(plan)@ + e =~= old(plan)@);
        }
        assert(final(plan)@ =~= old(plan)@ + self.hclk_change_steps(*current));
        Ok(())
    }

    /// Appends the steps that program DLL1 on the reading `current`; the shared bias is
    /// switched on first unless `current` shows it on. Refused, with nothing appended, as
    /// `dll1_check` says.
    pub fn config_dll1(&self, plan: &mut Vec<Step>, current: &ClockRegs) -> (r: Result<(), ClockError>)
        ensures
            r == self.dll1_check(),
            r is Ok ==> final(plan)@ == old(plan)@ + dll_opt_steps(DllIndex::Dll1, self.dll1, bias_on(*current)),
            r is Err ==> final(plan)@ == old(plan)@,
    {
        if !self.is_wf() {
            return Err(ClockError::FieldOutOfRange);
        }
        if !dll_request_valid(&self.dll1) {
            return Err(ClockError::InvalidDllFrequency);
        }
        push_dll(plan, DllIndex::Dll1, &self.dll1, bias_is_on(current));
        Ok(())
    }

    /// Appends the steps that program DLL2, with the configuration applied to the reading
    /// `current`; DLL1's request of this configuration counts as carried out, so the
    /// shared bias is switched on first unless `current` shows it on or DLL1 was enabled.
    /// Refused, with nothing appended, as `dll2_check` says.
    pub fn config_dll2(&self, plan: &mut Vec<Step>, current: &ClockRegs) -> (r: Result<(), ClockError>)
        requires
            current.wf(),
        ensures
            r == self.dll2_check(*current),
            r is Ok ==> final(plan)@ == old(plan)@ + dll_opt_steps(
                DllIndex::Dll2,
                self.dll2,
                bias_on(*current) || enables(self.dll1),
            ),
            r is Err ==> final(plan)@ == old(plan)@,
    {
        if !self.is_wf() {
            return Err(ClockError::FieldOutOfRange);
        }
        if !dll_request_valid(&self.dll2) {
            return Err(ClockError::InvalidDllFrequency);
        }
        if enables_dll(&self.dll2) {
            let target = self.apply_to(current);
            let m = match check_mode(get_hclk_freq(&target)) {
                Ok(m) => m,
                Err(e) => return Err(e),
            };
            if let Some(f) = get_clk_dll2_freq(&target) {
                if !dll2_within_limit(m, f) {
                    return Err(ClockError::Dll2OverLimit);
                }
            }
        }
        push_dll(plan, DllIndex::Dll2, &self.dll2, bias_is_on(current) || enables_dll(&self.dll1));
        Ok(())
    }

    /// The reading at the moment of the core clock switch.
    pub fn switch_reading(&self, current: &ClockRegs) -> (r: ClockRegs)
        ensures
            r == self.spec_switch_reading(*current),
    {
        if current.sel_sys != ClkSysSel::Dll1 {
            ClockRegs { dll1: merge_dll_regs(&self.dll1, &current.dll1), ..*current }
        } else {
            *current
        }
    }

    /// Validates the request against the register file `chip` and, when it is accepted,
    /// returns the ordered steps that carry it out. A refused request yields no step.
    pub fn apply(&self, chip: &ChipState) -> (r: Result<Vec<Step>, ClockError>)
        requires
            chip.wf(),
        ensures
            r is Ok <==> self.validation(chip.clock) is Ok,
            r is Err ==> r->Err_0 == self.validation(chip.clock)->Err_0,
            r is Ok ==> r->Ok_0@ == self.plan_steps(chip.clock),
    {
        let current = &chip.clock;
        if !self.is_wf() {
            return Err(ClockError::FieldOutOfRange);
        }
        if !dll_request_valid(&self.dll1) || !dll_request_valid(&self.dll2) {
            return Err(ClockError::InvalidDllFrequency);
        }
        let target = self.apply_to(current);
        let touches = !self.hclk_is_keep(current);
        let dll2_on = enables_dll(&self.dll2);
        let cur_mode = check_mode(get_hclk_freq(current));
        let tgt_mode = check_mode(get_hclk_freq(&target));
        if touches {
            if let Err(e) = cur_mode {
                return Err(e);
            }
        }
        if touches || dll2_on {
            if let Err(e) = tgt_mode {
                return Err(e);
            }
        }
        let at_switch = self.switch_reading(current);
        if touches {
            let mut scratch: Vec<Step> = Vec::new();
            let checked = self.config_hclk(&mut scratch, &at_switch);
            if checked.is_err() {
                assert(at_switch == self.spec_switch_reading(chip.clock));
                proof {
                    lemma_validation_at_switch(*self, chip.clock);
                }
                return Err(checked.unwrap_err());
            }
        }
        if dll2_on {
            if let (Some(f), Ok(m)) = (get_clk_dll2_freq(&target), tgt_mode) {
                if !dll2_within_limit(m, f) {
                    return Err(ClockError::Dll2OverLimit);
                }
            }
        }
        let (cur_hz, tgt_hz) = match (get_hclk_freq(current), get_hclk_freq(&target)) {
            (Ok(Some(cur)), Ok(Some(tgt))) => (cur, tgt),
            _ => (Hertz(0), Hertz(0)),
        };
        let mut plan: Vec<Step> = Vec::new();
        self.config_oscillators(&mut plan, true);
        self.config_buses(&mut plan);
        self.config_core(&mut plan, current, cur_hz, tgt_hz);
        self.config_oscillators(&mut plan, false);
        let done = self.config_dll2(&mut plan, current);
        assert(done is Ok);
        assert(plan@ =~= self.plan_steps(chip.clock));
        Ok(plan)
    }

    /// Appends the DLL1 and core clock steps, for a change from a core clock of `cur_hz`
    /// to one of `tgt_hz`.
    fn config_core(&self, plan: &mut Vec<Step>, current: &ClockRegs, cur_hz: Hertz, tgt_hz: Hertz)
        requires
            self.dll1_check() is Ok,
            self.touches_hclk(*current) ==> mode_of_hz(cur_hz.0) is Some && mode_of_hz(tgt_hz.0) is Some,
            self.touches_hclk(*current) ==> self.hclk_check(self.spec_switch_reading(*current)) is Ok,
        ensures
            final(plan)@ == old(plan)@ + self.core_steps(
                *current,
                mode_of_hz(cur_hz.0)->Some_0,
                mode_of_hz(tgt_hz.0)->Some_0,
            ),
    {
        let target_sel = self.clk_sys_sel.apply(current.sel_sys);
        let live = current.sel_sys == ClkSysSel::Dll1;
        let stays = target_sel == ClkSysSel::Dll1;
        if !live {
            let done = self.config_dll1(plan, current);
            assert(done is Ok);
        }
        if !self.hclk_is_keep(current) {
            let mut clock_steps: Vec<Step> = Vec::new();
            let at_switch = self.switch_reading(current);
            let done = self.config_hclk(&mut clock_steps, &at_switch);
            assert(self.hclk_change_steps(at_switch) == self.hclk_change_steps(*current));
            assert(done is Ok);
            let done = config_hcpu_dvfs(plan, cur_hz, tgt_hz, &clock_steps);
            assert(done is Ok);
        }
        if live && !stays {
            let done = self.config_dll1(plan, current);
            assert(done is Ok);
        }
        proof {
            let d1 = dll_opt_steps(DllIndex::Dll1, self.dll1, bias_on(*current));
            let e: Seq<Step> = seq![];
            assert(e + d1 =~= d1);
            assert(d1 + e =~= d1);
            assert(e + e =~= e);
        }
        assert(final(plan)@ =~= old(plan)@ + self.core_steps(
            *current,
            mode_of_hz(cur_hz.0)->Some_0,
            mode_of_hz(tgt_hz.0)->Some_0,
        ));
    }
}

fn push_dll(plan: &mut Vec<Step>, i: DllIndex, o: &ConfigOption<DllConfig>, bias: bool)
    ensures
        final(plan)@ == old(plan)@ + dll_opt_steps(i, *o, bias),
{
    if let ConfigOption::Update(d) = o {
        if d.enable {
            if !bias {
                plan.push(Step::EnableDllBias);
            }
            plan.push(Step::ProgramDll(i, d.stg, d.div2));
            plan.push(Step::DelayUs(DLL_SETTLE_US));
            plan.push(Step::WaitDllReady(i));
        } else {
            plan.push(Step::DisableDll(i));
        }
    }
    assert(final(plan)@ =~= old(plan)@ + dll_opt_steps(i, *o, bias));
}

} // verus!
