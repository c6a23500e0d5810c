use sifli_clock::clock::{get_hclk_freq, query, ClockNode};
use sifli_clock::config::{Config, ConfigOption, DllConfig, TickConfig, UsbConfig};
use sifli_clock::dvfs::HpsysDvfsMode;
use sifli_clock::error::ClockError;
use sifli_clock::regs::{ChipState, ClkPeriSel, ClkSysSel, ClockRegs, DllRegs, PowerRegs, TickSel, UsbSel};
use sifli_clock::step::{simulate, DllIndex, Step};
use sifli_clock::time::Hertz;

fn dll_off() -> DllRegs {
    DllRegs { en: false, stg: 0, out_div2_en: false, ready: false }
}

/// External oscillator on, core on the internal oscillator at 48 MHz (mode D1).
fn chip_on_hrc48() -> ChipState {
    ChipState {
        clock: ClockRegs {
            hxt48_req: true,
            hxt48_rdy: true,
            hrc48_req: true,
            hrc48_rdy: true,
            dll1: dll_off(),
            dll2: dll_off(),
            sel_sys: ClkSysSel::Hrc48,
            sel_peri: ClkPeriSel::Hxt48,
            sel_usbc: UsbSel::ClkSys,
            usb_div: 0,
            sel_tick: TickSel::ClkRtc,
            tick_div: 0,
            hdiv: 0,
            pdiv1: 1,
            pdiv2: 4,
            buf_dll_en: false,
            hpbg_en: false,
            hpbg_vddpsw_en: false,
        },
        power: PowerRegs { ldo_vsel: true, buck_vout: 0xA, hpsys_vout: 0x8, buck_vout_m: 0xA, ldo_vref: 5, ulpmcr: 0x00110331 },
    }
}

/// Core on DLL1 at 240 MHz (mode S1), on the switching regulator.
fn chip_on_dll1_240() -> ChipState {
    let mut c = chip_on_hrc48();
    c.clock.dll1 = DllRegs { en: true, stg: 9, out_div2_en: false, ready: true };
    c.clock.sel_sys = ClkSysSel::Dll1;
    c.clock.buf_dll_en = true;
    c.clock.hpbg_en = true;
    c.clock.hpbg_vddpsw_en = true;
    c.power = PowerRegs { ldo_vsel: false, buck_vout: 0xF, hpsys_vout: 0xD, buck_vout_m: 0xA, ldo_vref: 5, ulpmcr: 0x00130213 };
    c
}

fn hclk_mhz(c: &ChipState) -> u32 {
    get_hclk_freq(&c.clock).unwrap().unwrap().0 / 1_000_000
}

#[test]
fn end_to_end_switch_to_dll1_240mhz() {
    let chip = chip_on_hrc48();
    assert_eq!(hclk_mhz(&chip), 48);
    assert_eq!(HpsysDvfsMode::from_hertz(Hertz(48_000_000)), Ok(HpsysDvfsMode::D1));
    let mut cfg = Config::new_keep();
    cfg.dll1 = ConfigOption::Update(DllConfig { enable: true, stg: 9, div2: false });
    cfg.clk_sys_sel = ConfigOption::Update(ClkSysSel::Dll1);
    cfg.hclk_div = ConfigOption::Update(0);
    let steps = cfg.apply(&chip).unwrap();
    assert_eq!(
        steps,
        vec![
            Step::EnableDllBias,
            Step::ProgramDll(DllIndex::Dll1, 9, false),
            Step::DelayUs(10),
            Step::WaitDllReady(DllIndex::Dll1),
            Step::SetBuckVout(0xF),
            Step::SetLdoVout(0xD),
            Step::SetLdoVsel(false),
            Step::DelayUs(250),
            Step::SetSysSel(ClkSysSel::Dll1),
            Step::SetHclkDiv(0),
        ]
    );
    let after = simulate(&chip, &steps);
    assert_eq!(get_hclk_freq(&after.clock), Ok(Some(Hertz(240_000_000))));
    assert_eq!(HpsysDvfsMode::from_hertz(Hertz(240_000_000)), Ok(HpsysDvfsMode::S1));
    assert!(!after.power.ldo_vsel);
    assert_eq!(after.clock, cfg.apply_to(&chip.clock));
}

#[test]
fn s_to_d_drops_voltage_last() {
    let chip = chip_on_dll1_240();
    let mut cfg = Config::new_keep();
    cfg.clk_sys_sel = ConfigOption::Update(ClkSysSel::Hxt48);
    cfg.dll1 = ConfigOption::Update(DllConfig { enable: false, stg: 0, div2: false });
    let steps = cfg.apply(&chip).unwrap();
    assert_eq!(
        steps,
        vec![
            Step::SetBuckVoutM(0xA),
            Step::SetLdoVref(5),
            Step::SetSysSel(ClkSysSel::Hxt48),
            Step::SetUlpmcr(0x00110331),
            Step::SetLdoVsel(true),
            Step::DisableDll(DllIndex::Dll1),
        ]
    );
    let after = simulate(&chip, &steps);
    assert_eq!(hclk_mhz(&after), 48);
    assert!(after.power.ldo_vsel);
    assert_eq!(after.clock.dll1.en, false);
}

#[test]
fn between_s_modes_retrims_then_switches() {
    let chip = chip_on_dll1_240();
    let mut cfg = Config::new_keep();
    cfg.hclk_div = ConfigOption::Update(2);
    let steps = cfg.apply(&chip).unwrap();
    assert_eq!(
        steps,
        vec![Step::SetBuckVout(0xD), Step::SetLdoVout(0xB), Step::DelayUs(250), Step::SetHclkDiv(2)]
    );
    assert_eq!(hclk_mhz(&simulate(&chip, &steps)), 120);
}

#[test]
fn between_d_modes_uses_the_s_to_d_sequence() {
    let chip = chip_on_hrc48();
    let mut cfg = Config::new_keep();
    cfg.hclk_div = ConfigOption::Update(2);
    let steps = cfg.apply(&chip).unwrap();
    assert_eq!(
        steps,
        vec![
            Step::SetBuckVoutM(0x9),
            Step::SetLdoVref(1),
            Step::SetHclkDiv(2),
            Step::SetUlpmcr(0x00100330),
            Step::SetLdoVsel(true),
        ]
    );
    assert_eq!(hclk_mhz(&simulate(&chip, &steps)), 24);
}

#[test]
fn same_mode_runs_clock_change_only() {
    let chip = chip_on_hrc48();
    let mut cfg = Config::new_keep();
    cfg.clk_sys_sel = ConfigOption::Update(ClkSysSel::Hxt48);
    let steps = cfg.apply(&chip).unwrap();
    assert_eq!(steps, vec![Step::SetSysSel(ClkSysSel::Hxt48)]);
}

#[test]
fn reprogramming_live_dll1_happens_inside_the_clock_change() {
    let chip = chip_on_dll1_240();
    let mut cfg = Config::new_keep();
    cfg.dll1 = ConfigOption::Update(DllConfig { enable: true, stg: 5, div2: false });
    let steps = cfg.apply(&chip).unwrap();
    assert_eq!(
        steps,
        vec![
            Step::SetBuckVout(0xD),
            Step::SetLdoVout(0xB),
            Step::DelayUs(250),
            Step::ProgramDll(DllIndex::Dll1, 5, false),
            Step::DelayUs(10),
            Step::WaitDllReady(DllIndex::Dll1),
        ]
    );
    assert_eq!(hclk_mhz(&simulate(&chip, &steps)), 144);
}

#[test]
fn keep_everything_yields_no_step() {
    let chip = chip_on_hrc48();
    let cfg = Config::new_keep();
    assert_eq!(cfg.apply(&chip), Ok(vec![]));
    assert_eq!(cfg.apply_to(&chip.clock), chip.clock);
}

#[test]
fn bus_and_oscillator_fields_are_written_in_order() {
    let chip = chip_on_hrc48();
    let mut cfg = Config::new_keep();
    cfg.hxt48_enable = ConfigOption::Update(false);
    cfg.pclk1_div = ConfigOption::Update(3);
    cfg.usb = ConfigOption::Update(UsbConfig { sel: UsbSel::Dll2, div: 2 });
    cfg.tick = ConfigOption::Update(TickConfig { sel: TickSel::Hxt48, div: 10 });
    cfg.clk_peri_sel = ConfigOption::Update(ClkPeriSel::Hxt48);
    let steps = cfg.apply(&chip).unwrap();
    assert_eq!(
        steps,
        vec![
            Step::SetPclk1Div(3),
            Step::SetUsbSel(UsbSel::Dll2),
            Step::SetUsbDiv(2),
            Step::SetTickSel(TickSel::Hxt48),
            Step::SetTickDiv(10),
            Step::SetPeriSel(ClkPeriSel::Hxt48),
            Step::SetHxt48Req(false),
            Step::WaitHxt48Ready(false),
        ]
    );
    let after = simulate(&chip, &steps);
    assert_eq!(after.clock, cfg.apply_to(&chip.clock));
    assert_eq!(query(&after.clock, ClockNode::ClkPeri), Ok(None));
}

#[test]
fn switching_off_the_running_oscillator_is_refused() {
    let chip = chip_on_hrc48();
    let mut cfg = Config::new_keep();
    cfg.hrc48_enable = ConfigOption::Update(false);
    assert_eq!(cfg.apply(&chip), Err(ClockError::SourceNotReady));
}

#[test]
fn oscillator_is_stopped_after_the_core_leaves_it() {
    let mut chip = chip_on_hrc48();
    chip.clock.sel_sys = ClkSysSel::Hxt48;
    let mut cfg = Config::new_keep();
    cfg.clk_sys_sel = ConfigOption::Update(ClkSysSel::Hrc48);
    cfg.hxt48_enable = ConfigOption::Update(false);
    let steps = cfg.apply(&chip).unwrap();
    assert_eq!(
        steps,
        vec![Step::SetSysSel(ClkSysSel::Hrc48), Step::SetHxt48Req(false), Step::WaitHxt48Ready(false)]
    );
}

#[test]
fn oscillator_is_started_before_the_core_moves_onto_it() {
    let mut chip = chip_on_hrc48();
    chip.clock.hxt48_req = false;
    chip.clock.hxt48_rdy = false;
    let mut cfg = Config::new_keep();
    cfg.clk_sys_sel = ConfigOption::Update(ClkSysSel::Hxt48);
    cfg.hxt48_enable = ConfigOption::Update(true);
    let steps = cfg.apply(&chip).unwrap();
    assert_eq!(
        steps,
        vec![Step::SetHxt48Req(true), Step::WaitHxt48Ready(true), Step::SetSysSel(ClkSysSel::Hxt48)]
    );
}

#[test]
fn dll_helpers_refuse_before_writing() {
    let chip = chip_on_hrc48();
    let mut plan: Vec<Step> = Vec::new();

    let mut cfg = Config::new_keep();
    cfg.dll1 = ConfigOption::Update(DllConfig { enable: true, stg: 0, div2: true });
    assert_eq!(cfg.config_dll1(&mut plan, &chip.clock), Err(ClockError::InvalidDllFrequency));
    assert!(plan.is_empty());
    cfg.dll1 = ConfigOption::Update(DllConfig { enable: true, stg: 0, div2: false });
    assert_eq!(cfg.config_dll1(&mut plan, &chip.clock), Ok(()));
    assert_eq!(
        plan,
        vec![
            Step::EnableDllBias,
            Step::ProgramDll(DllIndex::Dll1, 0, false),
            Step::DelayUs(10),
            Step::WaitDllReady(DllIndex::Dll1),
        ]
    );

    let mut plan: Vec<Step> = Vec::new();
    let mut cfg = Config::new_keep();
    cfg.dll2 = ConfigOption::Update(DllConfig { enable: true, stg: 0, div2: false });
    assert_eq!(cfg.config_dll2(&mut plan, &chip.clock), Err(ClockError::Dll2OverLimit));
    assert!(plan.is_empty());

    let fast = chip_on_dll1_240();
    cfg.dll2 = ConfigOption::Update(DllConfig { enable: true, stg: 12, div2: false });
    assert_eq!(cfg.config_dll2(&mut plan, &fast.clock), Err(ClockError::Dll2OverLimit));
    assert!(plan.is_empty());
    cfg.dll2 = ConfigOption::Update(DllConfig { enable: true, stg: 11, div2: false });
    assert_eq!(cfg.config_dll2(&mut plan, &fast.clock), Ok(()));
    assert_eq!(
        plan,
        vec![Step::ProgramDll(DllIndex::Dll2, 11, false), Step::DelayUs(10), Step::WaitDllReady(DllIndex::Dll2)]
    );
}

#[test]
fn core_switch_helper_refuses_unusable_sources() {
    let chip = chip_on_hrc48();
    let mut plan: Vec<Step> = Vec::new();
    let mut cfg = Config::new_keep();
    cfg.clk_sys_sel = ConfigOption::Update(ClkSysSel::Dbl96);
    assert_eq!(cfg.config_hclk(&mut plan, &chip.clock), Err(ClockError::UnsupportedSource));
    cfg.clk_sys_sel = ConfigOption::Update(ClkSysSel::Dll1);
    assert_eq!(cfg.config_hclk(&mut plan, &chip.clock), Err(ClockError::SourceNotReady));
    assert!(plan.is_empty());
    cfg.clk_sys_sel = ConfigOption::Update(ClkSysSel::Hxt48);
    cfg.hclk_div = ConfigOption::Update(2);
    assert_eq!(cfg.config_hclk(&mut plan, &chip.clock), Ok(()));
    assert_eq!(plan, vec![Step::SetSysSel(ClkSysSel::Hxt48), Step::SetHclkDiv(2)]);
}

#[test]
fn applying_twice_gives_the_same_frequencies() {
    let chip = chip_on_hrc48();
    let mut cfg = Config::default();
    cfg.dll2 = ConfigOption::Update(DllConfig { enable: true, stg: 11, div2: false });
    let once = simulate(&chip, &cfg.apply(&chip).unwrap());
    let twice = simulate(&once, &cfg.apply(&once).unwrap());
    assert_eq!(once.clock, twice.clock);
    for node in [ClockNode::ClkSys, ClockNode::Hclk, ClockNode::Pclk1, ClockNode::Pclk2, ClockNode::ClkDll2, ClockNode::ClkUsb] {
        assert_eq!(query(&once.clock, node), query(&twice.clock, node));
    }
    assert_eq!(hclk_mhz(&twice), 144);
}

#[test]
fn dll2_needs_an_s_mode() {
    let chip = chip_on_hrc48();
    let mut cfg = Config::new_keep();
    cfg.dll2 = ConfigOption::Update(DllConfig { enable: true, stg: 0, div2: false });
    assert_eq!(cfg.apply(&chip), Err(ClockError::Dll2OverLimit));
    cfg.dll2 = ConfigOption::Update(DllConfig { enable: false, stg: 0, div2: false });
    assert_eq!(cfg.apply(&chip), Ok(vec![Step::DisableDll(DllIndex::Dll2)]));
}

#[test]
fn dll2_ceiling_in_s_modes_is_288mhz() {
    let chip = chip_on_dll1_240();
    let mut cfg = Config::new_keep();
    cfg.dll2 = ConfigOption::Update(DllConfig { enable: true, stg: 11, div2: false });
    assert_eq!(
        cfg.apply(&chip),
        Ok(vec![Step::ProgramDll(DllIndex::Dll2, 11, false), Step::DelayUs(10), Step::WaitDllReady(DllIndex::Dll2)])
    );
    cfg.dll2 = ConfigOption::Update(DllConfig { enable: true, stg: 12, div2: false });
    assert_eq!(cfg.apply(&chip), Err(ClockError::Dll2OverLimit));
}

#[test]
fn each_error_has_its_input() {
    let chip = chip_on_hrc48();
    let mut cfg = Config::new_keep();
    cfg.pclk1_div = ConfigOption::Update(8);
    assert_eq!(cfg.apply(&chip), Err(ClockError::FieldOutOfRange));

    let mut cfg = Config::new_keep();
    cfg.dll1 = ConfigOption::Update(DllConfig { enable: true, stg: 16, div2: true });
    assert_eq!(cfg.apply(&chip), Err(ClockError::FieldOutOfRange));

    let mut cfg = Config::new_keep();
    cfg.dll1 = ConfigOption::Update(DllConfig { enable: true, stg: 0, div2: true });
    assert_eq!(cfg.apply(&chip), Err(ClockError::InvalidDllFrequency));

    let mut cfg = Config::new_keep();
    cfg.clk_sys_sel = ConfigOption::Update(ClkSysSel::Dbl96);
    assert_eq!(cfg.apply(&chip), Err(ClockError::UnsupportedSource));

    let mut cfg = Config::new_keep();
    cfg.hxt48_enable = ConfigOption::Update(false);
    cfg.clk_sys_sel = ConfigOption::Update(ClkSysSel::Hxt48);
    assert_eq!(cfg.apply(&chip), Err(ClockError::SourceNotReady));

    let mut cfg = Config::new_keep();
    cfg.dll1 = ConfigOption::Update(DllConfig { enable: true, stg: 15, div2: false });
    cfg.clk_sys_sel = ConfigOption::Update(ClkSysSel::Dll1);
    assert_eq!(cfg.apply(&chip), Err(ClockError::FrequencyOutOfRange));
}

#[test]
fn refused_request_leaves_registers_alone() {
    let chip = chip_on_hrc48();
    let mut cfg = Config::new_keep();
    cfg.hxt48_enable = ConfigOption::Update(false);
    cfg.dll1 = ConfigOption::Update(DllConfig { enable: true, stg: 0, div2: true });
    assert!(cfg.apply(&chip).is_err());
    assert_eq!(chip, chip_on_hrc48());
}

#[test]
fn final_values_follow_the_overlay() {
    let chip = chip_on_hrc48();
    let mut cfg = Config::new_keep();
    cfg.dll1 = ConfigOption::Update(DllConfig { enable: true, stg: 3, div2: true });
    assert_eq!(cfg.get_final_dll1_freq(&chip.clock), Some(Hertz(48_000_000)));
    assert_eq!(cfg.get_final_dll2_freq(&chip.clock), None);
    assert!(cfg.get_final_dll1_enable(&chip.clock));
    assert!(cfg.get_final_hxt48_enable(&chip.clock));
    assert!(cfg.get_final_hrc48_enable(&chip.clock));
    assert!(cfg.hclk_is_keep(&chip.clock));
    cfg.clk_sys_sel = ConfigOption::Update(ClkSysSel::Dll1);
    cfg.hclk_div = ConfigOption::Update(4);
    assert!(!cfg.hclk_is_keep(&chip.clock));
    assert_eq!(cfg.get_final_clk_sys_freq(&chip.clock), Ok(Some(Hertz(48_000_000))));
    assert_eq!(cfg.get_final_hclk_freq(&chip.clock), Ok(Some(Hertz(12_000_000))));
}

#[test]
fn each_overlay_field_changes_only_its_own_register() {
    let chip = chip_on_hrc48();
    let mut cfg = Config::new_keep();
    cfg.pclk2_div = ConfigOption::Update(7);
    let mut want = chip.clock;
    want.pdiv2 = 7;
    assert_eq!(cfg.apply_to(&chip.clock), want);

    let mut cfg = Config::new_keep();
    cfg.hxt48_enable = ConfigOption::Update(false);
    let mut want = chip.clock;
    want.hxt48_req = false;
    want.hxt48_rdy = false;
    assert_eq!(cfg.apply_to(&chip.clock), want);

    let mut a = Config::new_keep();
    a.pclk1_div = ConfigOption::Update(2);
    a.hclk_div = ConfigOption::Update(1);
    let mut b = Config::new_keep();
    b.hclk_div = ConfigOption::Update(1);
    b.pclk1_div = ConfigOption::Update(2);
    assert_eq!(a.apply_to(&chip.clock), b.apply_to(&chip.clock));
}

#[test]
fn core_switch_never_lands_on_an_unlocked_dll1() {
    let chip = chip_on_hrc48();
    let mut cfg = Config::new_keep();
    cfg.dll1 = ConfigOption::Update(DllConfig { enable: true, stg: 9, div2: false });
    cfg.clk_sys_sel = ConfigOption::Update(ClkSysSel::Dll1);
    let mut plan: Vec<Step> = Vec::new();
    assert_eq!(cfg.config_hclk(&mut plan, &chip.clock), Err(ClockError::SourceNotReady));
    assert!(plan.is_empty());

    let at_switch = cfg.switch_reading(&chip.clock);
    assert!(at_switch.dll1.en && at_switch.dll1.ready);
    assert_eq!(cfg.config_hclk(&mut plan, &at_switch), Ok(()));
    assert_eq!(plan, vec![Step::SetSysSel(ClkSysSel::Dll1)]);
}

#[test]
fn core_switch_programs_dll1_when_it_feeds_the_core() {
    let chip = chip_on_dll1_240();
    let mut cfg = Config::new_keep();
    cfg.dll1 = ConfigOption::Update(DllConfig { enable: true, stg: 5, div2: false });
    cfg.clk_sys_sel = ConfigOption::Update(ClkSysSel::Dll1);
    let mut plan: Vec<Step> = Vec::new();
    assert_eq!(cfg.config_hclk(&mut plan, &chip.clock), Ok(()));
    assert_eq!(
        plan,
        vec![
            Step::ProgramDll(DllIndex::Dll1, 5, false),
            Step::DelayUs(10),
            Step::WaitDllReady(DllIndex::Dll1),
            Step::SetSysSel(ClkSysSel::Dll1),
        ]
    );
    cfg.dll1 = ConfigOption::Update(DllConfig { enable: false, stg: 5, div2: false });
    let mut plan: Vec<Step> = Vec::new();
    assert_eq!(cfg.config_hclk(&mut plan, &chip.clock), Err(ClockError::SourceNotReady));
    assert!(plan.is_empty());
}
