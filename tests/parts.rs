use sifli_clock::clock::{
    dll_output, get_clk_aud_pll_freq, get_clk_dll1_freq, get_clk_dll2_freq, get_clk_peri_div2_freq,
    get_clk_peri_freq, get_clk_sys_freq, get_clk_sys_source, get_clk_usb_freq, get_hclk_freq, get_hrc48_freq,
    get_hxt48_freq, get_pclk1_freq, get_pclk2_freq, mhz_khz, query, test_print_clocks, ClockNode,
};
use sifli_clock::config::{dll2_within_limit, dll_frequency_valid, ConfigOption};
use sifli_clock::dvfs::{is_hpsys_dvfs_mode_s, transition_for, HpsysDvfsMode, Transition};
use sifli_clock::error::ClockError;
use sifli_clock::gpio::{AnyPin, Level};
use sifli_clock::rcc::{disable, enable_and_reset, PeripheralStep};
use sifli_clock::regs::{ClkPeriSel, ClkSysSel, ClockRegs, DllRegs, PowerRegs, TickSel, UsbSel};
use sifli_clock::step::{wait_decision, WaitDecision};
use sifli_clock::syscfg::{get_pid, get_revid, is_letter_series};
use sifli_clock::time::Hertz;
use sifli_clock::timer::Channel;

fn regs() -> ClockRegs {
    ClockRegs {
        hxt48_req: true,
        hxt48_rdy: true,
        hrc48_req: false,
        hrc48_rdy: false,
        dll1: DllRegs { en: true, stg: 9, out_div2_en: false, ready: true },
        dll2: DllRegs { en: true, stg: 11, out_div2_en: true, ready: true },
        sel_sys: ClkSysSel::Dll1,
        sel_peri: ClkPeriSel::Hxt48,
        sel_usbc: UsbSel::Dll2,
        usb_div: 0,
        sel_tick: TickSel::ClkRtc,
        tick_div: 0,
        hdiv: 1,
        pdiv1: 1,
        pdiv2: 4,
        buf_dll_en: true,
        hpbg_en: true,
        hpbg_vddpsw_en: true,
    }
}

#[test]
fn dll_frequency_law_boundaries() {
    assert_eq!(dll_output(0, false), Hertz(24_000_000));
    assert!(dll_frequency_valid(0, false));
    assert_eq!(dll_output(0, true), Hertz(12_000_000));
    assert!(!dll_frequency_valid(0, true));
    assert_eq!(dll_output(15, false), Hertz(384_000_000));
    assert!(dll_frequency_valid(15, false));
    for stg in 0u8..=15 {
        for div2 in [false, true] {
            let f = (stg as u32 + 1) * 24_000_000 / if div2 { 2 } else { 1 };
            assert_eq!(dll_output(stg, div2), Hertz(f));
            assert_eq!(dll_frequency_valid(stg, div2), (24_000_000..=384_000_000).contains(&f));
        }
    }
}

#[test]
fn dvfs_banding() {
    assert_eq!(HpsysDvfsMode::from_frequency(0), Ok(HpsysDvfsMode::D0));
    assert_eq!(HpsysDvfsMode::from_frequency(24), Ok(HpsysDvfsMode::D0));
    assert_eq!(HpsysDvfsMode::from_frequency(25), Ok(HpsysDvfsMode::D1));
    assert_eq!(HpsysDvfsMode::from_frequency(48), Ok(HpsysDvfsMode::D1));
    assert_eq!(HpsysDvfsMode::from_frequency(49), Ok(HpsysDvfsMode::S0));
    assert_eq!(HpsysDvfsMode::from_frequency(144), Ok(HpsysDvfsMode::S0));
    assert_eq!(HpsysDvfsMode::from_frequency(145), Ok(HpsysDvfsMode::S1));
    assert_eq!(HpsysDvfsMode::from_frequency(240), Ok(HpsysDvfsMode::S1));
    assert!(HpsysDvfsMode::from_frequency(241).is_err());
    assert_eq!(HpsysDvfsMode::from_hertz(Hertz(24_999_999)), Ok(HpsysDvfsMode::D0));
    assert_eq!(HpsysDvfsMode::from_hertz(Hertz(240_999_999)), Ok(HpsysDvfsMode::S1));
    assert!(HpsysDvfsMode::from_hertz(Hertz(241_000_000)).is_err());
}

#[test]
fn mode_tables() {
    assert_eq!(HpsysDvfsMode::D0.get_dll2_limit(), Hertz(0));
    assert_eq!(HpsysDvfsMode::D1.get_dll2_limit(), Hertz(0));
    assert_eq!(HpsysDvfsMode::S0.get_dll2_limit(), Hertz(288_000_000));
    assert_eq!(HpsysDvfsMode::S1.get_dll2_limit(), Hertz(288_000_000));
    assert_eq!(HpsysDvfsMode::S0.get_frequency_limit(), Hertz(144_000_000));
    assert_eq!(HpsysDvfsMode::D0.get_frequency_limit(), Hertz(24_000_000));
    assert_eq!(HpsysDvfsMode::D1.get_config().ulpmcr, 0x00110331);
    assert_eq!(HpsysDvfsMode::D0.get_config().ldo_offset, -5);
    assert_eq!(HpsysDvfsMode::S1.get_config().buck, 0xF);
    let p = PowerRegs { ldo_vsel: true, buck_vout: 0, hpsys_vout: 0, buck_vout_m: 0, ldo_vref: 0, ulpmcr: 0 };
    assert!(!is_hpsys_dvfs_mode_s(&p));
}

#[test]
fn dll2_ceiling_per_mode() {
    assert!(!dll2_within_limit(HpsysDvfsMode::D0, Hertz(12_000_000)));
    assert!(!dll2_within_limit(HpsysDvfsMode::D1, Hertz(1)));
    assert!(dll2_within_limit(HpsysDvfsMode::S0, Hertz(288_000_000)));
    assert!(!dll2_within_limit(HpsysDvfsMode::S1, Hertz(312_000_000)));
}

#[test]
fn dispatch_covers_all_pairs() {
    let modes = [HpsysDvfsMode::D0, HpsysDvfsMode::D1, HpsysDvfsMode::S0, HpsysDvfsMode::S1];
    let is_s = |m: HpsysDvfsMode| m == HpsysDvfsMode::S0 || m == HpsysDvfsMode::S1;
    for c in modes {
        for t in modes {
            let want = if c == t {
                Transition::Same
            } else if !is_s(c) && is_s(t) {
                Transition::RaiseToS
            } else if is_s(c) && !is_s(t) {
                Transition::LowerToD
            } else if is_s(c) {
                Transition::RetrimS
            } else {
                Transition::BetweenD
            };
            assert_eq!(transition_for(c, t), want);
        }
    }
    assert_eq!(transition_for(HpsysDvfsMode::D0, HpsysDvfsMode::D1), Transition::BetweenD);
    assert_eq!(transition_for(HpsysDvfsMode::S1, HpsysDvfsMode::S0), Transition::RetrimS);
}

#[test]
fn overlay_merge() {
    assert_eq!(ConfigOption::<u8>::Keep.apply(7), 7);
    assert_eq!(ConfigOption::Update(3u8).apply(7), 3);
    assert_eq!(ConfigOption::new(5u8), ConfigOption::Update(5));
    assert!(ConfigOption::<u8>::keep().is_keep());
    assert!(ConfigOption::new(1u8).is_update());
    assert!(!ConfigOption::new(1u8).is_keep());
}

#[test]
fn derived_frequencies() {
    let r = regs();
    assert_eq!(get_clk_sys_source(&r), ClkSysSel::Dll1);
    assert_eq!(get_clk_sys_freq(&r), Ok(Some(Hertz(240_000_000))));
    assert_eq!(get_hclk_freq(&r), Ok(Some(Hertz(240_000_000))));
    assert_eq!(get_pclk1_freq(&r), Ok(Some(Hertz(120_000_000))));
    assert_eq!(get_pclk2_freq(&r), Ok(Some(Hertz(15_000_000))));
    assert_eq!(get_hxt48_freq(&r), Some(Hertz(48_000_000)));
    assert_eq!(get_hrc48_freq(&r), None);
    assert_eq!(get_clk_peri_freq(&r), Some(Hertz(48_000_000)));
    assert_eq!(get_clk_peri_div2_freq(&r), Some(Hertz(24_000_000)));
    assert_eq!(get_clk_dll1_freq(&r), Some(Hertz(240_000_000)));
    assert_eq!(get_clk_dll2_freq(&r), Some(Hertz(144_000_000)));
    assert_eq!(get_clk_usb_freq(&r), Ok(Some(Hertz(144_000_000))));
    assert_eq!(get_clk_aud_pll_freq(), Some(Hertz(49_152_000)));
}

#[test]
fn core_divider_zero_passes_through() {
    let mut r = regs();
    r.hdiv = 0;
    assert_eq!(get_hclk_freq(&r), Ok(Some(Hertz(240_000_000))));
    r.hdiv = 3;
    assert_eq!(get_hclk_freq(&r), Ok(Some(Hertz(80_000_000))));
}

#[test]
fn disabled_sources_give_none() {
    let mut r = regs();
    r.dll1.en = false;
    assert_eq!(get_clk_sys_freq(&r), Ok(None));
    assert_eq!(get_hclk_freq(&r), Ok(None));
    assert_eq!(get_pclk1_freq(&r), Ok(None));
    r.sel_sys = ClkSysSel::Hrc48;
    assert_eq!(get_hclk_freq(&r), Ok(None));
}

#[test]
fn doubler_source_is_refused() {
    let mut r = regs();
    r.sel_sys = ClkSysSel::Dbl96;
    assert_eq!(get_clk_sys_freq(&r), Err(ClockError::UnsupportedSource));
    assert_eq!(get_pclk2_freq(&r), Err(ClockError::UnsupportedSource));
    assert_eq!(test_print_clocks(&r), Err(ClockError::UnsupportedSource));
    r.sel_usbc = UsbSel::ClkSys;
    assert_eq!(get_clk_usb_freq(&r), Err(ClockError::UnsupportedSource));
}

#[test]
fn clock_listing() {
    let r = regs();
    let lines = test_print_clocks(&r).unwrap();
    assert_eq!(lines.len(), 12);
    assert_eq!(lines[0], (ClockNode::ClkSys, Some(Hertz(240_000_000))));
    assert_eq!(lines[7], (ClockNode::Hrc48, None));
    assert_eq!(lines[11], (ClockNode::ClkAudPll, Some(Hertz(49_152_000))));
    assert_eq!(lines[3].0.name(), "hclk");
    assert_eq!(query(&r, ClockNode::Pclk2), Ok(Some(Hertz(15_000_000))));
    assert_eq!(mhz_khz(Hertz(49_152_000)), (49, 152));
    assert_eq!(mhz_khz(Hertz(240_000_000)), (240, 0));
}

#[test]
fn bounded_wait_decisions() {
    assert_eq!(wait_decision(true, true, 5, 3), WaitDecision::Done);
    assert_eq!(wait_decision(false, true, 2, 3), WaitDecision::Retry);
    assert_eq!(wait_decision(false, true, 3, 3), WaitDecision::TimedOut);
}

#[test]
fn peripheral_sequences() {
    assert_eq!(
        enable_and_reset(),
        vec![
            PeripheralStep::SetEnable(true),
            PeripheralStep::SetReset(true),
            PeripheralStep::WaitReset(true),
            PeripheralStep::SetReset(false),
        ]
    );
    assert_eq!(disable(), vec![PeripheralStep::SetEnable(false)]);
}

#[test]
fn chip_identification() {
    let idr: u32 = 0x0000_A5FF;
    assert_eq!(get_pid(idr), 0xA5);
    assert_eq!(get_revid(idr), 0xFF);
    assert!(is_letter_series(idr));
    assert!(!is_letter_series(0x0000_A503));
}

#[test]
fn gpio_levels_and_pins() {
    assert_eq!(Level::from(true), Level::High);
    assert_eq!(Level::from(false), Level::Low);
    assert!(bool::from(Level::High));
    assert_eq!(Level::High.toggled(), Level::Low);
    let p = AnyPin::steal(128 + 26);
    assert_eq!(p.pin(), 26);
    assert_eq!(p.bank(), 1);
    assert_eq!(p.pin_bank(), 154);
}

#[test]
fn timer_channel_index() {
    assert_eq!(Channel::Ch1.index(), 0);
    assert_eq!(Channel::Ch4.index(), 3);
    assert_eq!(Channel::Ch6.index(), 5);
}
