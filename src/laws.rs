use vstd::prelude::*;

use crate::config::{bias_on, dll_opt_steps, enables, merge_dll, Config, ConfigOption, DllConfig};
use crate::dvfs::{transition_steps, HpsysDvfsMode};
use crate::regs::{ChipState, ClkSysSel, ClockRegs};
use crate::step::{
    lemma_run_append, lemma_run_clock_only, lemma_run_empty, lemma_run_one, lemma_run_three,
    lemma_run_two, run, DllIndex, Step, is_clock_step, lemma_run_clock_steps,
};

verus! {


/// A DLL request on the clock tree: the DLL merged, and the shared bias on if it enables it.
pub open spec fn dll_effect(i: DllIndex, o: ConfigOption<DllConfig>, k: ClockRegs) -> ClockRegs {
    let e = enables(o);
    let k2 = ClockRegs { buf_dll_en: k.buf_dll_en || e, hpbg_en: k.hpbg_en || e, hpbg_vddpsw_en: k.hpbg_vddpsw_en || e, ..k };
    match i {
        DllIndex::Dll1 => ClockRegs { dll1: merge_dll(o, k.dll1), ..k2 },
        DllIndex::Dll2 => ClockRegs { dll2: merge_dll(o, k.dll2), ..k2 },
    }
}


proof fn lemma_program_dll(c: ChipState, i: DllIndex, d: DllConfig)
    requires
        bias_on(c.clock),
        d.enable,
    ensures
        run(c, seq![
            Step::ProgramDll(i, d.stg, d.div2),
            Step::DelayUs(crate::config::DLL_SETTLE_US),
            Step::WaitDllReady(i),
        ]).clock == dll_effect(i, ConfigOption::Update(d), c.clock),
{
    let p = Step::ProgramDll(i, d.stg, d.div2);
    let w = Step::DelayUs(crate::config::DLL_SETTLE_US);
    let r = Step::WaitDllReady(i);
    lemma_run_three(c, p, w, r);
    match i {
        DllIndex::Dll1 => {
            assert(crate::step::step_effect(crate::step::step_effect(crate::step::step_effect(c, p), w), r).clock
                =~= dll_effect(i, ConfigOption::Update(d), c.clock));
        },
        DllIndex::Dll2 => {
            assert(crate::step::step_effect(crate::step::step_effect(crate::step::step_effect(c, p), w), r).clock
                =~= dll_effect(i, ConfigOption::Update(d), c.clock));
        },
    }
}

proof fn lemma_dll_steps(c: ChipState, i: DllIndex, o: ConfigOption<DllConfig>, bias: bool)
    requires
        bias ==> bias_on(c.clock),
    ensures
        run(c, dll_opt_steps(i, o, bias)).clock == dll_effect(i, o, c.clock),
{
    match o {
        ConfigOption::Update(d) => {
            if d.enable {
                let e: Seq<Step> = seq![];
                let b = if bias { e } else { seq![Step::EnableDllBias] };
                let m = seq![
                    Step::ProgramDll(i, d.stg, d.div2),
                    Step::DelayUs(crate::config::DLL_SETTLE_US),
                    Step::WaitDllReady(i),
                ];
                assert(dll_opt_steps(i, o, bias) == b + m);
                lemma_run_append(c, b, m);
                let c1 = run(c, b);
                if bias {
                    lemma_run_empty(c);
                } else {
                    lemma_run_one(c, Step::EnableDllBias);
                }
                assert(c1.clock == ClockRegs { buf_dll_en: true, hpbg_en: true, hpbg_vddpsw_en: true, ..c.clock });
                lemma_program_dll(c1, i, d);
                assert(dll_effect(i, o, c1.clock) =~= dll_effect(i, o, c.clock));
            } else {
                lemma_run_one(c, Step::DisableDll(i));
                assert(run(c, dll_opt_steps(i, o, bias)).clock =~= dll_effect(i, o, c.clock));
            }
        },
        ConfigOption::Keep => {
            lemma_run_empty(c);
            assert(run(c, dll_opt_steps(i, o, bias)).clock =~= dll_effect(i, o, c.clock));
        },
    }
}

/// The oscillator requests that switch an oscillator on (`on`) or off, on the clock tree.
pub open spec fn osc_effect(cfg: Config, on: bool, k: ClockRegs) -> ClockRegs {
    let x = cfg.hxt48_enable == ConfigOption::Update(on);
    let r = cfg.hrc48_enable == ConfigOption::Update(on);
    ClockRegs {
        hxt48_req: if x { on } else { k.hxt48_req },
        hxt48_rdy: if x { on } else { k.hxt48_rdy },
        hrc48_req: if r { on } else { k.hrc48_req },
        hrc48_rdy: if r { on } else { k.hrc48_rdy },
        ..k
    }
}

/// The bus, USB, tick and peripheral requests on the clock tree.
pub open spec fn bus_effect(cfg: Config, k: ClockRegs) -> ClockRegs {
    ClockRegs {
        pdiv1: cfg.pclk1_div.spec_apply(k.pdiv1),
        pdiv2: cfg.pclk2_div.spec_apply(k.pdiv2),
        sel_usbc: match cfg.usb {
            ConfigOption::Update(u) => u.sel,
            ConfigOption::Keep => k.sel_usbc,
        },
        usb_div: match cfg.usb {
            ConfigOption::Update(u) => u.div,
            ConfigOption::Keep => k.usb_div,
        },
        sel_tick: match cfg.tick {
            ConfigOption::Update(t) => t.sel,
            ConfigOption::Keep => k.sel_tick,
        },
        tick_div: match cfg.tick {
            ConfigOption::Update(t) => t.div,
            ConfigOption::Keep => k.tick_div,
        },
        sel_peri: cfg.clk_peri_sel.spec_apply(k.sel_peri),
        ..k
    }
}

/// The core clock source and divider requests on the clock tree.
pub open spec fn hclk_effect(cfg: Config, k: ClockRegs) -> ClockRegs {
    ClockRegs { sel_sys: cfg.clk_sys_sel.spec_apply(k.sel_sys), hdiv: cfg.hclk_div.spec_apply(k.hdiv), ..k }
}

proof fn lemma_opt_one(c: ChipState, o: Option<Step>) -> (r: Seq<Step>)
    ensures
        r == (match o {
            Some(s) => seq![s],
            None => seq![],
        }),
        run(c, r) == (match o {
            Some(s) => crate::step::step_effect(c, s),
            None => c,
        }),
{
    match o {
        Some(s) => {
            lemma_run_one(c, s);
            seq![s]
        },
        None => {
            lemma_run_empty(c);
            seq![]
        },
    }
}

proof fn lemma_opt_two(c: ChipState, o: Option<(Step, Step)>) -> (r: Seq<Step>)
    ensures
        r == (match o {
            Some((x, y)) => seq![x, y],
            None => seq![],
        }),
        run(c, r) == (match o {
            Some((x, y)) => crate::step::step_effect(crate::step::step_effect(c, x), y),
            None => c,
        }),
{
    match o {
        Some((x, y)) => {
            lemma_run_two(c, x, y);
            seq![x, y]
        },
        None => {
            lemma_run_empty(c);
            seq![]
        },
    }
}

proof fn lemma_osc_steps(c: ChipState, cfg: Config, on: bool)
    ensures
        run(c, cfg.osc_steps(on)).clock == osc_effect(cfg, on, c.clock),
        run(c, cfg.osc_steps(on)).power == c.power,
{
    let a = lemma_opt_two(c, if cfg.hxt48_enable == ConfigOption::Update(on) {
        Some((Step::SetHxt48Req(on), Step::WaitHxt48Ready(on)))
    } else {
        None
    });
    let c1 = run(c, a);
    let b = lemma_opt_two(c1, if cfg.hrc48_enable == ConfigOption::Update(on) {
        Some((Step::SetHrc48Req(on), Step::WaitHrc48Ready(on)))
    } else {
        None
    });
    assert(cfg.osc_steps(on) == a + b);
    lemma_run_append(c, a, b);
    assert(run(c1, b).clock =~= osc_effect(cfg, on, c.clock));
}

proof fn lemma_pclk1_steps(c: ChipState, cfg: Config)
    ensures
        run(c, cfg.pclk1_steps()) == (ChipState {
            clock: ClockRegs { pdiv1: cfg.pclk1_div.spec_apply(c.clock.pdiv1), ..c.clock },
            ..c
        }),
{
    match cfg.pclk1_div {
        ConfigOption::Update(v) => lemma_run_one(c, Step::SetPclk1Div(v)),
        ConfigOption::Keep => lemma_run_empty(c),
    }
}

proof fn lemma_pclk2_steps(c: ChipState, cfg: Config)
    ensures
        run(c, cfg.pclk2_steps()) == (ChipState {
            clock: ClockRegs { pdiv2: cfg.pclk2_div.spec_apply(c.clock.pdiv2), ..c.clock },
            ..c
        }),
{
    match cfg.pclk2_div {
        ConfigOption::Update(v) => lemma_run_one(c, Step::SetPclk2Div(v)),
        ConfigOption::Keep => lemma_run_empty(c),
    }
}

proof fn lemma_usb_steps(c: ChipState, cfg: Config)
    ensures
        run(c, cfg.usb_steps()) == (ChipState {
            clock: ClockRegs {
                sel_usbc: bus_effect(cfg, c.clock).sel_usbc,
                usb_div: bus_effect(cfg, c.clock).usb_div,
                ..c.clock
            },
            ..c
        }),
{
    match cfg.usb {
        ConfigOption::Update(x) => lemma_run_two(c, Step::SetUsbSel(x.sel), Step::SetUsbDiv(x.div)),
        ConfigOption::Keep => lemma_run_empty(c),
    }
}

proof fn lemma_tick_steps(c: ChipState, cfg: Config)
    ensures
        run(c, cfg.tick_steps()) == (ChipState {
            clock: ClockRegs {
                sel_tick: bus_effect(cfg, c.clock).sel_tick,
                tick_div: bus_effect(cfg, c.clock).tick_div,
                ..c.clock
            },
            ..c
        }),
{
    match cfg.tick {
        ConfigOption::Update(x) => lemma_run_two(c, Step::SetTickSel(x.sel), Step::SetTickDiv(x.div)),
        ConfigOption::Keep => lemma_run_empty(c),
    }
}

proof fn lemma_peri_steps(c: ChipState, cfg: Config)
    ensures
        run(c, cfg.peri_steps()) == (ChipState {
            clock: ClockRegs { sel_peri: cfg.clk_peri_sel.spec_apply(c.clock.sel_peri), ..c.clock },
            ..c
        }),
{
    match cfg.clk_peri_sel {
        ConfigOption::Update(v) => lemma_run_one(c, Step::SetPeriSel(v)),
        ConfigOption::Keep => lemma_run_empty(c),
    }
}

proof fn lemma_bus_steps(c: ChipState, cfg: Config)
    ensures
        run(c, cfg.bus_steps()).clock == bus_effect(cfg, c.clock),
        run(c, cfg.bus_steps()).power == c.power,
{
    let pc1 = cfg.pclk1_steps();
    let pc2 = cfg.pclk2_steps();
    let u = cfg.usb_steps();
    let t = cfg.tick_steps();
    let q = cfg.peri_steps();
    let c1 = run(c, pc1);
    let c2 = run(c1, pc2);
    let c3 = run(c2, u);
    let c4 = run(c3, t);
    let c5 = run(c4, q);
    lemma_pclk1_steps(c, cfg);
    lemma_pclk2_steps(c1, cfg);
    lemma_usb_steps(c2, cfg);
    lemma_tick_steps(c3, cfg);
    lemma_peri_steps(c4, cfg);
    lemma_run_append(c, pc1, pc2);
    lemma_run_append(c, pc1 + pc2, u);
    lemma_run_append(c, pc1 + pc2 + u, t);
    lemma_run_append(c, pc1 + pc2 + u + t, q);
    let e = bus_effect(cfg, c.clock);
    assert(c5.clock.pdiv1 == e.pdiv1 && c5.clock.pdiv2 == e.pdiv2);
    assert(c5.clock.sel_usbc == e.sel_usbc && c5.clock.usb_div == e.usb_div);
    assert(c5.clock.sel_tick == e.sel_tick && c5.clock.tick_div == e.tick_div);
    assert(c5.clock.sel_peri == e.sel_peri);
    assert(c5.clock.dll1 == e.dll1 && c5.clock.dll2 == e.dll2);
    assert(c5.clock =~= e);
}

proof fn lemma_hclk_steps(c: ChipState, cfg: Config)
    ensures
        run(c, cfg.hclk_steps()).clock == hclk_effect(cfg, c.clock),
{
    let a = lemma_opt_one(c, match cfg.clk_sys_sel { ConfigOption::Update(v) => Some(Step::SetSysSel(v)), ConfigOption::Keep => None });
    let c1 = run(c, a);
    let b = lemma_opt_one(c1, match cfg.hclk_div { ConfigOption::Update(v) => Some(Step::SetHclkDiv(v)), ConfigOption::Keep => None });
    assert(cfg.hclk_steps() == a + b);
    lemma_run_append(c, a, b);
    assert(run(c1, b).clock =~= hclk_effect(cfg, c.clock));
}

/// The voltage steps around a clock change leave the clock tree alone.
proof fn lemma_transition_clock(c: ChipState, current: HpsysDvfsMode, target: HpsysDvfsMode, clock: Seq<Step>)
    ensures
        run(c, transition_steps(current, target, clock)).clock == run(c, clock).clock,
{
    let cfg = target.spec_config();
    let sx = crate::dvfs::sx_volt_steps(target);
    match crate::dvfs::transition_of(current, target) {
        crate::dvfs::Transition::Same => {},
        crate::dvfs::Transition::RaiseToS => {
            let l = seq![Step::SetLdoVsel(false), Step::DelayUs(crate::dvfs::BUCK_SETTLE_US)];
            lemma_run_append(c, sx + l, clock);
            lemma_run_append(c, sx, l);
            lemma_run_two(c, Step::SetBuckVout(cfg.buck), Step::SetLdoVout(cfg.ldo));
            lemma_run_two(run(c, sx), Step::SetLdoVsel(false), Step::DelayUs(crate::dvfs::BUCK_SETTLE_US));
            lemma_run_clock_only(run(c, sx + l), c, clock);
        },
        crate::dvfs::Transition::RetrimS => {
            let l = seq![Step::DelayUs(crate::dvfs::BUCK_SETTLE_US)];
            lemma_run_append(c, sx + l, clock);
            lemma_run_append(c, sx, l);
            lemma_run_two(c, Step::SetBuckVout(cfg.buck), Step::SetLdoVout(cfg.ldo));
            lemma_run_one(run(c, sx), Step::DelayUs(crate::dvfs::BUCK_SETTLE_US));
            lemma_run_clock_only(run(c, sx + l), c, clock);
        },
        _ => {
            let f = seq![Step::SetBuckVoutM(cfg.buck), Step::SetLdoVref(crate::dvfs::staged_ldo_vref(target))];
            let l = seq![Step::SetUlpmcr(cfg.ulpmcr), Step::SetLdoVsel(true)];
            lemma_run_append(c, f + clock, l);
            lemma_run_append(c, f, clock);
            lemma_run_two(c, Step::SetBuckVoutM(cfg.buck), Step::SetLdoVref(crate::dvfs::staged_ldo_vref(target)));
            lemma_run_clock_only(run(c, f), c, clock);
            lemma_run_two(run(c, f + clock), Step::SetUlpmcr(cfg.ulpmcr), Step::SetLdoVsel(true));
        },
    }
}

#[verifier::rlimit(40)]
proof fn lemma_core_steps(cfg: Config, s: ChipState, k: ClockRegs, cm: HpsysDvfsMode, tm: HpsysDvfsMode)
    requires
        s.clock.sel_sys == k.sel_sys,
        s.clock.dll1 == k.dll1,
        s.clock.buf_dll_en == k.buf_dll_en,
        s.clock.hpbg_en == k.hpbg_en,
        s.clock.hpbg_vddpsw_en == k.hpbg_vddpsw_en,
    ensures
        run(s, cfg.core_steps(k, cm, tm)).clock == hclk_effect(cfg, dll_effect(DllIndex::Dll1, cfg.dll1, s.clock)),
{
    let live = k.sel_sys == ClkSysSel::Dll1;
    let stays = cfg.spec_apply_to(k).sel_sys == ClkSysSel::Dll1;
    let bias = bias_on(k);
    let d1 = dll_opt_steps(DllIndex::Dll1, cfg.dll1, bias);
    let e: Seq<Step> = seq![];
    let pre = if !live { d1 } else { e };
    let inner = if live && stays { d1 } else { e };
    let post = if live && !stays { d1 } else { e };
    assert(cfg.hclk_change_steps(k) == inner + cfg.hclk_steps());
    let change = if cfg.touches_hclk(k) { transition_steps(cm, tm, inner + cfg.hclk_steps()) } else { e };
    assert(cfg.core_steps(k, cm, tm) == pre + change + post);
    lemma_run_append(s, pre, change);
    lemma_run_append(s, pre + change, post);
    let s1 = run(s, pre);
    if !live {
        lemma_dll_steps(s, DllIndex::Dll1, cfg.dll1, bias);
    } else {
        lemma_run_empty(s);
    }
    let s2 = run(s1, change);
    if cfg.touches_hclk(k) {
        lemma_transition_clock(s1, cm, tm, inner + cfg.hclk_steps());
        lemma_run_append(s1, inner, cfg.hclk_steps());
        if live && stays {
            lemma_dll_steps(s1, DllIndex::Dll1, cfg.dll1, bias);
        } else {
            lemma_run_empty(s1);
        }
        lemma_hclk_steps(run(s1, inner), cfg);
    } else {
        lemma_run_empty(s1);
        assert(live ==> cfg.dll1 is Keep);
    }
    let s3 = run(s2, post);
    if live && !stays {
        lemma_dll_steps(s2, DllIndex::Dll1, cfg.dll1, bias);
    } else {
        lemma_run_empty(s2);
    }
    let want = hclk_effect(cfg, dll_effect(DllIndex::Dll1, cfg.dll1, s.clock));
    assert(s3.clock.dll1 == want.dll1);
    assert(s3.clock.sel_sys == want.sel_sys && s3.clock.hdiv == want.hdiv);
    assert(s3.clock =~= want);
}

/// Carrying out the steps that `apply` returns for an accepted request leaves the clock
/// tree exactly as the overlay describes it: every field updated takes its new value,
/// every field kept stays as it was read.
pub proof fn lemma_apply_reaches_target(cfg: Config, chip: ChipState)
    requires
        cfg.validation(chip.clock) is Ok,
    ensures
        run(chip, cfg.plan_steps(chip.clock)).clock == cfg.spec_apply_to(chip.clock),
{
    let k = chip.clock;
    let cm = crate::config::mode_check(crate::clock::hclk_freq(k))->Ok_0;
    let tm = crate::config::mode_check(crate::clock::hclk_freq(cfg.spec_apply_to(k)))->Ok_0;
    lemma_plan_reaches_target(cfg, chip, cm, tm);
}

#[verifier::rlimit(80)]
proof fn lemma_plan_reaches_target(cfg: Config, chip: ChipState, cm: HpsysDvfsMode, tm: HpsysDvfsMode)
    ensures
        run(
            chip,
            cfg.osc_steps(true) + cfg.bus_steps() + cfg.core_steps(chip.clock, cm, tm) + cfg.osc_steps(false)
                + dll_opt_steps(DllIndex::Dll2, cfg.dll2, bias_on(chip.clock) || enables(cfg.dll1)),
        ).clock == cfg.spec_apply_to(chip.clock),
{
    let k = chip.clock;
    let target = cfg.spec_apply_to(k);
    let core = cfg.core_steps(k, cm, tm);
    let d2 = dll_opt_steps(DllIndex::Dll2, cfg.dll2, bias_on(k) || enables(cfg.dll1));
    let osc = cfg.osc_steps(true);
    let off = cfg.osc_steps(false);
    let bus = cfg.bus_steps();
    let s1 = run(chip, osc);
    lemma_osc_steps(chip, cfg, true);
    let s2 = run(s1, bus);
    lemma_bus_steps(s1, cfg);
    let s3 = run(s2, core);
    lemma_core_steps(cfg, s2, k, cm, tm);
    let s3b = run(s3, off);
    lemma_osc_steps(s3, cfg, false);
    let s4 = run(s3b, d2);
    lemma_dll_steps(s3b, DllIndex::Dll2, cfg.dll2, bias_on(k) || enables(cfg.dll1));
    lemma_run_append(chip, osc, bus);
    lemma_run_append(chip, osc + bus, core);
    lemma_run_append(chip, osc + bus + core, off);
    lemma_run_append(chip, osc + bus + core + off, d2);
    let k1 = osc_effect(cfg, true, k);
    let k2 = bus_effect(cfg, k1);
    let k3 = hclk_effect(cfg, dll_effect(DllIndex::Dll1, cfg.dll1, k2));
    let k3b = osc_effect(cfg, false, k3);
    let k4 = dll_effect(DllIndex::Dll2, cfg.dll2, k3b);
    assert(s2.clock == k2);
    assert(s3.clock == k3);
    assert(s3b.clock == k3b);
    assert(s4.clock == k4);
    assert(run(chip, osc + bus + core + off + d2) == s4);
    assert(s4.clock.sel_sys == target.sel_sys);
    assert(s4.clock.hdiv == target.hdiv);
    assert(s4.clock.pdiv1 == target.pdiv1);
    assert(s4.clock.pdiv2 == target.pdiv2);
    assert(s4.clock.sel_usbc == target.sel_usbc);
    assert(s4.clock.usb_div == target.usb_div);
    assert(s4.clock.sel_tick == target.sel_tick);
    assert(s4.clock.tick_div == target.tick_div);
    assert(s4.clock.sel_peri == target.sel_peri);
    assert(s4.clock.hxt48_req == target.hxt48_req);
    assert(s4.clock.hxt48_rdy == target.hxt48_rdy);
    assert(s4.clock.hrc48_req == target.hrc48_req);
    assert(s4.clock.hrc48_rdy == target.hrc48_rdy);
    assert(s4.clock.dll1 == target.dll1);
    assert(s4.clock.dll2 == target.dll2);
    assert(s4.clock =~= target);
}

/// Applying a configuration to the clock tree it has already produced changes nothing.
#[verifier::rlimit(40)]
pub proof fn lemma_apply_to_idempotent(cfg: Config, k: ClockRegs)
    ensures
        cfg.spec_apply_to(cfg.spec_apply_to(k)) == cfg.spec_apply_to(k),
{
    let t = cfg.spec_apply_to(k);
    let t2 = cfg.spec_apply_to(t);
    assert(t2.dll1 == t.dll1);
    assert(t2.dll2 == t.dll2);
    assert(t2.sel_usbc == t.sel_usbc && t2.usb_div == t.usb_div);
    assert(t2.sel_tick == t.sel_tick && t2.tick_div == t.tick_div);
    assert(t2 =~= t);
}

/// Applying the same accepted configuration a second time, to the register file that the
/// first application left, is accepted too and leaves every clock frequency as the first
/// application left it; the register file between the two is well formed, so the second
/// application can be asked for.
#[verifier::rlimit(60)]
pub proof fn lemma_apply_twice(cfg: Config, chip: ChipState)
    requires
        chip.wf(),
        cfg.validation(chip.clock) is Ok,
    ensures
        ({
            let once = run(chip, cfg.plan_steps(chip.clock));
            let twice = run(once, cfg.plan_steps(once.clock));
            &&& once.wf()
            &&& cfg.validation(once.clock) is Ok
            &&& twice.clock == once.clock
            &&& crate::clock::clk_sys_freq(twice.clock) == crate::clock::clk_sys_freq(once.clock)
            &&& crate::clock::hclk_freq(twice.clock) == crate::clock::hclk_freq(once.clock)
            &&& crate::clock::pclk_freq(twice.clock, twice.clock.pdiv1) == crate::clock::pclk_freq(once.clock, once.clock.pdiv1)
            &&& crate::clock::pclk_freq(twice.clock, twice.clock.pdiv2) == crate::clock::pclk_freq(once.clock, once.clock.pdiv2)
            &&& crate::clock::clk_peri_freq(twice.clock) == crate::clock::clk_peri_freq(once.clock)
            &&& crate::clock::clk_usb_freq(twice.clock) == crate::clock::clk_usb_freq(once.clock)
            &&& crate::clock::dll_freq(twice.clock.dll1) == crate::clock::dll_freq(once.clock.dll1)
            &&& crate::clock::dll_freq(twice.clock.dll2) == crate::clock::dll_freq(once.clock.dll2)
        }),
{
    let k = chip.clock;
    let once = run(chip, cfg.plan_steps(k));
    lemma_apply_reaches_target(cfg, chip);
    lemma_apply_to_idempotent(cfg, k);
    assert(cfg.spec_apply_to(once.clock) == once.clock);
    lemma_validation_on_target(cfg, k);
    let cm = crate::config::mode_check(crate::clock::hclk_freq(k))->Ok_0;
    let tm = crate::config::mode_check(crate::clock::hclk_freq(cfg.spec_apply_to(k)))->Ok_0;
    lemma_plan_power(cfg, chip, cm, tm);
    assert(once.clock.wf());
    lemma_apply_reaches_target(cfg, once);
}

/// A request accepted on `k` is accepted on the clock tree it produces.
#[verifier::rlimit(60)]
proof fn lemma_validation_on_target(cfg: Config, k: ClockRegs)
    requires
        cfg.validation(k) is Ok,
    ensures
        cfg.validation(cfg.spec_apply_to(k)) is Ok,
{
    let t = cfg.spec_apply_to(k);
    lemma_apply_to_idempotent(cfg, k);
    assert(cfg.spec_apply_to(t) == t);
    assert(cfg.touches_hclk(t) == cfg.touches_hclk(k));
    if t.sel_sys != ClkSysSel::Dll1 {
        assert(merge_dll(cfg.dll1, t.dll1) == t.dll1);
    }
    assert(cfg.spec_switch_reading(t) == t);
    if cfg.touches_hclk(k) {
        assert(crate::config::mode_check(crate::clock::hclk_freq(t)) is Ok);
        let m = cfg.spec_switch_reading(k);
        assert(cfg.spec_apply_to(m).sel_sys == t.sel_sys);
        if t.sel_sys == ClkSysSel::Dll1 && !(k.sel_sys == ClkSysSel::Dll1 && cfg.dll1 is Update) {
            assert(m.dll1 == t.dll1);
        }
        assert(cfg.hclk_check(t) is Ok);
    }
}

/// Every step of a configuration's clock part is a clock step.
proof fn lemma_clock_parts(cfg: Config, k: ClockRegs, bias: bool)
    ensures
        forall|i: int| 0 <= i < cfg.osc_steps(true).len() ==> is_clock_step(#[trigger] cfg.osc_steps(true)[i]),
        forall|i: int| 0 <= i < cfg.osc_steps(false).len() ==> is_clock_step(#[trigger] cfg.osc_steps(false)[i]),
        forall|i: int| 0 <= i < cfg.bus_steps().len() ==> is_clock_step(#[trigger] cfg.bus_steps()[i]),
        forall|i: int| 0 <= i < cfg.hclk_steps().len() ==> is_clock_step(#[trigger] cfg.hclk_steps()[i]),
        forall|i: int| 0 <= i < dll_opt_steps(DllIndex::Dll1, cfg.dll1, bias).len()
            ==> is_clock_step(#[trigger] dll_opt_steps(DllIndex::Dll1, cfg.dll1, bias)[i]),
        forall|i: int| 0 <= i < dll_opt_steps(DllIndex::Dll2, cfg.dll2, bias).len()
            ==> is_clock_step(#[trigger] dll_opt_steps(DllIndex::Dll2, cfg.dll2, bias)[i]),
{
    assert forall|i: int| 0 <= i < cfg.bus_steps().len() implies is_clock_step(#[trigger] cfg.bus_steps()[i]) by {
        let a = cfg.pclk1_steps();
        let b = cfg.pclk2_steps();
        let u = cfg.usb_steps();
        let t = cfg.tick_steps();
        let q = cfg.peri_steps();
        assert(cfg.bus_steps() == a + b + u + t + q);
    }
}

/// Whether the regulator path matches a mode: the LDO rail for D modes, the switching
/// regulator for S modes.
pub open spec fn rail_matches(p: crate::regs::PowerRegs, m: HpsysDvfsMode) -> bool {
    p.ldo_vsel == !m.is_s()
}

/// A request that leaves the core clock path alone leaves the core clock frequency alone.
proof fn lemma_untouched_hclk(cfg: Config, k: ClockRegs)
    requires
        !cfg.touches_hclk(k),
    ensures
        crate::clock::hclk_freq(cfg.spec_apply_to(k)) == crate::clock::hclk_freq(k),
{
    let t = cfg.spec_apply_to(k);
    assert(t.sel_sys == k.sel_sys && t.hdiv == k.hdiv);
    assert(crate::clock::clk_sys_freq(t) == crate::clock::clk_sys_freq(k));
}

/// An accepted request, started with the regulator path matching the mode of the current
/// core clock, ends with it matching the mode of the new core clock.
pub proof fn lemma_rail_follows_mode(cfg: Config, chip: ChipState)
    requires
        cfg.validation(chip.clock) is Ok,
        crate::config::mode_check(crate::clock::hclk_freq(chip.clock)) is Ok,
        rail_matches(chip.power, crate::config::mode_check(crate::clock::hclk_freq(chip.clock))->Ok_0),
    ensures
        crate::config::mode_check(crate::clock::hclk_freq(cfg.spec_apply_to(chip.clock))) is Ok,
        rail_matches(
            run(chip, cfg.plan_steps(chip.clock)).power,
            crate::config::mode_check(crate::clock::hclk_freq(cfg.spec_apply_to(chip.clock)))->Ok_0,
        ),
{
    let k = chip.clock;
    let cm = crate::config::mode_check(crate::clock::hclk_freq(k))->Ok_0;
    let tm = crate::config::mode_check(crate::clock::hclk_freq(cfg.spec_apply_to(k)))->Ok_0;
    if !cfg.touches_hclk(k) {
        lemma_untouched_hclk(cfg, k);
    }
    lemma_plan_power(cfg, chip, cm, tm);
}

/// An accepted request that leaves the core clock path alone writes no voltage register.
pub proof fn lemma_power_kept_without_core_change(cfg: Config, chip: ChipState)
    requires
        cfg.validation(chip.clock) is Ok,
        !cfg.touches_hclk(chip.clock),
    ensures
        run(chip, cfg.plan_steps(chip.clock)).power == chip.power,
{
    let k = chip.clock;
    let cm = crate::config::mode_check(crate::clock::hclk_freq(k))->Ok_0;
    let tm = crate::config::mode_check(crate::clock::hclk_freq(cfg.spec_apply_to(k)))->Ok_0;
    lemma_plan_power(cfg, chip, cm, tm);
}

#[verifier::rlimit(40)]
proof fn lemma_plan_power(cfg: Config, chip: ChipState, cm: HpsysDvfsMode, tm: HpsysDvfsMode)
    ensures
        ({
            let p = run(
                chip,
                cfg.osc_steps(true) + cfg.bus_steps() + cfg.core_steps(chip.clock, cm, tm) + cfg.osc_steps(false)
                    + dll_opt_steps(DllIndex::Dll2, cfg.dll2, bias_on(chip.clock) || enables(cfg.dll1)),
            ).power;
            &&& !cfg.touches_hclk(chip.clock) ==> p == chip.power
            &&& cfg.touches_hclk(chip.clock) && rail_matches(chip.power, cm) ==> rail_matches(p, tm)
            &&& chip.power.wf() ==> p.wf()
        }),
{
    let k = chip.clock;
    let bias = bias_on(k);
    let osc = cfg.osc_steps(true);
    let off = cfg.osc_steps(false);
    let bus = cfg.bus_steps();
    let core = cfg.core_steps(k, cm, tm);
    let d2 = dll_opt_steps(DllIndex::Dll2, cfg.dll2, bias || enables(cfg.dll1));
    lemma_clock_parts(cfg, k, bias);
    lemma_clock_parts(cfg, k, bias || enables(cfg.dll1));
    let live = k.sel_sys == ClkSysSel::Dll1;
    let stays = cfg.spec_apply_to(k).sel_sys == ClkSysSel::Dll1;
    let d1 = dll_opt_steps(DllIndex::Dll1, cfg.dll1, bias);
    let e: Seq<Step> = seq![];
    let pre = if !live { d1 } else { e };
    let inner = if live && stays { d1 } else { e };
    let post = if live && !stays { d1 } else { e };
    let clk = inner + cfg.hclk_steps();
    assert(cfg.hclk_change_steps(k) == clk);
    let change = if cfg.touches_hclk(k) { transition_steps(cm, tm, clk) } else { e };
    assert(core == pre + change + post);
    assert forall|i: int| 0 <= i < clk.len() implies is_clock_step(#[trigger] clk[i]) by {
        if i < inner.len() {
            assert(clk[i] == inner[i]);
        } else {
            assert(clk[i] == cfg.hclk_steps()[i - inner.len()]);
        }
    }
    let s1 = run(chip, osc + bus);
    lemma_run_append(chip, osc, bus);
    lemma_run_clock_steps(chip, osc);
    lemma_run_clock_steps(run(chip, osc), bus);
    let s2 = run(s1, pre);
    lemma_run_clock_steps(s1, pre);
    let s3 = run(s2, change);
    if cfg.touches_hclk(k) {
        lemma_transition_power(s2, cm, tm, clk);
    } else {
        lemma_run_empty(s2);
    }
    let s4 = run(s3, post);
    lemma_run_clock_steps(s3, post);
    let s5 = run(s4, off);
    lemma_run_clock_steps(s4, off);
    lemma_run_clock_steps(s5, d2);
    lemma_run_append(chip, osc + bus, pre);
    lemma_run_append(chip, osc + bus + pre, change);
    lemma_run_append(chip, osc + bus + pre + change, post);
    lemma_run_append(chip, osc + bus + pre + change + post, off);
    lemma_run_append(chip, osc + bus + pre + change + post + off, d2);
    assert(osc + bus + core + off + d2 == osc + bus + pre + change + post + off + d2);
}

proof fn lemma_transition_power(c: ChipState, cm: HpsysDvfsMode, tm: HpsysDvfsMode, clk: Seq<Step>)
    requires
        forall|i: int| 0 <= i < clk.len() ==> is_clock_step(#[trigger] clk[i]),
    ensures
        rail_matches(c.power, cm) ==> rail_matches(run(c, transition_steps(cm, tm, clk)).power, tm),
        c.power.wf() ==> run(c, transition_steps(cm, tm, clk)).power.wf(),
{
    let cfg = tm.spec_config();
    let sx = crate::dvfs::sx_volt_steps(tm);
    match crate::dvfs::transition_of(cm, tm) {
        crate::dvfs::Transition::Same => {
            lemma_run_clock_steps(c, clk);
        },
        crate::dvfs::Transition::RaiseToS => {
            let l = seq![Step::SetLdoVsel(false), Step::DelayUs(crate::dvfs::BUCK_SETTLE_US)];
            lemma_run_append(c, sx + l, clk);
            lemma_run_append(c, sx, l);
            lemma_run_two(c, Step::SetBuckVout(cfg.buck), Step::SetLdoVout(cfg.ldo));
            lemma_run_two(run(c, sx), Step::SetLdoVsel(false), Step::DelayUs(crate::dvfs::BUCK_SETTLE_US));
            lemma_run_clock_steps(run(c, sx + l), clk);
        },
        crate::dvfs::Transition::RetrimS => {
            let l = seq![Step::DelayUs(crate::dvfs::BUCK_SETTLE_US)];
            lemma_run_append(c, sx + l, clk);
            lemma_run_append(c, sx, l);
            lemma_run_two(c, Step::SetBuckVout(cfg.buck), Step::SetLdoVout(cfg.ldo));
            lemma_run_one(run(c, sx), Step::DelayUs(crate::dvfs::BUCK_SETTLE_US));
            lemma_run_clock_steps(run(c, sx + l), clk);
        },
        _ => {
            let f = seq![Step::SetBuckVoutM(cfg.buck), Step::SetLdoVref(crate::dvfs::staged_ldo_vref(tm))];
            let l = seq![Step::SetUlpmcr(cfg.ulpmcr), Step::SetLdoVsel(true)];
            lemma_run_append(c, f + clk, l);
            lemma_run_append(c, f, clk);
            lemma_run_two(c, Step::SetBuckVoutM(cfg.buck), Step::SetLdoVref(crate::dvfs::staged_ldo_vref(tm)));
            lemma_run_clock_steps(run(c, f), clk);
            lemma_run_two(run(c, f + clk), Step::SetUlpmcr(cfg.ulpmcr), Step::SetLdoVsel(true));
            assert(crate::dvfs::staged_ldo_vref(tm) <= 15);
        },
    }
}

/// The clock change sits whole, in order, inside the transition around it.
proof fn lemma_transition_embeds(cm: HpsysDvfsMode, tm: HpsysDvfsMode, clk: Seq<Step>) -> (off: int)
    ensures
        0 <= off,
        off + clk.len() <= transition_steps(cm, tm, clk).len(),
        forall|k: int| 0 <= k < clk.len() ==> transition_steps(cm, tm, clk)[off + k] == #[trigger] clk[k],
{
    let cfg = tm.spec_config();
    match crate::dvfs::transition_of(cm, tm) {
        crate::dvfs::Transition::Same => 0,
        crate::dvfs::Transition::RaiseToS => {
            let sx = crate::dvfs::sx_volt_steps(tm);
            let l = seq![Step::SetLdoVsel(false), Step::DelayUs(crate::dvfs::BUCK_SETTLE_US)];
            assert(transition_steps(cm, tm, clk) == sx + l + clk);
            4
        },
        crate::dvfs::Transition::RetrimS => {
            let sx = crate::dvfs::sx_volt_steps(tm);
            let l = seq![Step::DelayUs(crate::dvfs::BUCK_SETTLE_US)];
            assert(transition_steps(cm, tm, clk) == sx + l + clk);
            3
        },
        _ => {
            let f = seq![Step::SetBuckVoutM(cfg.buck), Step::SetLdoVref(crate::dvfs::staged_ldo_vref(tm))];
            let l = seq![Step::SetUlpmcr(cfg.ulpmcr), Step::SetLdoVsel(true)];
            assert(transition_steps(cm, tm, clk) == f + clk + l);
            2
        },
    }
}

/// When a request moves the core onto DLL1 and enables DLL1, the plan waits for DLL1 to
/// lock before it switches the core clock source to it.
pub proof fn lemma_dll1_locked_before_switch(cfg: Config, chip: ChipState)
    requires
        cfg.validation(chip.clock) is Ok,
        cfg.clk_sys_sel == ConfigOption::Update(ClkSysSel::Dll1),
        enables(cfg.dll1),
    ensures
        exists|i: int, j: int|
            0 <= i < j < cfg.plan_steps(chip.clock).len() && #[trigger] cfg.plan_steps(chip.clock)[i]
                == Step::WaitDllReady(DllIndex::Dll1) && #[trigger] cfg.plan_steps(chip.clock)[j]
                == Step::SetSysSel(ClkSysSel::Dll1),
{
    let k = chip.clock;
    let cm = crate::config::mode_check(crate::clock::hclk_freq(k))->Ok_0;
    let tm = crate::config::mode_check(crate::clock::hclk_freq(cfg.spec_apply_to(k)))->Ok_0;
    let (i, j) = lemma_dll1_locked_in_plan(cfg, k, cm, tm);
    assert(cfg.plan_steps(k)[i] == Step::WaitDllReady(DllIndex::Dll1));
    assert(cfg.plan_steps(k)[j] == Step::SetSysSel(ClkSysSel::Dll1));
}

#[verifier::rlimit(40)]
proof fn lemma_dll1_locked_in_plan(cfg: Config, k: ClockRegs, cm: HpsysDvfsMode, tm: HpsysDvfsMode) -> (r: (int, int))
    requires
        cfg.clk_sys_sel == ConfigOption::Update(ClkSysSel::Dll1),
        enables(cfg.dll1),
    ensures
        ({
            let plan = cfg.osc_steps(true) + cfg.bus_steps() + cfg.core_steps(k, cm, tm) + cfg.osc_steps(false)
                + dll_opt_steps(DllIndex::Dll2, cfg.dll2, bias_on(k) || enables(cfg.dll1));
            &&& 0 <= r.0 < r.1 < plan.len()
            &&& plan[r.0] == Step::WaitDllReady(DllIndex::Dll1)
            &&& plan[r.1] == Step::SetSysSel(ClkSysSel::Dll1)
        }),
{
    let bias = bias_on(k);
    let live = k.sel_sys == ClkSysSel::Dll1;
    let d1 = dll_opt_steps(DllIndex::Dll1, cfg.dll1, bias);
    let e: Seq<Step> = seq![];
    let pre = if !live { d1 } else { e };
    let inner = if live { d1 } else { e };
    let hs = cfg.hclk_steps();
    let clk = inner + hs;
    let change = transition_steps(cm, tm, clk);
    let head = cfg.osc_steps(true) + cfg.bus_steps();
    let off_steps = cfg.osc_steps(false);
    let d2 = dll_opt_steps(DllIndex::Dll2, cfg.dll2, bias || enables(cfg.dll1));
    let core = cfg.core_steps(k, cm, tm);
    assert(cfg.hclk_change_steps(k) == clk);
    assert(core == pre + change + e);
    let plan = head + core + off_steps + d2;
    assert(d1[d1.len() - 1] == Step::WaitDllReady(DllIndex::Dll1));
    assert(hs[0] == Step::SetSysSel(ClkSysSel::Dll1));
    let off = lemma_transition_embeds(cm, tm, clk);
    assert(clk[inner.len() as int] == hs[0]);
    let j = head.len() + pre.len() + off + inner.len();
    assert(core[pre.len() + off + inner.len()] == change[off + inner.len()]);
    assert(plan[j] == core[pre.len() + off + inner.len()]);
    if !live {
        let i = head.len() + d1.len() - 1;
        assert(core[d1.len() - 1] == d1[d1.len() - 1]);
        assert(plan[i] == core[d1.len() - 1]);
        (i, j)
    } else {
        let i = head.len() + off + d1.len() - 1;
        assert(clk[d1.len() - 1] == d1[d1.len() - 1]);
        assert(core[off + d1.len() - 1] == change[off + d1.len() - 1]);
        assert(plan[i] == core[off + d1.len() - 1]);
        (i, j)
    }
}

/// A DLL2 enable request that passes every earlier check is refused in a D target mode,
/// whatever its frequency, and accepted in an S target mode exactly when its frequency is
/// at most 288 MHz.
pub proof fn lemma_dll2_request_ceiling(cfg: Config, k: ClockRegs)
    requires
        cfg.wf(),
        cfg.dlls_in_range(),
        enables(cfg.dll2),
        cfg.touches_hclk(k) ==> crate::config::mode_check(crate::clock::hclk_freq(k)) is Ok,
        cfg.touches_hclk(k) ==> cfg.hclk_check(cfg.spec_switch_reading(k)) is Ok,
        crate::config::mode_check(crate::clock::hclk_freq(cfg.spec_apply_to(k))) is Ok,
    ensures
        ({
            let m = crate::config::mode_check(crate::clock::hclk_freq(cfg.spec_apply_to(k)))->Ok_0;
            let f = crate::clock::dll_freq(cfg.spec_apply_to(k).dll2)->Some_0.0;
            &&& f > 0
            &&& !m.is_s() ==> cfg.validation(k) == Err::<(), crate::error::ClockError>(
                crate::error::ClockError::Dll2OverLimit,
            )
            &&& m.is_s() ==> (cfg.validation(k) is Ok <==> f <= 288_000_000)
        }),
{
    let t = cfg.spec_apply_to(k);
    let d = cfg.dll2->Update_0;
    assert(t.dll2.en && t.dll2.stg == d.stg && t.dll2.out_div2_en == d.div2);
    assert(crate::config::dll_freq_ok(d.stg as int, d.div2));
}

/// A configuration that keeps every field leaves any clock tree as it is.
pub proof fn lemma_keep_all_is_identity(cfg: Config, k: ClockRegs)
    requires
        cfg.hxt48_enable is Keep && cfg.hrc48_enable is Keep && cfg.dll1 is Keep && cfg.dll2 is Keep,
        cfg.clk_sys_sel is Keep && cfg.hclk_div is Keep && cfg.pclk1_div is Keep && cfg.pclk2_div is Keep,
        cfg.usb is Keep && cfg.tick is Keep && cfg.clk_peri_sel is Keep,
    ensures
        cfg.spec_apply_to(k) == k,
        cfg.validation(k) is Ok,
        cfg.plan_steps(k).len() == 0,
{
    assert(cfg.spec_apply_to(k) =~= k);
    let e: Seq<Step> = seq![];
    assert(cfg.osc_steps(true) =~= e);
    assert(cfg.osc_steps(false) =~= e);
    assert(cfg.bus_steps() =~= e);
    let cm = crate::config::mode_check(crate::clock::hclk_freq(k))->Ok_0;
    let tm = crate::config::mode_check(crate::clock::hclk_freq(cfg.spec_apply_to(k)))->Ok_0;
    assert(cfg.core_steps(k, cm, tm) =~= e);
}

} // verus!
