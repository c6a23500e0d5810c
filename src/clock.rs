use vstd::prelude::*;

use crate::error::ClockError;
use crate::regs::{ClkPeriSel, ClkSysSel, ClockRegs, DllRegs, UsbSel};
use crate::time::Hertz;

verus! {

/// Nominal frequency of both 48 MHz oscillators.
pub const OSC48_HZ: u32 = 48_000_000;

/// Reference frequency that each DLL stage multiplies.
pub const DLL_STEP_HZ: u32 = 24_000_000;

/// Fixed frequency of the audio PLL.
pub const AUD_PLL_HZ: u32 = 49_152_000;

/// Output of a DLL at `stg` in hertz: `(stg + 1) * 24 MHz`, halved when `div2` is set.
pub open spec fn dll_output_hz(stg: int, div2: bool) -> int {
    (stg + 1) * DLL_STEP_HZ / (if div2 { 2int } else { 1int })
}

/// A 48 MHz oscillator, present only once its ready bit is observed.
pub open spec fn osc_freq(rdy: bool) -> Option<Hertz> {
    if rdy { Some(Hertz(OSC48_HZ)) } else { None }
}

pub open spec fn dll_freq(d: DllRegs) -> Option<Hertz> {
    if d.en { Some(Hertz(dll_output_hz(d.stg as int, d.out_div2_en) as u32)) } else { None }
}

pub open spec fn clk_sys_freq(c: ClockRegs) -> Result<Option<Hertz>, ClockError> {
    match c.sel_sys {
        ClkSysSel::Hrc48 => Ok(osc_freq(c.hrc48_rdy)),
        ClkSysSel::Hxt48 => Ok(osc_freq(c.hxt48_rdy)),
        ClkSysSel::Dbl96 => Err(ClockError::UnsupportedSource),
        ClkSysSel::Dll1 => Ok(dll_freq(c.dll1)),
    }
}

/// The divisor that a programmed core divider value stands for.
pub open spec fn hclk_divisor(hdiv: u8) -> int {
    if hdiv == 0 { 1 } else { hdiv as int }
}

pub open spec fn hclk_freq(c: ClockRegs) -> Result<Option<Hertz>, ClockError> {
    match clk_sys_freq(c) {
        Ok(Some(f)) => Ok(Some(Hertz((f.0 as int / hclk_divisor(c.hdiv)) as u32))),
        other => other,
    }
}

/// `hclk` divided by `2^shift`.
pub open spec fn pclk_freq(c: ClockRegs, shift: u8) -> Result<Option<Hertz>, ClockError> {
    match hclk_freq(c) {
        Ok(Some(f)) => Ok(Some(Hertz(f.0 / (1u32 << (shift as u32))))),
        other => other,
    }
}

pub open spec fn clk_peri_freq(c: ClockRegs) -> Option<Hertz> {
    match c.sel_peri {
        ClkPeriSel::Hxt48 => osc_freq(c.hxt48_rdy),
        ClkPeriSel::Hrc48 => osc_freq(c.hrc48_rdy),
    }
}

pub open spec fn clk_usb_freq(c: ClockRegs) -> Result<Option<Hertz>, ClockError> {
    match c.sel_usbc {
        UsbSel::ClkSys => clk_sys_freq(c),
        UsbSel::Dll2 => Ok(dll_freq(c.dll2)),
    }
}

fn osc48(rdy: bool) -> (r: Option<Hertz>)
    ensures
        r == osc_freq(rdy),
{
    if rdy { Some(Hertz(OSC48_HZ)) } else { None }
}

/// Output frequency of a DLL from its stage and halving bit.
pub fn dll_output(stg: u8, div2: bool) -> (r: Hertz)
    requires
        stg <= 15,
    ensures
        r.0 == dll_output_hz(stg as int, div2),
{
    let d: u32 = if div2 { 2 } else { 1 };
    Hertz(DLL_STEP_HZ * (stg as u32 + 1) / d)
}

fn dll_regs_freq(d: &DllRegs) -> (r: Option<Hertz>)
    requires
        d.wf(),
    ensures
        r == dll_freq(*d),
{
    if d.en { Some(dll_output(d.stg, d.out_div2_en)) } else { None }
}

/// Frequency of the system clock; the frequency doubler is refused.
pub fn get_clk_sys_freq(regs: &ClockRegs) -> (r: Result<Option<Hertz>, ClockError>)
    requires
        regs.wf(),
    ensures
        r == clk_sys_freq(*regs),
{
    match regs.sel_sys {
        ClkSysSel::Hrc48 => Ok(get_hrc48_freq(regs)),
        ClkSysSel::Hxt48 => Ok(get_hxt48_freq(regs)),
        ClkSysSel::Dbl96 => Err(ClockError::UnsupportedSource),
        ClkSysSel::Dll1 => Ok(get_clk_dll1_freq(regs)),
    }
}

pub fn get_clk_sys_source(regs: &ClockRegs) -> (r: ClkSysSel)
    ensures
        r == regs.sel_sys,
{
    regs.sel_sys
}

pub fn get_clk_peri_freq(regs: &ClockRegs) -> (r: Option<Hertz>)
    ensures
        r == clk_peri_freq(*regs),
{
    match regs.sel_peri {
        ClkPeriSel::Hxt48 => get_hxt48_freq(regs),
        ClkPeriSel::Hrc48 => get_hrc48_freq(regs),
    }
}

pub fn get_clk_peri_div2_freq(regs: &ClockRegs) -> (r: Option<Hertz>)
    ensures
        r == (match clk_peri_freq(*regs) {
            Some(f) => Some(Hertz(f.0 / 2)),
            None => None,
        }),
{
    match get_clk_peri_freq(regs) {
        Some(f) => Some(Hertz(f.0 / 2)),
        None => None,
    }
}

/// Frequency of the core clock: `clk_sys` over the core divider.
pub fn get_hclk_freq(regs: &ClockRegs) -> (r: Result<Option<Hertz>, ClockError>)
    requires
        regs.wf(),
    ensures
        r == hclk_freq(*regs),
{
    match get_clk_sys_freq(regs) {
        Ok(Some(f)) => {
            let div: u32 = if regs.hdiv == 0 { 1 } else { regs.hdiv as u32 };
            Ok(Some(Hertz(f.0 / div)))
        },
        other => other,
    }
}

fn pclk(regs: &ClockRegs, shift: u8) -> (r: Result<Option<Hertz>, ClockError>)
    requires
        regs.wf(),
        shift <= 7,
    ensures
        r == pclk_freq(*regs, shift),
{
    match get_hclk_freq(regs) {
        Ok(Some(f)) => {
            let s: u32 = shift as u32;
            assert(s < 8 ==> (1u32 << s) > 0) by (bit_vector);
            Ok(Some(Hertz(f.0 / (1u32 << s))))
        },
        other => other,
    }
}

pub fn get_pclk1_freq(regs: &ClockRegs) -> (r: Result<Option<Hertz>, ClockError>)
    requires
        regs.wf(),
    ensures
        r == pclk_freq(*regs, regs.pdiv1),
{
    pclk(regs, regs.pdiv1)
}

pub fn get_pclk2_freq(regs: &ClockRegs) -> (r: Result<Option<Hertz>, ClockError>)
    requires
        regs.wf(),
    ensures
        r == pclk_freq(*regs, regs.pdiv2),
{
    pclk(regs, regs.pdiv2)
}

pub fn get_hxt48_freq(regs: &ClockRegs) -> (r: Option<Hertz>)
    ensures
        r == osc_freq(regs.hxt48_rdy),
{
    osc48(regs.hxt48_rdy)
}

pub fn get_hrc48_freq(regs: &ClockRegs) -> (r: Option<Hertz>)
    ensures
        r == osc_freq(regs.hrc48_rdy),
{
    osc48(regs.hrc48_rdy)
}

pub fn get_clk_dll1_freq(regs: &ClockRegs) -> (r: Option<Hertz>)
    requires
        regs.wf(),
    ensures
        r == dll_freq(regs.dll1),
{
    dll_regs_freq(&regs.dll1)
}

pub fn get_clk_dll2_freq(regs: &ClockRegs) -> (r: Option<Hertz>)
    requires
        regs.wf(),
    ensures
        r == dll_freq(regs.dll2),
{
    dll_regs_freq(&regs.dll2)
}

pub fn get_clk_usb_freq(regs: &ClockRegs) -> (r: Result<Option<Hertz>, ClockError>)
    requires
        regs.wf(),
    ensures
        r == clk_usb_freq(*regs),
{
    match regs.sel_usbc {
        UsbSel::ClkSys => get_clk_sys_freq(regs),
        UsbSel::Dll2 => Ok(get_clk_dll2_freq(regs)),
    }
}

pub fn get_clk_aud_pll_freq() -> (r: Option<Hertz>)
    ensures
        r == Some(Hertz(AUD_PLL_HZ)),
{
    Some(Hertz(AUD_PLL_HZ))
}

/// A named node of the clock tree.
#[derive(Clone, Copy, Debug, PartialEq, Eq, Structural)]
pub enum ClockNode {
    ClkSys,
    ClkPeri,
    ClkPeriDiv2,
    Hclk,
    Pclk1,
    Pclk2,
    Hxt48,
    Hrc48,
    ClkDll1,
    ClkDll2,
    ClkUsb,
    ClkAudPll,
}

/// Frequency of a node: `None` when its source is disabled or not ready.
pub open spec fn node_freq(c: ClockRegs, n: ClockNode) -> Result<Option<Hertz>, ClockError> {
    match n {
        ClockNode::ClkSys => clk_sys_freq(c),
        ClockNode::ClkPeri => Ok(clk_peri_freq(c)),
        ClockNode::ClkPeriDiv2 => Ok(
            match clk_peri_freq(c) {
                Some(f) => Some(Hertz(f.0 / 2)),
                None => None,
            },
        ),
        ClockNode::Hclk => hclk_freq(c),
        ClockNode::Pclk1 => pclk_freq(c, c.pdiv1),
        ClockNode::Pclk2 => pclk_freq(c, c.pdiv2),
        ClockNode::Hxt48 => Ok(osc_freq(c.hxt48_rdy)),
        ClockNode::Hrc48 => Ok(osc_freq(c.hrc48_rdy)),
        ClockNode::ClkDll1 => Ok(dll_freq(c.dll1)),
        ClockNode::ClkDll2 => Ok(dll_freq(c.dll2)),
        ClockNode::ClkUsb => clk_usb_freq(c),
        ClockNode::ClkAudPll => Ok(Some(Hertz(AUD_PLL_HZ))),
    }
}

/// Every node, in the order of the diagnostic listing.
pub open spec fn all_nodes() -> Seq<ClockNode> {
    seq![
        ClockNode::ClkSys,
        ClockNode::ClkPeri,
        ClockNode::ClkPeriDiv2,
        ClockNode::Hclk,
        ClockNode::Pclk1,
        ClockNode::Pclk2,
        ClockNode::Hxt48,
        ClockNode::Hrc48,
        ClockNode::ClkDll1,
        ClockNode::ClkDll2,
        ClockNode::ClkUsb,
        ClockNode::ClkAudPll,
    ]
}

/// The name of a node in the diagnostic listing.
pub open spec fn node_name(n: ClockNode) -> Seq<char> {
    match n {
        ClockNode::ClkSys => "clk_sys"@,
        ClockNode::ClkPeri => "clk_peri"@,
        ClockNode::ClkPeriDiv2 => "clk_peri_div2"@,
        ClockNode::Hclk => "hclk"@,
        ClockNode::Pclk1 => "pclk1"@,
        ClockNode::Pclk2 => "pclk2"@,
        ClockNode::Hxt48 => "hxt48"@,
        ClockNode::Hrc48 => "hrc48"@,
        ClockNode::ClkDll1 => "clk_dll1"@,
        ClockNode::ClkDll2 => "clk_dll2"@,
        ClockNode::ClkUsb => "clk_usb"@,
        ClockNode::ClkAudPll => "clk_aud_pll"@,
    }
}

impl ClockNode {
    /// The node's name.
    pub fn name(&self) -> (r: &'static str)
        ensures
            r@ == node_name(*self),
    {
        match self {
            ClockNode::ClkSys => "clk_sys",
            ClockNode::ClkPeri => "clk_peri",
            ClockNode::ClkPeriDiv2 => "clk_peri_div2",
            ClockNode::Hclk => "hclk",
            ClockNode::Pclk1 => "pclk1",
            ClockNode::Pclk2 => "pclk2",
            ClockNode::Hxt48 => "hxt48",
            ClockNode::Hrc48 => "hrc48",
            ClockNode::ClkDll1 => "clk_dll1",
            ClockNode::ClkDll2 => "clk_dll2",
            ClockNode::ClkUsb => "clk_usb",
            ClockNode::ClkAudPll => "clk_aud_pll",
        }
    }
}

/// Frequency of one node, derived afresh from `regs`.
pub fn query(regs: &ClockRegs, node: ClockNode) -> (r: Result<Option<Hertz>, ClockError>)
    requires
        regs.wf(),
    ensures
        r == node_freq(*regs, node),
{
    match node {
        ClockNode::ClkSys => get_clk_sys_freq(regs),
        ClockNode::ClkPeri => Ok(get_clk_peri_freq(regs)),
        ClockNode::ClkPeriDiv2 => Ok(get_clk_peri_div2_freq(regs)),
        ClockNode::Hclk => get_hclk_freq(regs),
        ClockNode::Pclk1 => get_pclk1_freq(regs),
        ClockNode::Pclk2 => get_pclk2_freq(regs),
        ClockNode::Hxt48 => Ok(get_hxt48_freq(regs)),
        ClockNode::Hrc48 => Ok(get_hrc48_freq(regs)),
        ClockNode::ClkDll1 => Ok(get_clk_dll1_freq(regs)),
        ClockNode::ClkDll2 => Ok(get_clk_dll2_freq(regs)),
        ClockNode::ClkUsb => get_clk_usb_freq(regs),
        ClockNode::ClkAudPll => Ok(get_clk_aud_pll_freq()),
    }
}

/// A frequency split for display: whole megahertz and the three-digit kilohertz rest.
pub fn mhz_khz(f: Hertz) -> (r: (u32, u32))
    ensures
        r.0 == f.0 / 1_000_000,
        r.1 == (f.0 / 1_000) % 1_000,
        r.1 < 1_000,
{
    let khz = f.0 / 1_000;
    (khz / 1_000, khz % 1_000)
}

/// Every node with its frequency, in listing order; refused as a whole when the system
/// clock runs from a source that cannot be derived.
pub fn test_print_clocks(regs: &ClockRegs) -> (r: Result<Vec<(ClockNode, Option<Hertz>)>, ClockError>)
    requires
        regs.wf(),
    ensures
        r is Err <==> clk_sys_freq(*regs) is Err,
        r is Err ==> r->Err_0 == clk_sys_freq(*regs)->Err_0,
        r is Ok ==> r->Ok_0@.len() == all_nodes().len() && forall|i: int|
            0 <= i < all_nodes().len() ==> #[trigger] r->Ok_0@[i] == (
                all_nodes()[i],
                node_freq(*regs, all_nodes()[i])->Ok_0,
            ),
{
    if let Err(e) = get_clk_sys_freq(regs) {
        return Err(e);
    }
    let nodes: Vec<ClockNode> = vec![
        ClockNode::ClkSys,
        ClockNode::ClkPeri,
        ClockNode::ClkPeriDiv2,
        ClockNode::Hclk,
        ClockNode::Pclk1,
        ClockNode::Pclk2,
        ClockNode::Hxt48,
        ClockNode::Hrc48,
        ClockNode::ClkDll1,
        ClockNode::ClkDll2,
        ClockNode::ClkUsb,
        ClockNode::ClkAudPll,
    ];
    assert(nodes@ =~= all_nodes());
    let mut out: Vec<(ClockNode, Option<Hertz>)> = Vec::new();
    let mut i: usize = 0;
    while i < nodes.len()
        invariant
            regs.wf(),
            clk_sys_freq(*regs) is Ok,
            nodes@ == all_nodes(),
            i <= nodes.len(),
            out@.len() == i,
            forall|j: int| 0 <= j < i ==> #[trigger] out@[j] == (all_nodes()[j], node_freq(*regs, all_nodes()[j])->Ok_0),
        decreases nodes.len() - i,
    {
        let n = nodes[i];
        let f = query(regs, n);
        match f {
            Ok(v) => out.push((n, v)),
            Err(_) => {
                return Err(ClockError::UnsupportedSource);
            },
        }
        i = i + 1;
    }
    Ok(out)
}

} // verus!
