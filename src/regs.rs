use vstd::prelude::*;

verus! {

/// Source of the system clock `clk_sys`.
#[derive(Clone, Copy, Debug, PartialEq, Eq, Structural)]
pub enum ClkSysSel {
    Hrc48,
    Hxt48,
    /// Frequency doubler; not supported by this engine.
    Dbl96,
    Dll1,
}

/// Source of the peripheral clock `clk_peri`.
#[derive(Clone, Copy, Debug, PartialEq, Eq, Structural)]
pub enum ClkPeriSel {
    Hrc48,
    Hxt48,
}

/// Source of the USB clock.
#[derive(Clone, Copy, Debug, PartialEq, Eq, Structural)]
pub enum UsbSel {
    ClkSys,
    Dll2,
}

/// Source of the system tick clock.
#[derive(Clone, Copy, Debug, PartialEq, Eq, Structural)]
pub enum TickSel {
    ClkRtc,
    Reserved,
    Hrc48,
    Hxt48,
}

/// Observable state of one DLL.
#[derive(Clone, Copy, Debug, PartialEq, Eq, Structural)]
pub struct DllRegs {
    pub en: bool,
    /// Multiplier stage, a 4-bit field.
    pub stg: u8,
    pub out_div2_en: bool,
    pub ready: bool,
}

/// The clock-tree fields of the register file, as read at one instant.
#[derive(Clone, Copy, Debug, PartialEq, Eq, Structural)]
pub struct ClockRegs {
    pub hxt48_req: bool,
    pub hxt48_rdy: bool,
    pub hrc48_req: bool,
    pub hrc48_rdy: bool,
    pub dll1: DllRegs,
    pub dll2: DllRegs,
    pub sel_sys: ClkSysSel,
    pub sel_peri: ClkPeriSel,
    pub sel_usbc: UsbSel,
    pub usb_div: u8,
    pub sel_tick: TickSel,
    pub tick_div: u8,
    /// Core clock divisor; 0 passes `clk_sys` through undivided.
    pub hdiv: u8,
    /// `pclk1 = hclk / 2^pdiv1`.
    pub pdiv1: u8,
    /// `pclk2 = hclk / 2^pdiv2`.
    pub pdiv2: u8,
    /// Shared analog bias of the DLLs: DLL input buffer.
    pub buf_dll_en: bool,
    /// Shared analog bias of the DLLs: high-power bandgap.
    pub hpbg_en: bool,
    /// Shared analog bias of the DLLs: bandgap supply switch.
    pub hpbg_vddpsw_en: bool,
}

/// The voltage-regulation fields of the register file.
#[derive(Clone, Copy, Debug, PartialEq, Eq, Structural)]
pub struct PowerRegs {
    /// Regulator path: `true` selects the low-voltage (LDO, "D") rail,
    /// `false` the switching-regulator ("S") rail.
    pub ldo_vsel: bool,
    /// Switching-regulator trim used in S modes.
    pub buck_vout: u8,
    /// Core LDO trim used in S modes.
    pub hpsys_vout: u8,
    /// Switching-regulator trim staged for D modes.
    pub buck_vout_m: u8,
    /// Core LDO reference staged for D modes.
    pub ldo_vref: u8,
    /// Memory timing register.
    pub ulpmcr: u32,
}

/// The whole register file that the engine reads and writes.
#[derive(Clone, Copy, Debug, PartialEq, Eq, Structural)]
pub struct ChipState {
    pub clock: ClockRegs,
    pub power: PowerRegs,
}

impl DllRegs {
    pub open spec fn wf(self) -> bool {
        self.stg <= 15
    }
}

impl ClockRegs {
    /// Every field holds a value that fits its register field.
    pub open spec fn wf(self) -> bool {
        &&& self.dll1.wf()
        &&& self.dll2.wf()
        &&& self.usb_div <= 7
        &&& self.tick_div <= 63
        &&& self.pdiv1 <= 7
        &&& self.pdiv2 <= 7
    }

    /// Tests `wf`, for callers outside verified code.
    pub fn is_wf(&self) -> (r: bool)
        ensures
            r == self.wf(),
    {
        self.dll1.stg <= 15 && self.dll2.stg <= 15 && self.usb_div <= 7 && self.tick_div <= 63
            && self.pdiv1 <= 7 && self.pdiv2 <= 7
    }
}

impl PowerRegs {
    /// Every trim holds a value that fits its 4-bit field.
    pub open spec fn wf(self) -> bool {
        &&& self.buck_vout <= 15
        &&& self.hpsys_vout <= 15
        &&& self.buck_vout_m <= 15
        &&& self.ldo_vref <= 15
    }
}

impl ChipState {
    pub open spec fn wf(self) -> bool {
        self.clock.wf() && self.power.wf()
    }

    /// Tests `wf`, for callers outside verified code.
    pub fn is_wf(&self) -> (r: bool)
        ensures
            r == self.wf(),
    {
        self.clock.is_wf() && self.power.buck_vout <= 15 && self.power.hpsys_vout <= 15
            && self.power.buck_vout_m <= 15 && self.power.ldo_vref <= 15
    }
}

} // verus!
