use vstd::prelude::*;

verus! {

/// A digital input or output level.
#[derive(Clone, Copy, Debug, PartialEq, Eq, Structural)]
pub enum Level {
    Low,
    High,
}

impl From<bool> for Level {
    fn from(val: bool) -> (r: Level) {
        if val { Level::High } else { Level::Low }
    }
}

impl vstd::std_specs::convert::FromSpecImpl<bool> for Level {
    open spec fn obeys_from_spec() -> bool {
        true
    }

    open spec fn from_spec(v: bool) -> Level {
        if v { Level::High } else { Level::Low }
    }
}

impl From<Level> for bool {
    fn from(level: Level) -> (r: bool) {
        match level {
            Level::Low => false,
            Level::High => true,
        }
    }
}

impl vstd::std_specs::convert::FromSpecImpl<Level> for bool {
    open spec fn obeys_from_spec() -> bool {
        true
    }

    open spec fn from_spec(v: Level) -> bool {
        v == Level::High
    }
}

impl Level {
    /// The opposite level.
    pub fn toggled(self) -> (r: Level)
        ensures
            r != self,
    {
        match self {
            Level::Low => Level::High,
            Level::High => Level::Low,
        }
    }
}

/// Pull setting of an input.
#[derive(Clone, Copy, Debug, PartialEq, Eq, Structural)]
pub enum Pull {
    /// No pull resistor.
    Off,
    Up,
    Down,
}

/// Drive strength of an output, weakest first.
#[derive(Clone, Copy, Debug, PartialEq, Eq, Structural)]
pub enum Drive {
    Drive0,
    Drive1,
    Drive2,
    Drive3,
}

/// Slew rate of an output.
#[derive(Clone, Copy, Debug, PartialEq, Eq, Structural)]
pub enum SlewRate {
    Fast,
    Slow,
}

/// Condition on which a pin interrupt fires.
#[derive(Clone, Copy, Debug, PartialEq, Eq, Structural)]
pub enum InterruptTrigger {
    LevelLow,
    LevelHigh,
    EdgeLow,
    EdgeHigh,
    AnyEdge,
}

/// A pin of any bank, packed as `bank * 128 + pin`.
#[derive(Clone, Copy, Debug, PartialEq, Eq, Structural)]
pub struct AnyPin {
    pin_bank: u8,
}

impl AnyPin {
    pub closed spec fn spec_pin_bank(self) -> u8 {
        self.pin_bank
    }

    /// The pin whose packed bank and number is `pin_bank`.
    pub fn steal(pin_bank: u8) -> (r: Self)
        ensures
            r.spec_pin_bank() == pin_bank,
    {
        AnyPin { pin_bank }
    }

    pub fn pin_bank(&self) -> (r: u8)
        ensures
            r == self.spec_pin_bank(),
    {
        self.pin_bank
    }

    /// The pin number within its bank.
    pub fn pin(&self) -> (r: u8)
        ensures
            r == self.spec_pin_bank() % 128,
    {
        let v = self.pin_bank;
        assert(v & 0x7f == v % 128) by (bit_vector);
        v & 0x7f
    }

    /// The bank: 0 for PA, 1 for PB.
    pub fn bank(&self) -> (r: u8)
        ensures
            r == self.spec_pin_bank() / 128,
    {
        let v = self.pin_bank;
        assert(v >> 7u8 == v / 128) by (bit_vector);
        v >> 7u8
    }
}

} // verus!
