//! Configuration selectors for the sampling and timestamping timers.
//!
//! The peripheral registers themselves belong to the excluded hardware layer;
//! the core only fixes the selector encodings that layer writes into the
//! timer configuration fields.

use vstd::prelude::*;

verus! {

/// The source of an input capture trigger.
pub enum CaptureTrigger {
    Input13,
    Input24,
    TriggerInput,
}

impl CaptureTrigger {
    /// The register field encoding of the selector.
    pub open spec fn spec_code(&self) -> u8 {
        match self {
            CaptureTrigger::Input13 => 0b01,
            CaptureTrigger::Input24 => 0b10,
            CaptureTrigger::TriggerInput => 0b11,
        }
    }

    /// The register field encoding of the selector.
    pub fn code(&self) -> (r: u8)
        ensures
            r == self.spec_code(),
    {
        match self {
            CaptureTrigger::Input13 => 0b01,
            CaptureTrigger::Input24 => 0b10,
            CaptureTrigger::TriggerInput => 0b11,
        }
    }
}

/// The event that generates an external trigger from the peripheral.
pub enum TriggerGenerator {
    Reset,
    Enable,
    Update,
    ComparePulse,
    Ch1Compare,
    Ch2Compare,
    Ch3Compare,
    Ch4Compare,
}

impl TriggerGenerator {
    /// The register field encoding of the selector.
    pub open spec fn spec_code(&self) -> u8 {
        match self {
            TriggerGenerator::Reset => 0b000,
            TriggerGenerator::Enable => 0b001,
            TriggerGenerator::Update => 0b010,
            TriggerGenerator::ComparePulse => 0b011,
            TriggerGenerator::Ch1Compare => 0b100,
            TriggerGenerator::Ch2Compare => 0b101,
            TriggerGenerator::Ch3Compare => 0b110,
            TriggerGenerator::Ch4Compare => 0b111,
        }
    }

    /// The register field encoding of the selector.
    pub fn code(&self) -> (r: u8)
        ensures
            r == self.spec_code(),
    {
        match self {
            TriggerGenerator::Reset => 0b000,
            TriggerGenerator::Enable => 0b001,
            TriggerGenerator::Update => 0b010,
            TriggerGenerator::ComparePulse => 0b011,
            TriggerGenerator::Ch1Compare => 0b100,
            TriggerGenerator::Ch2Compare => 0b101,
            TriggerGenerator::Ch3Compare => 0b110,
            TriggerGenerator::Ch4Compare => 0b111,
        }
    }
}

/// The trigger source selector of a timer peripheral.
pub enum TriggerSource {
    Trigger0,
    Trigger1,
    Trigger2,
    Trigger3,
}

impl TriggerSource {
    /// The register field encoding of the selector.
    pub open spec fn spec_code(&self) -> u8 {
        match self {
            TriggerSource::Trigger0 => 0b00,
            TriggerSource::Trigger1 => 0b01,
            TriggerSource::Trigger2 => 0b10,
            TriggerSource::Trigger3 => 0b11,
        }
    }

    /// The register field encoding of the selector.
    pub fn code(&self) -> (r: u8)
        ensures
            r == self.spec_code(),
    {
        match self {
            TriggerSource::Trigger0 => 0b00,
            TriggerSource::Trigger1 => 0b01,
            TriggerSource::Trigger2 => 0b10,
            TriggerSource::Trigger3 => 0b11,
        }
    }
}

/// Prescalers for externally supplied reference clocks.
pub enum Prescaler {
    Div1,
    Div2,
    Div4,
    Div8,
}

impl Prescaler {
    /// The register field encoding of the selector.
    pub open spec fn spec_code(&self) -> u8 {
        match self {
            Prescaler::Div1 => 0b00,
            Prescaler::Div2 => 0b01,
            Prescaler::Div4 => 0b10,
            Prescaler::Div8 => 0b11,
        }
    }

    /// The register field encoding of the selector.
    pub fn code(&self) -> (r: u8)
        ensures
            r == self.spec_code(),
    {
        match self {
            Prescaler::Div1 => 0b00,
            Prescaler::Div2 => 0b01,
            Prescaler::Div4 => 0b10,
            Prescaler::Div8 => 0b11,
        }
    }

    /// The division factor the selector stands for: two to the power of the
    /// register encoding.
    pub fn divisor(&self) -> (r: u32)
        ensures
            r == (match self {
                Prescaler::Div1 => 1u32,
                Prescaler::Div2 => 2u32,
                Prescaler::Div4 => 4u32,
                Prescaler::Div8 => 8u32,
            }),
    {
        match self {
            Prescaler::Div1 => 1,
            Prescaler::Div2 => 2,
            Prescaler::Div4 => 4,
            Prescaler::Div8 => 8,
        }
    }
}

/// Optional slave operation modes of a timer.
pub enum SlaveMode {
    Disabled,
    Trigger,
}

impl SlaveMode {
    /// The register field encoding of the selector.
    pub open spec fn spec_code(&self) -> u8 {
        match self {
            SlaveMode::Disabled => 0b0000,
            SlaveMode::Trigger => 0b0110,
        }
    }

    /// The register field encoding of the selector.
    pub fn code(&self) -> (r: u8)
        ensures
            r == self.spec_code(),
    {
        match self {
            SlaveMode::Disabled => 0b0000,
            SlaveMode::Trigger => 0b0110,
        }
    }
}

} // verus!
