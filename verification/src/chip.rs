//! The chips that the drivers know, and what differs between them.

use vstd::prelude::*;

verus! {

/// A chip.
#[derive(Debug, Clone, Copy, PartialEq, Eq, Structural)]
pub enum Chip {
    /// ESP32
    Esp32,
    /// ESP32-C2
    Esp32c2,
    /// ESP32-C3
    Esp32c3,
    /// ESP32-C6
    Esp32c6,
    /// ESP32-H2
    Esp32h2,
    /// ESP32-P4
    Esp32p4,
    /// ESP32-S2
    Esp32s2,
    /// ESP32-S3
    Esp32s3,
}

/// The bit of the interrupt registers that belongs to the software interrupt
/// on which `chip` switches tasks: software interrupt 1 on the ESP32, where
/// software interrupt 0 belongs to the Bluetooth stack, and software
/// interrupt 0 elsewhere.
pub open spec fn sw_interrupt(chip: Chip) -> u32 {
    match chip {
        Chip::Esp32 => 0x2000_0000,
        _ => 0x80,
    }
}

/// Whether a timer tick on `chip` is passed on through the software
/// interrupt, so that every switch runs at one priority. It is on the ESP32,
/// where the software interrupt runs at priority 3 and the timer at
/// priority 1.
pub open spec fn tick_redirects(chip: Chip) -> bool {
    chip == Chip::Esp32
}

/// The lowest address of the data RAM of `chip`.
pub open spec fn dram_low(chip: Chip) -> u32 {
    match chip {
        Chip::Esp32 => 0x3FFA_E000,
        Chip::Esp32c2 => 0x3FCA_0000,
        Chip::Esp32c3 => 0x3FC8_0000,
        Chip::Esp32c6 => 0x4080_0000,
        Chip::Esp32h2 => 0x4080_0000,
        Chip::Esp32p4 => 0x4FF0_0000,
        Chip::Esp32s2 => 0x3FFB_0000,
        Chip::Esp32s3 => 0x3FC8_8000,
    }
}

/// The address at which the data RAM of `chip` ends.
pub open spec fn dram_high(chip: Chip) -> u32 {
    match chip {
        Chip::Esp32 => 0x4000_0000,
        Chip::Esp32c2 => 0x3FCE_0000,
        Chip::Esp32c3 => 0x3FCE_0000,
        Chip::Esp32c6 => 0x4088_0000,
        Chip::Esp32h2 => 0x4085_0000,
        Chip::Esp32p4 => 0x4FFC_0000,
        Chip::Esp32s2 => 0x4000_0000,
        Chip::Esp32s3 => 0x3FD0_0000,
    }
}

impl Chip {
    /// See [`sw_interrupt`].
    pub fn sw_interrupt(self) -> (mask: u32)
        ensures
            mask == sw_interrupt(self),
    {
        match self {
            Chip::Esp32 => 0x2000_0000,
            _ => 0x80,
        }
    }

    /// See [`tick_redirects`].
    pub fn tick_redirects(self) -> (redirect: bool)
        ensures
            redirect == tick_redirects(self),
    {
        match self {
            Chip::Esp32 => true,
            _ => false,
        }
    }

    /// See [`dram_low`].
    pub fn dram_low(self) -> (address: u32)
        ensures
            address == dram_low(self),
    {
        match self {
            Chip::Esp32 => 0x3FFA_E000,
            Chip::Esp32c2 => 0x3FCA_0000,
            Chip::Esp32c3 => 0x3FC8_0000,
            Chip::Esp32c6 => 0x4080_0000,
            Chip::Esp32h2 => 0x4080_0000,
            Chip::Esp32p4 => 0x4FF0_0000,
            Chip::Esp32s2 => 0x3FFB_0000,
            Chip::Esp32s3 => 0x3FC8_8000,
        }
    }

    /// See [`dram_high`].
    pub fn dram_high(self) -> (address: u32)
        ensures
            address == dram_high(self),
    {
        match self {
            Chip::Esp32 => 0x4000_0000,
            Chip::Esp32c2 => 0x3FCE_0000,
            Chip::Esp32c3 => 0x3FCE_0000,
            Chip::Esp32c6 => 0x4088_0000,
            Chip::Esp32h2 => 0x4085_0000,
            Chip::Esp32p4 => 0x4FFC_0000,
            Chip::Esp32s2 => 0x4000_0000,
            Chip::Esp32s3 => 0x3FD0_0000,
        }
    }
}

} // verus!
