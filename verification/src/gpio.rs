//! # GPIO configuration module (ESP32-C2)
//!
//! The signals of the GPIO matrix and the interrupt settings of a pin.

use vstd::prelude::*;

verus! {

/// Where the input signal selection starts.
pub const FUNC_IN_SEL_OFFSET: usize = 0;

/// The highest number of an output signal.
pub const OUTPUT_SIGNAL_MAX: u8 = 128;

/// The highest number of an input signal.
pub const INPUT_SIGNAL_MAX: u8 = 100;

/// The input signal that is always high.
pub const ONE_INPUT: u8 = 0x1e;

/// The input signal that is always low.
pub const ZERO_INPUT: u8 = 0x1f;

/// The number of pins.
pub const NUM_PINS: u8 = 21;

/// The setting of the interrupt enable field of a pin: bit 0 for the
/// interrupt, bit 1 for the non-maskable interrupt.
pub open spec fn intr_enable_bits(int_enable: bool, nmi_enable: bool) -> u8 {
    ((if int_enable {
        1int
    } else {
        0int
    }) + (if nmi_enable {
        2int
    } else {
        0int
    })) as u8
}

/// The setting of the interrupt enable field of a pin.
pub fn gpio_intr_enable(int_enable: bool, nmi_enable: bool) -> (bits: u8)
    ensures
        bits == intr_enable_bits(int_enable, nmi_enable),
{
    let int_bit: u8 = if int_enable {
        1
    } else {
        0
    };
    let nmi_bit: u8 = if nmi_enable {
        1
    } else {
        0
    };
    assert((int_bit == 0 || int_bit == 1) && (nmi_bit == 0 || nmi_bit == 1) ==> int_bit | (nmi_bit
        << 1) == int_bit + 2 * nmi_bit) by (bit_vector);
    int_bit | (nmi_bit << 1)
}

/// The index of the IO MUX register of pin `gpio_num`, if there is such a
/// pin.
pub fn io_mux_reg(gpio_num: u8) -> (index: Option<usize>)
    ensures
        index == (if gpio_num < NUM_PINS {
            Some(gpio_num as usize)
        } else {
            None
        }),
{
    if gpio_num < NUM_PINS {
        Some(gpio_num as usize)
    } else {
        None
    }
}

/// Peripheral input signals for the GPIO mux
#[allow(non_camel_case_types)]
#[derive(Debug, PartialEq, Eq, Copy, Clone, Structural)]
pub enum InputSignal {
    /// Signal 0.
    SPIQ,
    /// Signal 1.
    SPID,
    /// Signal 2.
    SPIHD,
    /// Signal 3.
    SPIWP,
    /// Signal 6.
    U0RXD,
    /// Signal 7.
    U0CTS,
    /// Signal 8.
    U0DSR,
    /// Signal 9.
    U1RXD,
    /// Signal 10.
    U1CTS,
    /// Signal 11.
    U1DSR,
    /// Signal 28.
    CPU_GPIO_0,
    /// Signal 29.
    CPU_GPIO_1,
    /// Signal 30.
    CPU_GPIO_2,
    /// Signal 31.
    CPU_GPIO_3,
    /// Signal 32.
    CPU_GPIO_4,
    /// Signal 33.
    CPU_GPIO_5,
    /// Signal 34.
    CPU_GPIO_6,
    /// Signal 35.
    CPU_GPIO_7,
    /// Signal 45.
    EXT_ADC_START,
    /// Signal 51.
    RMT_SIG_0,
    /// Signal 52.
    RMT_SIG_1,
    /// Signal 53.
    I2CEXT0_SCL,
    /// Signal 54.
    I2CEXT0_SDA,
    /// Signal 63.
    FSPICLK,
    /// Signal 64.
    FSPIQ,
    /// Signal 65.
    FSPID,
    /// Signal 66.
    FSPIHD,
    /// Signal 67.
    FSPIWP,
    /// Signal 68.
    FSPICS0,
    /// Signal 97.
    SIG_FUNC_97,
    /// Signal 98.
    SIG_FUNC_98,
    /// Signal 99.
    SIG_FUNC_99,
    /// Signal 100.
    SIG_FUNC_100,
}

impl InputSignal {
    /// The number of the signal in the GPIO matrix.
    pub open spec fn spec_number(self) -> u8 {
        match self {
            InputSignal::SPIQ => 0,
            InputSignal::SPID => 1,
            InputSignal::SPIHD => 2,
            InputSignal::SPIWP => 3,
            InputSignal::U0RXD => 6,
            InputSignal::U0CTS => 7,
            InputSignal::U0DSR => 8,
            InputSignal::U1RXD => 9,
            InputSignal::U1CTS => 10,
            InputSignal::U1DSR => 11,
            InputSignal::CPU_GPIO_0 => 28,
            InputSignal::CPU_GPIO_1 => 29,
            InputSignal::CPU_GPIO_2 => 30,
            InputSignal::CPU_GPIO_3 => 31,
            InputSignal::CPU_GPIO_4 => 32,
            InputSignal::CPU_GPIO_5 => 33,
            InputSignal::CPU_GPIO_6 => 34,
            InputSignal::CPU_GPIO_7 => 35,
            InputSignal::EXT_ADC_START => 45,
            InputSignal::RMT_SIG_0 => 51,
            InputSignal::RMT_SIG_1 => 52,
            InputSignal::I2CEXT0_SCL => 53,
            InputSignal::I2CEXT0_SDA => 54,
            InputSignal::FSPICLK => 63,
            InputSignal::FSPIQ => 64,
            InputSignal::FSPID => 65,
            InputSignal::FSPIHD => 66,
            InputSignal::FSPIWP => 67,
            InputSignal::FSPICS0 => 68,
            InputSignal::SIG_FUNC_97 => 97,
            InputSignal::SIG_FUNC_98 => 98,
            InputSignal::SIG_FUNC_99 => 99,
            InputSignal::SIG_FUNC_100 => 100,
        }
    }

    /// The number of the signal in the GPIO matrix.
    pub fn number(self) -> (number: u8)
        ensures
            number == self.spec_number(),
            number <= INPUT_SIGNAL_MAX,
    {
        match self {
            InputSignal::SPIQ => 0,
            InputSignal::SPID => 1,
            InputSignal::SPIHD => 2,
            InputSignal::SPIWP => 3,
            InputSignal::U0RXD => 6,
            InputSignal::U0CTS => 7,
            InputSignal::U0DSR => 8,
            InputSignal::U1RXD => 9,
            InputSignal::U1CTS => 10,
            InputSignal::U1DSR => 11,
            InputSignal::CPU_GPIO_0 => 28,
            InputSignal::CPU_GPIO_1 => 29,
            InputSignal::CPU_GPIO_2 => 30,
            InputSignal::CPU_GPIO_3 => 31,
            InputSignal::CPU_GPIO_4 => 32,
            InputSignal::CPU_GPIO_5 => 33,
            InputSignal::CPU_GPIO_6 => 34,
            InputSignal::CPU_GPIO_7 => 35,
            InputSignal::EXT_ADC_START => 45,
            InputSignal::RMT_SIG_0 => 51,
            InputSignal::RMT_SIG_1 => 52,
            InputSignal::I2CEXT0_SCL => 53,
            InputSignal::I2CEXT0_SDA => 54,
            InputSignal::FSPICLK => 63,
            InputSignal::FSPIQ => 64,
            InputSignal::FSPID => 65,
            InputSignal::FSPIHD => 66,
            InputSignal::FSPIWP => 67,
            InputSignal::FSPICS0 => 68,
            InputSignal::SIG_FUNC_97 => 97,
            InputSignal::SIG_FUNC_98 => 98,
            InputSignal::SIG_FUNC_99 => 99,
            InputSignal::SIG_FUNC_100 => 100,
        }
    }
}

/// Peripheral output signals for the GPIO mux
#[allow(non_camel_case_types)]
#[derive(Debug, PartialEq, Eq, Copy, Clone, Structural)]
pub enum OutputSignal {
    /// Signal 0.
    SPIQ,
    /// Signal 1.
    SPID,
    /// Signal 2.
    SPIHD,
    /// Signal 3.
    SPIWP,
    /// Signal 4.
    SPICLK_MUX,
    /// Signal 5.
    SPICS0,
    /// Signal 6.
    U0TXD,
    /// Signal 7.
    U0RTS,
    /// Signal 8.
    U0DTR,
    /// Signal 9.
    U1TXD,
    /// Signal 10.
    U1RTS,
    /// Signal 11.
    U1DTR,
    /// Signal 15.
    SPIQ_MONITOR,
    /// Signal 16.
    SPID_MONITOR,
    /// Signal 17.
    SPIHD_MONITOR,
    /// Signal 18.
    SPIWP_MONITOR,
    /// Signal 19.
    SPICS1,
    /// Signal 28.
    CPU_GPIO_0,
    /// Signal 29.
    CPU_GPIO_1,
    /// Signal 30.
    CPU_GPIO_2,
    /// Signal 31.
    CPU_GPIO_3,
    /// Signal 32.
    CPU_GPIO_4,
    /// Signal 33.
    CPU_GPIO_5,
    /// Signal 34.
    CPU_GPIO_6,
    /// Signal 35.
    CPU_GPIO_7,
    /// Signal 45.
    LEDC_LS_SIG0,
    /// Signal 46.
    LEDC_LS_SIG1,
    /// Signal 47.
    LEDC_LS_SIG2,
    /// Signal 48.
    LEDC_LS_SIG3,
    /// Signal 49.
    LEDC_LS_SIG4,
    /// Signal 50.
    LEDC_LS_SIG5,
    /// Signal 51.
    RMT_SIG_0,
    /// Signal 52.
    RMT_SIG_1,
    /// Signal 53.
    I2CEXT0_SCL,
    /// Signal 54.
    I2CEXT0_SDA,
    /// Signal 63.
    FSPICLK_MUX,
    /// Signal 64.
    FSPIQ,
    /// Signal 65.
    FSPID,
    /// Signal 66.
    FSPIHD,
    /// Signal 67.
    FSPIWP,
    /// Signal 68.
    FSPICS0,
    /// Signal 69.
    FSPICS1,
    /// Signal 70.
    FSPICS3,
    /// Signal 71.
    FSPICS2,
    /// Signal 72.
    FSPICS4,
    /// Signal 73.
    FSPICS5,
    /// Signal 89.
    ANT_SEL0,
    /// Signal 90.
    ANT_SEL1,
    /// Signal 91.
    ANT_SEL2,
    /// Signal 92.
    ANT_SEL3,
    /// Signal 93.
    ANT_SEL4,
    /// Signal 94.
    ANT_SEL5,
    /// Signal 95.
    ANT_SEL6,
    /// Signal 96.
    ANT_SEL7,
    /// Signal 97.
    SIG_FUNC_97,
    /// Signal 98.
    SIG_FUNC_98,
    /// Signal 99.
    SIG_FUNC_99,
    /// Signal 100.
    SIG_FUNC_100,
    /// Signal 123.
    CLK_OUT1,
    /// Signal 124.
    CLK_OUT2,
    /// Signal 125.
    CLK_OUT3,
    /// Signal 128.
    GPIO,
}

impl OutputSignal {
    /// The number of the signal in the GPIO matrix.
    pub open spec fn spec_number(self) -> u8 {
        match self {
            OutputSignal::SPIQ => 0,
            OutputSignal::SPID => 1,
            OutputSignal::SPIHD => 2,
            OutputSignal::SPIWP => 3,
            OutputSignal::SPICLK_MUX => 4,
            OutputSignal::SPICS0 => 5,
            OutputSignal::U0TXD => 6,
            OutputSignal::U0RTS => 7,
            OutputSignal::U0DTR => 8,
            OutputSignal::U1TXD => 9,
            OutputSignal::U1RTS => 10,
            OutputSignal::U1DTR => 11,
            OutputSignal::SPIQ_MONITOR => 15,
            OutputSignal::SPID_MONITOR => 16,
            OutputSignal::SPIHD_MONITOR => 17,
            OutputSignal::SPIWP_MONITOR => 18,
            OutputSignal::SPICS1 => 19,
            OutputSignal::CPU_GPIO_0 => 28,
            OutputSignal::CPU_GPIO_1 => 29,
            OutputSignal::CPU_GPIO_2 => 30,
            OutputSignal::CPU_GPIO_3 => 31,
            OutputSignal::CPU_GPIO_4 => 32,
            OutputSignal::CPU_GPIO_5 => 33,
            OutputSignal::CPU_GPIO_6 => 34,
            OutputSignal::CPU_GPIO_7 => 35,
            OutputSignal::LEDC_LS_SIG0 => 45,
            OutputSignal::LEDC_LS_SIG1 => 46,
            OutputSignal::LEDC_LS_SIG2 => 47,
            OutputSignal::LEDC_LS_SIG3 => 48,
            OutputSignal::LEDC_LS_SIG4 => 49,
            OutputSignal::LEDC_LS_SIG5 => 50,
            OutputSignal::RMT_SIG_0 => 51,
            OutputSignal::RMT_SIG_1 => 52,
            OutputSignal::I2CEXT0_SCL => 53,
            OutputSignal::I2CEXT0_SDA => 54,
            OutputSignal::FSPICLK_MUX => 63,
            OutputSignal::FSPIQ => 64,
            OutputSignal::FSPID => 65,
            OutputSignal::FSPIHD => 66,
            OutputSignal::FSPIWP => 67,
            OutputSignal::FSPICS0 => 68,
            OutputSignal::FSPICS1 => 69,
            OutputSignal::FSPICS3 => 70,
            OutputSignal::FSPICS2 => 71,
            OutputSignal::FSPICS4 => 72,
            OutputSignal::FSPICS5 => 73,
            OutputSignal::ANT_SEL0 => 89,
            OutputSignal::ANT_SEL1 => 90,
            OutputSignal::ANT_SEL2 => 91,
            OutputSignal::ANT_SEL3 => 92,
            OutputSignal::ANT_SEL4 => 93,
            OutputSignal::ANT_SEL5 => 94,
            OutputSignal::ANT_SEL6 => 95,
            OutputSignal::ANT_SEL7 => 96,
            OutputSignal::SIG_FUNC_97 => 97,
            OutputSignal::SIG_FUNC_98 => 98,
            OutputSignal::SIG_FUNC_99 => 99,
            OutputSignal::SIG_FUNC_100 => 100,
            OutputSignal::CLK_OUT1 => 123,
            OutputSignal::CLK_OUT2 => 124,
            OutputSignal::CLK_OUT3 => 125,
            OutputSignal::GPIO => 128,
        }
    }

    /// The number of the signal in the GPIO matrix.
    pub fn number(self) -> (number: u8)
        ensures
            number == self.spec_number(),
            number <= OUTPUT_SIGNAL_MAX,
    {
        match self {
            OutputSignal::SPIQ => 0,
            OutputSignal::SPID => 1,
            OutputSignal::SPIHD => 2,
            OutputSignal::SPIWP => 3,
            OutputSignal::SPICLK_MUX => 4,
            OutputSignal::SPICS0 => 5,
            OutputSignal::U0TXD => 6,
            OutputSignal::U0RTS => 7,
            OutputSignal::U0DTR => 8,
            OutputSignal::U1TXD => 9,
            OutputSignal::U1RTS => 10,
            OutputSignal::U1DTR => 11,
            OutputSignal::SPIQ_MONITOR => 15,
            OutputSignal::SPID_MONITOR => 16,
            OutputSignal::SPIHD_MONITOR => 17,
            OutputSignal::SPIWP_MONITOR => 18,
            OutputSignal::SPICS1 => 19,
            OutputSignal::CPU_GPIO_0 => 28,
            OutputSignal::CPU_GPIO_1 => 29,
            OutputSignal::CPU_GPIO_2 => 30,
            OutputSignal::CPU_GPIO_3 => 31,
            OutputSignal::CPU_GPIO_4 => 32,
            OutputSignal::CPU_GPIO_5 => 33,
            OutputSignal::CPU_GPIO_6 => 34,
            OutputSignal::CPU_GPIO_7 => 35,
            OutputSignal::LEDC_LS_SIG0 => 45,
            OutputSignal::LEDC_LS_SIG1 => 46,
            OutputSignal::LEDC_LS_SIG2 => 47,
            OutputSignal::LEDC_LS_SIG3 => 48,
            OutputSignal::LEDC_LS_SIG4 => 49,
            OutputSignal::LEDC_LS_SIG5 => 50,
            OutputSignal::RMT_SIG_0 => 51,
            OutputSignal::RMT_SIG_1 => 52,
            OutputSignal::I2CEXT0_SCL => 53,
            OutputSignal::I2CEXT0_SDA => 54,
            OutputSignal::FSPICLK_MUX => 63,
            OutputSignal::FSPIQ => 64,
            OutputSignal::FSPID => 65,
            OutputSignal::FSPIHD => 66,
            OutputSignal::FSPIWP => 67,
            OutputSignal::FSPICS0 => 68,
            OutputSignal::FSPICS1 => 69,
            OutputSignal::FSPICS3 => 70,
            OutputSignal::FSPICS2 => 71,
            OutputSignal::FSPICS4 => 72,
            OutputSignal::FSPICS5 => 73,
            OutputSignal::ANT_SEL0 => 89,
            OutputSignal::ANT_SEL1 => 90,
            OutputSignal::ANT_SEL2 => 91,
            OutputSignal::ANT_SEL3 => 92,
            OutputSignal::ANT_SEL4 => 93,
            OutputSignal::ANT_SEL5 => 94,
            OutputSignal::ANT_SEL6 => 95,
            OutputSignal::ANT_SEL7 => 96,
            OutputSignal::SIG_FUNC_97 => 97,
            OutputSignal::SIG_FUNC_98 => 98,
            OutputSignal::SIG_FUNC_99 => 99,
            OutputSignal::SIG_FUNC_100 => 100,
            OutputSignal::CLK_OUT1 => 123,
            OutputSignal::CLK_OUT2 => 124,
            OutputSignal::CLK_OUT3 => 125,
            OutputSignal::GPIO => 128,
        }
    }
}

/// The interrupt status registers of the GPIO peripheral.
#[derive(Debug, Clone, Copy, PartialEq, Eq, Structural)]
pub struct GpioRegisters {
    /// One bit for each pin whose interrupt is pending.
    pub pcpu_int: u32,
}

/// The banks of pins, each with an interrupt status register.
#[derive(Debug, Clone, Copy, PartialEq, Eq, Structural)]
pub enum InterruptStatusRegisterAccess {
    /// The one bank of this chip.
    Bank0,
}

impl InterruptStatusRegisterAccess {
    /// The pins of the bank whose interrupt is pending.
    pub fn interrupt_status_read(self, gpio: &GpioRegisters) -> (status: u32)
        ensures
            status == gpio.pcpu_int,
    {
        gpio.pcpu_int
    }
}

} // verus!
