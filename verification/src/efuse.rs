//! # Reading of eFuses
//!
//! What the calibration and boot logic reads from the eFuse fields of the
//! chip. The fields are held as plain values, each in the width it has in
//! the fuses.

use vstd::prelude::*;

verus! {

/// The attenuation of the analog to digital converter.
#[allow(non_camel_case_types)]
#[derive(Debug, Clone, Copy, PartialEq, Eq, Structural)]
pub enum Attenuation {
    /// 0 dB
    _0dB,
    /// 11 dB
    _11dB,
}

/// The eFuse fields that the driver reads.
#[derive(Debug, Clone, Copy, PartialEq, Eq, Structural)]
pub struct EfuseFields {
    /// Counts how often flash encryption was switched.
    pub spi_boot_crypt_cnt: u8,
    /// Selects the multiplier of the RWDT stage 0 timeout.
    pub wdt_delay_sel: u8,
    /// Major version of the block.
    pub blk_version_major: u8,
    /// Minor version of the block.
    pub blk_version_minor: u8,
    /// ADC1 initial code at 0 dB, as a distance from 2160 with a sign bit.
    pub adc1_init_code_atten0: u8,
    /// ADC1 initial code at 11 dB, as a distance from that at 0 dB.
    pub adc1_init_code_atten3: u8,
    /// ADC1 calibration code at 0 dB, as a distance from 1540 with a sign
    /// bit.
    pub adc1_cal_vol_atten0: u8,
    /// ADC1 calibration code at 11 dB, as a distance from that at 0 dB.
    pub adc1_cal_vol_atten3: u8,
}

/// The number of bits that are set in `value`.
pub open spec fn count_ones(value: u8) -> nat
    decreases value,
{
    if value == 0 {
        0
    } else {
        (value % 2) as nat + count_ones(value / 2)
    }
}

/// A value that is given as a distance from `base`: bit 7 of `diff` says
/// whether the lower seven bits are taken from `base` or added to it along
/// with the bit itself.
pub open spec fn signed_offset(base: u16, diff: u8) -> int {
    if diff >= 128 {
        base - (diff - 128)
    } else {
        base + diff
    }
}

/// The version of the RTC calibration that block version `major` stands
/// for.
pub open spec fn calib_version(major: u8) -> u8 {
    if major == 0 {
        1
    } else {
        0
    }
}

/// The ADC initial code.
pub open spec fn init_code(fields: EfuseFields, atten: Attenuation) -> int {
    let code0 = signed_offset(2160, fields.adc1_init_code_atten0);
    match atten {
        Attenuation::_0dB => code0,
        Attenuation::_11dB => code0 + fields.adc1_init_code_atten3,
    }
}

/// The ADC calibration code. At 11 dB it is the code at 0 dB, moved by the
/// distance in the fuses, down by its lower five bits if bit 5 of the
/// distance at 0 dB is set and up by all of it if not, less 123.
pub open spec fn cal_code(fields: EfuseFields, atten: Attenuation) -> int {
    let code0 = signed_offset(1540, fields.adc1_cal_vol_atten0);
    match atten {
        Attenuation::_0dB => code0,
        Attenuation::_11dB => (if fields.adc1_cal_vol_atten0 / 32 % 2 == 1 {
            code0 - fields.adc1_cal_vol_atten3 % 32
        } else {
            code0 + fields.adc1_cal_vol_atten3
        }) - 123,
    }
}

/// The eFuses of the chip.
pub struct Efuse {
    fields: EfuseFields,
}

impl View for Efuse {
    type V = EfuseFields;

    closed spec fn view(&self) -> EfuseFields {
        self.fields
    }
}

impl Efuse {
    /// The eFuses with the given fields.
    pub fn new(fields: EfuseFields) -> (efuse: Efuse)
        ensures
            efuse@ == fields,
    {
        Efuse { fields }
    }

    /// Get status of SPI boot encryption: it is on while an odd number of
    /// bits of the counter is set.
    pub fn flash_encryption(&self) -> (enabled: bool)
        ensures
            enabled == (count_ones(self@.spi_boot_crypt_cnt) % 2 == 1),
    {
        let mut rest: u8 = self.fields.spi_boot_crypt_cnt;
        let mut odd: bool = false;
        while rest != 0
            invariant
                odd == ((count_ones(self.fields.spi_boot_crypt_cnt) - count_ones(rest)) % 2 == 1),
                count_ones(rest) <= count_ones(self.fields.spi_boot_crypt_cnt),
            decreases rest,
        {
            if rest % 2 == 1 {
                odd = !odd;
            }
            rest = rest / 2;
        }
        odd
    }

    /// Get the multiplier for the timeout value of the RWDT STAGE 0 register.
    pub fn rwdt_multiplier(&self) -> (multiplier: u8)
        ensures
            multiplier == self@.wdt_delay_sel,
    {
        self.fields.wdt_delay_sel
    }

    /// Get efuse block version
    pub fn block_version(&self) -> (version: (u8, u8))
        ensures
            version == (self@.blk_version_major, self@.blk_version_minor),
    {
        (self.fields.blk_version_major, self.fields.blk_version_minor)
    }

    /// Get version of RTC calibration block
    pub fn rtc_calib_version(&self) -> (version: u8)
        ensures
            version == calib_version(self@.blk_version_major),
    {
        let (major, _minor) = self.block_version();
        if major == 0 {
            1
        } else {
            0
        }
    }

    /// Get ADC initial code for specified attenuation from efuse
    pub fn rtc_calib_init_code(&self, _unit: u8, atten: Attenuation) -> (code: Option<u16>)
        ensures
            calib_version(self@.blk_version_major) == 1 <==> code is Some,
            code matches Some(c) ==> c == init_code(self@, atten),
    {
        let version = self.rtc_calib_version();

        if version != 1 {
            return None;
        }

        let diff_code0: u16 = self.fields.adc1_init_code_atten0 as u16;
        assert((diff_code0 & 0x80 != 0 <==> diff_code0 >= 128) && diff_code0 & 0x7f == diff_code0
            % 128) by (bit_vector)
            requires
                diff_code0 < 256,
        ;
        let code0: u16 = if diff_code0 & 0x80 != 0 {
            2160 - (diff_code0 & 0x7f)
        } else {
            2160 + diff_code0
        };

        if matches!(atten, Attenuation::_0dB) {
            return Some(code0);
        }

        let diff_code11: u16 = self.fields.adc1_init_code_atten3 as u16;
        let code11: u16 = code0 + diff_code11;

        Some(code11)
    }

    /// Get ADC reference point voltage for specified attenuation in millivolts
    pub fn rtc_calib_cal_mv(&self, _unit: u8, atten: Attenuation) -> (mv: u16)
        ensures
            mv == (match atten {
                Attenuation::_0dB => 400u16,
                Attenuation::_11dB => 1370u16,
            }),
    {
        match atten {
            Attenuation::_0dB => 400,
            Attenuation::_11dB => 1370,
        }
    }

    /// Get ADC reference point digital code for specified attenuation
    pub fn rtc_calib_cal_code(&self, _unit: u8, atten: Attenuation) -> (code: Option<u16>)
        ensures
            calib_version(self@.blk_version_major) == 1 <==> code is Some,
            code matches Some(c) ==> c == cal_code(self@, atten),
    {
        let version = self.rtc_calib_version();

        if version != 1 {
            return None;
        }

        let diff_code0: u16 = self.fields.adc1_cal_vol_atten0 as u16;
        let diff_code11: u16 = self.fields.adc1_cal_vol_atten3 as u16;
        assert((diff_code0 & 0x80 != 0 <==> diff_code0 >= 128) && diff_code0 & 0x7f == diff_code0
            % 128 && (diff_code0 & 0x20 != 0 <==> diff_code0 / 32 % 2 == 1) && diff_code11 & 0x1f
            == diff_code11 % 32) by (bit_vector)
            requires
                diff_code0 < 256,
        ;
        let code0: u16 = if diff_code0 & 0x80 != 0 {
            1540 - (diff_code0 & 0x7f)
        } else {
            1540 + diff_code0
        };

        if matches!(atten, Attenuation::_0dB) {
            return Some(code0);
        }

        let code11: u16 = (if diff_code0 & 0x20 != 0 {
            code0 - (diff_code11 & 0x1f)
        } else {
            code0 + diff_code11
        }) - 123;

        Some(code11)
    }
}

/// The address of the eFuse controller.
pub const EFUSE_BASE: usize = 0x6000_8800;

/// The blocks of eFuses.
#[derive(Debug, Clone, Copy, PartialEq, Eq, Structural)]
pub enum EfuseBlock {
    /// Block 0
    Block0,
    /// Block 1
    Block1,
    /// Block 2
    Block2,
    /// Block 3
    Block3,
}

impl EfuseBlock {
    /// The block with the given number, if there is one.
    pub fn from_repr(discriminant: u32) -> (block: Option<EfuseBlock>)
        ensures
            block == (if discriminant == 0 {
                Some(EfuseBlock::Block0)
            } else if discriminant == 1 {
                Some(EfuseBlock::Block1)
            } else if discriminant == 2 {
                Some(EfuseBlock::Block2)
            } else if discriminant == 3 {
                Some(EfuseBlock::Block3)
            } else {
                None
            }),
    {
        match discriminant {
            0 => Some(EfuseBlock::Block0),
            1 => Some(EfuseBlock::Block1),
            2 => Some(EfuseBlock::Block2),
            3 => Some(EfuseBlock::Block3),
            _ => None,
        }
    }

    /// The address of the first read register of the block.
    pub fn address(self) -> (address: usize)
        ensures
            address == EFUSE_BASE + (match self {
                EfuseBlock::Block0 => 0x2c,
                EfuseBlock::Block1 => 0x34,
                EfuseBlock::Block2 => 0x40,
                EfuseBlock::Block3 => 0x60int,
            }),
    {
        match self {
            EfuseBlock::Block0 => EFUSE_BASE + 0x2c,
            EfuseBlock::Block1 => EFUSE_BASE + 0x34,
            EfuseBlock::Block2 => EFUSE_BASE + 0x40,
            EfuseBlock::Block3 => EFUSE_BASE + 0x60,
        }
    }
}

} // verus!
