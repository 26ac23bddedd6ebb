//! # RTC control: start-up of the power and clock domains, and why the
//! chip was reset
//!
//! The start-up code works on the registers of the low-power controller
//! and of its neighbours as plain values, one per field that it touches.

use vstd::prelude::*;

verus! {

/// The fields of the low-power controller that the start-up code touches.
#[derive(Debug, Clone, Copy, PartialEq, Eq, Structural)]
pub struct Lpwr {
    /// The bit `pvtmon_pu`.
    pub pvtmon_pu: bool,
    /// The bit `plla_force_pu`.
    pub plla_force_pu: bool,
    /// The bit `plla_force_pd`.
    pub plla_force_pd: bool,
    /// The bit `reset_por_force_pd`.
    pub reset_por_force_pd: bool,
    /// The bit `enb_ck8m`.
    pub enb_ck8m: bool,
    /// The bit `ck8m_force_pu`.
    pub ck8m_force_pu: bool,
    /// The bit `xtl_force_pu`.
    pub xtl_force_pu: bool,
    /// The bit `bbpll_force_pu`.
    pub bbpll_force_pu: bool,
    /// The bit `bbpll_i2c_force_pu`.
    pub bbpll_i2c_force_pu: bool,
    /// The bit `bb_i2c_force_pu`.
    pub bb_i2c_force_pu: bool,
    /// The bit `regulator_force_pu`.
    pub regulator_force_pu: bool,
    /// The bit `dboost_force_pu`.
    pub dboost_force_pu: bool,
    /// The bit `dboost_force_pd`.
    pub dboost_force_pd: bool,
    /// The bit `dg_wrap_force_pu`.
    pub dg_wrap_force_pu: bool,
    /// The bit `wifi_force_pu`.
    pub wifi_force_pu: bool,
    /// The bit `bt_force_pu`.
    pub bt_force_pu: bool,
    /// The bit `cpu_top_force_pu`.
    pub cpu_top_force_pu: bool,
    /// The bit `dg_peri_force_pu`.
    pub dg_peri_force_pu: bool,
    /// The bit `lslp_mem_force_pu`.
    pub lslp_mem_force_pu: bool,
    /// The bit `fastmem_force_lpu`.
    pub fastmem_force_lpu: bool,
    /// The bit `dg_wrap_force_noiso`.
    pub dg_wrap_force_noiso: bool,
    /// The bit `wifi_force_noiso`.
    pub wifi_force_noiso: bool,
    /// The bit `bt_force_noiso`.
    pub bt_force_noiso: bool,
    /// The bit `cpu_top_force_noiso`.
    pub cpu_top_force_noiso: bool,
    /// The bit `dg_peri_force_noiso`.
    pub dg_peri_force_noiso: bool,
    /// The bit `dg_pad_force_unhold`.
    pub dg_pad_force_unhold: bool,
    /// The bit `dg_pad_force_noiso`.
    pub dg_pad_force_noiso: bool,
    /// The field `pll_buf_wait`.
    pub pll_buf_wait: u8,
    /// The field `ck8m_wait`.
    pub ck8m_wait: u8,
    /// The field `min_slp_val`.
    pub min_slp_val: u8,
    /// The field `wifi_powerup_timer`.
    pub wifi_powerup_timer: u8,
    /// The field `bt_powerup_timer`.
    pub bt_powerup_timer: u8,
    /// The field `cpu_top_powerup_timer`.
    pub cpu_top_powerup_timer: u8,
    /// The field `dg_wrap_powerup_timer`.
    pub dg_wrap_powerup_timer: u8,
    /// The field `dg_peri_powerup_timer`.
    pub dg_peri_powerup_timer: u8,
    /// The field `wifi_wait_timer`.
    pub wifi_wait_timer: u16,
    /// The field `bt_wait_timer`.
    pub bt_wait_timer: u16,
    /// The field `cpu_top_wait_timer`.
    pub cpu_top_wait_timer: u16,
    /// The field `dg_wrap_wait_timer`.
    pub dg_wrap_wait_timer: u16,
    /// The field `dg_peri_wait_timer`.
    pub dg_peri_wait_timer: u16,
    /// The register `int_ena`.
    pub int_ena: u32,
    /// The register `int_clr`.
    pub int_clr: u32,
    /// The register `store1`.
    pub store1: u32,
}

/// The fields of the cache controller that the start-up code touches.
#[derive(Debug, Clone, Copy, PartialEq, Eq, Structural)]
pub struct Extmem {
    /// Forces the memory of the cache MMU on.
    pub cache_mmu_mem_force_on: bool,
    /// Forces the tag memory of the instruction cache on.
    pub icache_tag_mem_force_on: bool,
}

/// The clock gate of a flash controller.
#[derive(Debug, Clone, Copy, PartialEq, Eq, Structural)]
pub struct SpiMem {
    /// Forces the register clock on.
    pub clk_en: bool,
}

/// The fields of the system registers that the start-up code touches.
#[derive(Debug, Clone, Copy, PartialEq, Eq, Structural)]
pub struct System {
    /// Keeps the memories from powering down in light sleep.
    pub lslp_mem_pd_mask: bool,
    /// Keeps the CPU clock on while the CPU waits.
    pub cpu_wait_mode_force_on: bool,
}

/// The fields of the APB controller that the start-up code touches.
#[derive(Debug, Clone, Copy, PartialEq, Eq, Structural)]
pub struct ApbCtrl {
    /// Forces the DC memory up.
    pub dc_mem_force_pu: bool,
    /// Forces the PBUS memory up.
    pub pbus_mem_force_pu: bool,
    /// Forces the AGC memory up.
    pub agc_mem_force_pu: bool,
    /// The RAM blocks that stay powered.
    pub sram_power_up: u8,
    /// The ROM blocks that stay powered.
    pub rom_power_up: u8,
}

/// The fields of the internal analog bus that the start-up code touches.
#[derive(Debug, Clone, Copy, PartialEq, Eq, Structural)]
pub struct Regi2c {
    /// Powers the digital regulator.
    pub xpd_dig_reg: u8,
    /// Powers the RTC regulator.
    pub xpd_rtc_reg: u8,
    /// Forces the ULP clock on.
    pub ulp_ir_force_xpd_ck: u8,
}

/// The registers that the start-up code works on.
#[derive(Debug, Clone, Copy, PartialEq, Eq, Structural)]
pub struct Soc {
    /// The low-power controller.
    pub lpwr: Lpwr,
    /// The cache controller.
    pub extmem: Extmem,
    /// The first flash controller.
    pub spi0: SpiMem,
    /// The second flash controller.
    pub spi1: SpiMem,
    /// The system registers.
    pub system: System,
    /// The APB controller.
    pub apb_ctrl: ApbCtrl,
    /// The internal analog bus.
    pub regi2c: Regi2c,
}

impl Soc {
    /// The registers after the memories were released from forced power
    /// for sleep.
    pub open spec fn after_rtc_sleep_pu(self) -> Soc {
        Soc {
            lpwr: Lpwr { lslp_mem_force_pu: false, fastmem_force_lpu: false, ..self.lpwr },
            apb_ctrl: ApbCtrl {
                dc_mem_force_pu: false,
                pbus_mem_force_pu: false,
                agc_mem_force_pu: false,
                sram_power_up: 0,
                rom_power_up: 0,
            },
            ..self
        }
    }

    /// The registers after the clock control was initialised: no clock of
    /// the cache or of the flash controllers is forced on.
    pub open spec fn after_clock_control_init(self) -> Soc {
        Soc {
            extmem: Extmem { cache_mmu_mem_force_on: false, icache_tag_mem_force_on: false },
            spi0: SpiMem { clk_en: false },
            spi1: SpiMem { clk_en: false },
            ..self
        }
    }

    /// The registers after the power control was initialised: nothing is
    /// forced up and no isolation is forced off, the audio PLL and the
    /// booster are forced down.
    pub open spec fn after_power_control_init(self) -> Soc {
        let s = self.after_rtc_sleep_pu();
        Soc {
            lpwr: Lpwr {
                ck8m_force_pu: false,
                xtl_force_pu: false,
                plla_force_pu: false,
                plla_force_pd: true,
                reset_por_force_pd: false,
                bbpll_force_pu: false,
                bbpll_i2c_force_pu: false,
                bb_i2c_force_pu: false,
                regulator_force_pu: false,
                dboost_force_pu: false,
                dboost_force_pd: true,
                dg_wrap_force_pu: false,
                wifi_force_pu: false,
                bt_force_pu: false,
                cpu_top_force_pu: false,
                dg_peri_force_pu: false,
                dg_wrap_force_noiso: false,
                wifi_force_noiso: false,
                bt_force_noiso: false,
                cpu_top_force_noiso: false,
                dg_peri_force_noiso: false,
                dg_pad_force_unhold: false,
                dg_pad_force_noiso: false,
                ..s.lpwr
            },
            system: System { lslp_mem_pd_mask: false, cpu_wait_mode_force_on: false },
            ..s
        }
    }

    /// The registers after the start-up of the RTC domain.
    pub open spec fn after_init(self) -> Soc {
        let s = (Soc {
            regi2c: Regi2c { xpd_dig_reg: 0, xpd_rtc_reg: 0, ..self.regi2c },
            lpwr: Lpwr {
                pvtmon_pu: false,
                pll_buf_wait: 20,
                ck8m_wait: 20,
                min_slp_val: 2,
                wifi_powerup_timer: 1,
                wifi_wait_timer: 1,
                bt_powerup_timer: 1,
                bt_wait_timer: 1,
                cpu_top_powerup_timer: 1,
                cpu_top_wait_timer: 1,
                dg_wrap_powerup_timer: 1,
                dg_wrap_wait_timer: 1,
                dg_peri_powerup_timer: 1,
                dg_peri_wait_timer: 1,
                ..self.lpwr
            },
            ..self
        }).after_clock_control_init().after_power_control_init();
        Soc {
            lpwr: Lpwr { int_ena: 0, int_clr: u32::MAX, ..s.lpwr },
            regi2c: Regi2c { ulp_ir_force_xpd_ck: 0, ..s.regi2c },
            ..s
        }
    }

    /// The registers after the clocks were configured with the calibration
    /// value `cal_val` of the slow clock.
    pub open spec fn after_configure_clock(self, cal_val: u32) -> Soc {
        Soc { lpwr: Lpwr { enb_ck8m: false, ck8m_wait: 5, store1: cal_val, ..self.lpwr }, ..self }
    }
}

/// Starts the RTC domain up.
pub fn init(soc: &mut Soc)
    ensures
        *final(soc) == old(soc).after_init(),
{
    soc.regi2c = Regi2c { xpd_dig_reg: 0, xpd_rtc_reg: 0, ..soc.regi2c };

    // Set default powerup & wait time
    soc.lpwr = Lpwr {
        pvtmon_pu: false,
        pll_buf_wait: 20u8,
        ck8m_wait: 20u8,
        min_slp_val: 2u8,
        wifi_powerup_timer: 1u8,
        wifi_wait_timer: 1u16,
        bt_powerup_timer: 1u8,
        bt_wait_timer: 1u16,
        cpu_top_powerup_timer: 1u8,
        cpu_top_wait_timer: 1u16,
        dg_wrap_powerup_timer: 1u8,
        dg_wrap_wait_timer: 1u16,
        dg_peri_powerup_timer: 1u8,
        dg_peri_wait_timer: 1u16,
        ..soc.lpwr
    };

    calibrate_ocode();

    set_rtc_dig_dbias();

    clock_control_init(soc);

    power_control_init(soc);

    soc.lpwr = Lpwr { int_ena: 0, int_clr: u32::MAX, ..soc.lpwr };

    soc.regi2c = Regi2c { ulp_ir_force_xpd_ck: 0, ..soc.regi2c };
}

/// What the clock configuration writes, before and after the slow clock was
/// calibrated to `cal_val`: the fast RC clock is enabled with a wait of 5,
/// and the calibration value is kept for later.
pub fn configure_clock(soc: &mut Soc, cal_val: u32)
    requires
        cal_val != 0,
    ensures
        *final(soc) == old(soc).after_configure_clock(cal_val),
{
    // the fast RC clock is enabled before the calibration, the value is
    // stored after it
    soc.lpwr = Lpwr { enb_ck8m: false, ck8m_wait: 5, store1: cal_val, ..soc.lpwr };
}

/// Nothing to calibrate on this chip.
pub fn calibrate_ocode() {
}

/// Nothing to set on this chip.
pub fn set_rtc_dig_dbias() {
}

/// Perform clock control related initialization
pub fn clock_control_init(soc: &mut Soc)
    ensures
        *final(soc) == old(soc).after_clock_control_init(),
{
    // Clear CMMU clock force on, clear tag clock force on
    soc.extmem = Extmem { cache_mmu_mem_force_on: false, icache_tag_mem_force_on: false };

    // Clear register clock force on
    soc.spi0 = SpiMem { clk_en: false };
    soc.spi1 = SpiMem { clk_en: false };
}

/// Perform power control related initialization
pub fn power_control_init(soc: &mut Soc)
    ensures
        *final(soc) == old(soc).after_power_control_init(),
{
    soc.lpwr = Lpwr {
        ck8m_force_pu: false,
        xtl_force_pu: false,
        plla_force_pu: false,
        plla_force_pd: true,
        reset_por_force_pd: false,
        bbpll_force_pu: false,
        bbpll_i2c_force_pu: false,
        bb_i2c_force_pu: false,
        regulator_force_pu: false,
        dboost_force_pu: false,
        dboost_force_pd: true,
        ..soc.lpwr
    };

    // If this mask is enabled, all soc memories cannot enter power down mode.
    // We should control soc memory power down mode from RTC,
    // so we will not touch this register any more.
    soc.system = System { lslp_mem_pd_mask: false, ..soc.system };

    rtc_sleep_pu(soc);

    soc.lpwr = Lpwr {
        dg_wrap_force_pu: false,
        wifi_force_pu: false,
        bt_force_pu: false,
        cpu_top_force_pu: false,
        dg_peri_force_pu: false,
        dg_wrap_force_noiso: false,
        wifi_force_noiso: false,
        bt_force_noiso: false,
        cpu_top_force_noiso: false,
        dg_peri_force_noiso: false,
        ..soc.lpwr
    };

    // If the CPU wait mode is not forced on, the CPU clock will be closed
    // when CPU enter WAITI mode.
    soc.system = System { cpu_wait_mode_force_on: false, ..soc.system };

    // Cancel digital PADS force no iso
    soc.lpwr = Lpwr { dg_pad_force_unhold: false, dg_pad_force_noiso: false, ..soc.lpwr };
}

/// Configure whether certain peripherals are powered down in deep sleep
pub fn rtc_sleep_pu(soc: &mut Soc)
    ensures
        *final(soc) == old(soc).after_rtc_sleep_pu(),
{
    soc.lpwr = Lpwr { lslp_mem_force_pu: false, fastmem_force_lpu: false, ..soc.lpwr };

    soc.apb_ctrl = ApbCtrl {
        dc_mem_force_pu: false,
        pbus_mem_force_pu: false,
        agc_mem_force_pu: false,
        sram_power_up: 0u8,
        rom_power_up: 0u8,
    };
}

// Terminology:
//
// CPU Reset:    Reset CPU core only, once reset done, CPU will execute from
//               reset vector
// Core Reset:   Reset the whole digital system except RTC sub-system
// System Reset: Reset the whole digital system, including RTC sub-system
// Chip Reset:   Reset the whole chip, including the analog part
/// SOC Reset Reason.
#[derive(Debug, Clone, Copy, PartialEq, Eq, Structural)]
pub enum SocResetReason {
    /// Power on reset
    ChipPowerOn,
    /// Software resets the digital core by RTC_CNTL_SW_SYS_RST
    CoreSw,
    /// Deep sleep reset the digital core
    CoreDeepSleep,
    /// Main watch dog 0 resets digital core
    CoreMwdt0,
    /// Main watch dog 1 resets digital core
    CoreMwdt1,
    /// RTC watch dog resets digital core
    CoreRtcWdt,
    /// Main watch dog 0 resets CPU 0
    Cpu0Mwdt0,
    /// Software resets CPU 0 by RTC_CNTL_SW_PROCPU_RST
    Cpu0Sw,
    /// RTC watch dog resets CPU 0
    Cpu0RtcWdt,
    /// VDD voltage is not stable and resets the digital core
    SysBrownOut,
    /// RTC watch dog resets digital core and rtc module
    SysRtcWdt,
    /// Main watch dog 1 resets CPU 0
    Cpu0Mwdt1,
    /// Super watch dog resets the digital core and rtc module
    SysSuperWdt,
    /// Glitch on clock resets the digital core and rtc module
    SysClkGlitch,
    /// eFuse CRC error resets the digital core
    CoreEfuseCrc,
    /// USB UART resets the digital core
    CoreUsbUart,
    /// USB JTAG resets the digital core
    CoreUsbJtag,
    /// Glitch on power resets the digital core
    CorePwrGlitch,
}

impl SocResetReason {
    /// The number that the reset cause register holds for the reason.
    pub open spec fn spec_repr(self) -> usize {
        match self {
            SocResetReason::ChipPowerOn => 0x1,
            SocResetReason::CoreSw => 0x3,
            SocResetReason::CoreDeepSleep => 0x5,
            SocResetReason::CoreMwdt0 => 0x7,
            SocResetReason::CoreMwdt1 => 0x8,
            SocResetReason::CoreRtcWdt => 0x9,
            SocResetReason::Cpu0Mwdt0 => 0xb,
            SocResetReason::Cpu0Sw => 0xc,
            SocResetReason::Cpu0RtcWdt => 0xd,
            SocResetReason::SysBrownOut => 0xf,
            SocResetReason::SysRtcWdt => 0x10,
            SocResetReason::Cpu0Mwdt1 => 0x11,
            SocResetReason::SysSuperWdt => 0x12,
            SocResetReason::SysClkGlitch => 0x13,
            SocResetReason::CoreEfuseCrc => 0x14,
            SocResetReason::CoreUsbUart => 0x15,
            SocResetReason::CoreUsbJtag => 0x16,
            SocResetReason::CorePwrGlitch => 0x17,
        }
    }

    /// The reason that `discriminant` stands for, if it stands for one.
    pub open spec fn spec_from_repr(discriminant: usize) -> Option<SocResetReason> {
        if discriminant == 0x1 {
            Some(SocResetReason::ChipPowerOn)
        } else if discriminant == 0x3 {
            Some(SocResetReason::CoreSw)
        } else if discriminant == 0x5 {
            Some(SocResetReason::CoreDeepSleep)
        } else if discriminant == 0x7 {
            Some(SocResetReason::CoreMwdt0)
        } else if discriminant == 0x8 {
            Some(SocResetReason::CoreMwdt1)
        } else if discriminant == 0x9 {
            Some(SocResetReason::CoreRtcWdt)
        } else if discriminant == 0xb {
            Some(SocResetReason::Cpu0Mwdt0)
        } else if discriminant == 0xc {
            Some(SocResetReason::Cpu0Sw)
        } else if discriminant == 0xd {
            Some(SocResetReason::Cpu0RtcWdt)
        } else if discriminant == 0xf {
            Some(SocResetReason::SysBrownOut)
        } else if discriminant == 0x10 {
            Some(SocResetReason::SysRtcWdt)
        } else if discriminant == 0x11 {
            Some(SocResetReason::Cpu0Mwdt1)
        } else if discriminant == 0x12 {
            Some(SocResetReason::SysSuperWdt)
        } else if discriminant == 0x13 {
            Some(SocResetReason::SysClkGlitch)
        } else if discriminant == 0x14 {
            Some(SocResetReason::CoreEfuseCrc)
        } else if discriminant == 0x15 {
            Some(SocResetReason::CoreUsbUart)
        } else if discriminant == 0x16 {
            Some(SocResetReason::CoreUsbJtag)
        } else if discriminant == 0x17 {
            Some(SocResetReason::CorePwrGlitch)
        } else {
            None
        }
    }

    /// The number that the reset cause register holds for the reason.
    pub fn repr(self) -> (value: usize)
        ensures
            value == self.spec_repr(),
            SocResetReason::spec_from_repr(value) == Some(self),
    {
        match self {
            SocResetReason::ChipPowerOn => 0x1,
            SocResetReason::CoreSw => 0x3,
            SocResetReason::CoreDeepSleep => 0x5,
            SocResetReason::CoreMwdt0 => 0x7,
            SocResetReason::CoreMwdt1 => 0x8,
            SocResetReason::CoreRtcWdt => 0x9,
            SocResetReason::Cpu0Mwdt0 => 0xb,
            SocResetReason::Cpu0Sw => 0xc,
            SocResetReason::Cpu0RtcWdt => 0xd,
            SocResetReason::SysBrownOut => 0xf,
            SocResetReason::SysRtcWdt => 0x10,
            SocResetReason::Cpu0Mwdt1 => 0x11,
            SocResetReason::SysSuperWdt => 0x12,
            SocResetReason::SysClkGlitch => 0x13,
            SocResetReason::CoreEfuseCrc => 0x14,
            SocResetReason::CoreUsbUart => 0x15,
            SocResetReason::CoreUsbJtag => 0x16,
            SocResetReason::CorePwrGlitch => 0x17,
        }
    }

    /// The reason that `discriminant` stands for, if it stands for one.
    pub fn from_repr(discriminant: usize) -> (reason: Option<SocResetReason>)
        ensures
            reason == SocResetReason::spec_from_repr(discriminant),
            reason matches Some(r) ==> r.spec_repr() == discriminant,
    {
        match discriminant {
            0x1 => Some(SocResetReason::ChipPowerOn),
            0x3 => Some(SocResetReason::CoreSw),
            0x5 => Some(SocResetReason::CoreDeepSleep),
            0x7 => Some(SocResetReason::CoreMwdt0),
            0x8 => Some(SocResetReason::CoreMwdt1),
            0x9 => Some(SocResetReason::CoreRtcWdt),
            0xb => Some(SocResetReason::Cpu0Mwdt0),
            0xc => Some(SocResetReason::Cpu0Sw),
            0xd => Some(SocResetReason::Cpu0RtcWdt),
            0xf => Some(SocResetReason::SysBrownOut),
            0x10 => Some(SocResetReason::SysRtcWdt),
            0x11 => Some(SocResetReason::Cpu0Mwdt1),
            0x12 => Some(SocResetReason::SysSuperWdt),
            0x13 => Some(SocResetReason::SysClkGlitch),
            0x14 => Some(SocResetReason::CoreEfuseCrc),
            0x15 => Some(SocResetReason::CoreUsbUart),
            0x16 => Some(SocResetReason::CoreUsbJtag),
            0x17 => Some(SocResetReason::CorePwrGlitch),
            _ => None,
        }
    }
}

} // verus!
