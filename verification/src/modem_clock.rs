//! The clocks of the modem: which of them each radio needs.
//!
//! The functions work on the clock enable registers of the modem as plain
//! values, one per field that they touch.

use vstd::prelude::*;

verus! {

/// The clock enable bits of the modem system controller for the radios'
/// digital parts.
#[derive(Debug, Clone, Copy, PartialEq, Eq, Structural)]
pub struct ClkConf {
    /// The bit `clk_etm_en`.
    pub clk_etm_en: bool,
    /// The bit `clk_zb_apb_en`.
    pub clk_zb_apb_en: bool,
    /// The bit `clk_zbmac_en`.
    pub clk_zbmac_en: bool,
    /// The bit `clk_modem_sec_en`.
    pub clk_modem_sec_en: bool,
    /// The bit `clk_modem_sec_ecb_en`.
    pub clk_modem_sec_ecb_en: bool,
    /// The bit `clk_modem_sec_ccm_en`.
    pub clk_modem_sec_ccm_en: bool,
    /// The bit `clk_modem_sec_bah_en`.
    pub clk_modem_sec_bah_en: bool,
    /// The bit `clk_modem_sec_apb_en`.
    pub clk_modem_sec_apb_en: bool,
    /// The bit `clk_ble_timer_en`.
    pub clk_ble_timer_en: bool,
}

/// The clock enable bits of the modem system controller for the Wi-Fi and
/// Bluetooth base bands and the front end.
#[derive(Debug, Clone, Copy, PartialEq, Eq, Structural)]
pub struct ClkConf1 {
    /// The bit `clk_wifi_apb_en`.
    pub clk_wifi_apb_en: bool,
    /// The bit `clk_wifibb_22m_en`.
    pub clk_wifibb_22m_en: bool,
    /// The bit `clk_wifibb_44m_en`.
    pub clk_wifibb_44m_en: bool,
    /// The bit `clk_wifimac_en`.
    pub clk_wifimac_en: bool,
    /// The bit `clk_fe_apb_en`.
    pub clk_fe_apb_en: bool,
    /// The bit `clk_fe_20m_en`.
    pub clk_fe_20m_en: bool,
    /// The bit `clk_fe_40m_en`.
    pub clk_fe_40m_en: bool,
    /// The bit `clk_fe_80m_en`.
    pub clk_fe_80m_en: bool,
    /// The bit `clk_fe_160m_en`.
    pub clk_fe_160m_en: bool,
    /// The bit `clk_fe_dac_en`.
    pub clk_fe_dac_en: bool,
    /// The bit `clk_fe_pwdet_adc_en`.
    pub clk_fe_pwdet_adc_en: bool,
    /// The bit `clk_fe_adc_en`.
    pub clk_fe_adc_en: bool,
    /// The bit `clk_bt_apb_en`.
    pub clk_bt_apb_en: bool,
    /// The bit `clk_btbb_en`.
    pub clk_btbb_en: bool,
    /// The bit `clk_btmac_en`.
    pub clk_btmac_en: bool,
    /// The bit `clk_wifibb_40m_en`.
    pub clk_wifibb_40m_en: bool,
    /// The bit `clk_wifibb_80m_en`.
    pub clk_wifibb_80m_en: bool,
    /// The bit `clk_wifibb_40x_en`.
    pub clk_wifibb_40x_en: bool,
    /// The bit `clk_wifibb_80x_en`.
    pub clk_wifibb_80x_en: bool,
    /// The bit `clk_wifibb_40x1_en`.
    pub clk_wifibb_40x1_en: bool,
    /// The bit `clk_wifibb_80x1_en`.
    pub clk_wifibb_80x1_en: bool,
    /// The bit `clk_wifibb_160x1_en`.
    pub clk_wifibb_160x1_en: bool,
}

/// The power states in which the clocks of the modem system controller
/// run, one map of four bits for each clock.
#[derive(Debug, Clone, Copy, PartialEq, Eq, Structural)]
pub struct ClkConfPowerSt {
    /// The map of the APB clock of the modem.
    pub clk_modem_apb_st_map: u8,
    /// The map of the clock of the modem peripherals.
    pub clk_modem_peri_st_map: u8,
    /// The map of the Wi-Fi clock.
    pub clk_wifi_st_map: u8,
    /// The map of the Bluetooth clock.
    pub clk_bt_st_map: u8,
    /// The map of the clock of the front end.
    pub clk_fe_st_map: u8,
    /// The map of the IEEE 802.15.4 clock.
    pub clk_zb_st_map: u8,
}

/// The power states in which the clocks of the modem low-power controller
/// run, one map of four bits for each clock.
#[derive(Debug, Clone, Copy, PartialEq, Eq, Structural)]
pub struct LpClkConfPowerSt {
    /// The map of the low-power APB clock.
    pub clk_lp_apb_st_map: u8,
    /// The map of the clock of the I2C master.
    pub clk_i2c_mst_st_map: u8,
    /// The map of the clock of the coexistence module.
    pub clk_coex_st_map: u8,
    /// The map of the clock of the Wi-Fi power module.
    pub clk_wifipwr_st_map: u8,
}

/// The clock enable bits of the modem low-power controller.
#[derive(Debug, Clone, Copy, PartialEq, Eq, Structural)]
pub struct LpClkConf {
    /// The clock of the coexistence module.
    pub clk_coex_en: bool,
    /// The clock of the I2C master.
    pub clk_i2c_mst_en: bool,
    /// The clock of the Wi-Fi power module.
    pub clk_wifipwr_en: bool,
}

/// The clock registers of the modem.
#[derive(Debug, Clone, Copy, PartialEq, Eq, Structural)]
pub struct ModemClocks {
    /// `clk_conf` of the system controller.
    pub clk_conf: ClkConf,
    /// `clk_conf1` of the system controller.
    pub clk_conf1: ClkConf1,
    /// `clk_conf` of the low-power controller.
    pub lp_clk_conf: LpClkConf,
    /// `clk_conf_power_st` of the system controller.
    pub clk_conf_power_st: ClkConfPowerSt,
    /// `clk_conf_power_st` of the low-power controller.
    pub lp_clk_conf_power_st: LpClkConfPowerSt,
}

impl ModemClocks {
    /// The registers with the clocks of the radio front end switched to
    /// `en`: the clocks run in the power states that the radio needs, the
    /// Wi-Fi base band clocks that are set by number are on whatever `en`
    /// says, and the clocks of the front end follow `en`.
    pub open spec fn with_phy(self, en: bool) -> ModemClocks {
        ModemClocks {
            clk_conf_power_st: ClkConfPowerSt {
                clk_modem_apb_st_map: 6,
                clk_modem_peri_st_map: 4,
                clk_wifi_st_map: 6,
                clk_bt_st_map: 4,
                clk_fe_st_map: 6,
                clk_zb_st_map: 4,
            },
            lp_clk_conf_power_st: LpClkConfPowerSt {
                clk_lp_apb_st_map: 6,
                clk_i2c_mst_st_map: 6,
                clk_coex_st_map: 6,
                clk_wifipwr_st_map: 6,
            },
            lp_clk_conf: LpClkConf { clk_coex_en: en, ..self.lp_clk_conf },
            clk_conf1: ClkConf1 {
                clk_wifi_apb_en: en,
                clk_wifibb_44m_en: en,
                clk_wifimac_en: en,
                clk_fe_40m_en: en,
                clk_wifibb_22m_en: true,
                clk_wifibb_40m_en: true,
                clk_wifibb_80m_en: true,
                clk_wifibb_40x_en: true,
                clk_wifibb_80x_en: true,
                clk_wifibb_40x1_en: true,
                clk_wifibb_80x1_en: true,
                clk_wifibb_160x1_en: true,
                clk_fe_apb_en: en,
                clk_fe_80m_en: en,
                clk_fe_160m_en: en,
                clk_fe_dac_en: en,
                clk_fe_pwdet_adc_en: en,
                clk_fe_adc_en: en,
                ..self.clk_conf1
            },
            ..self
        }
    }

    /// The registers with the clocks of Wi-Fi switched to `en`.
    pub open spec fn with_wifi(self, en: bool) -> ModemClocks {
        ModemClocks { clk_conf1: ClkConf1 { clk_wifi_apb_en: en, clk_wifibb_44m_en: en, clk_wifimac_en: en, clk_fe_apb_en: en, clk_fe_80m_en: en, clk_fe_160m_en: en, ..self.clk_conf1 }, ..self }
    }

    /// The registers with the clocks of IEEE 802.15.4 switched to `en`.
    pub open spec fn with_ieee802154(self, en: bool) -> ModemClocks {
        ModemClocks {
            clk_conf: ClkConf { clk_etm_en: en, clk_zb_apb_en: en, clk_zbmac_en: en, clk_modem_sec_en: en, clk_modem_sec_ecb_en: en, clk_modem_sec_ccm_en: en, clk_modem_sec_bah_en: en, clk_modem_sec_apb_en: en, clk_ble_timer_en: en, ..self.clk_conf },
            clk_conf1: ClkConf1 { clk_fe_apb_en: en, clk_bt_apb_en: en, clk_btbb_en: en, clk_btmac_en: en, clk_fe_20m_en: en, clk_fe_40m_en: en, clk_fe_80m_en: en, clk_fe_160m_en: en, ..self.clk_conf1 },
            ..self
        }
    }

    /// The registers with the clocks of Bluetooth switched to `en`.
    pub open spec fn with_bt(self, en: bool) -> ModemClocks {
        ModemClocks {
            clk_conf: ClkConf { clk_etm_en: en, clk_modem_sec_en: en, clk_modem_sec_ecb_en: en, clk_modem_sec_ccm_en: en, clk_modem_sec_bah_en: en, clk_modem_sec_apb_en: en, clk_ble_timer_en: en, ..self.clk_conf },
            clk_conf1: ClkConf1 { clk_fe_apb_en: en, clk_bt_apb_en: en, clk_btbb_en: en, clk_btmac_en: en, clk_fe_20m_en: en, clk_fe_40m_en: en, clk_fe_80m_en: en, clk_fe_160m_en: en, ..self.clk_conf1 },
            ..self
        }
    }

    /// The registers with the clocks on that every radio needs.
    pub open spec fn with_init_clocks(self) -> ModemClocks {
        ModemClocks {
            lp_clk_conf: LpClkConf { clk_i2c_mst_en: true, clk_wifipwr_en: true, ..self.lp_clk_conf },
            ..self
        }
    }
}

/// The bits of `clk_conf1` that the front end start-up sets by number:
/// the Wi-Fi base band clocks in bits 0 to 8, but for that of 44 MHz in
/// bit 2.
pub const PHY_WIFIBB_CLOCKS: u32 = 0x1fb;

/// Switches the clocks of the radio front end.
pub fn enable_phy(modem: &mut ModemClocks, en: bool)
    ensures
        *final(modem) == old(modem).with_phy(en),
{
    modem.clk_conf_power_st = ClkConfPowerSt {
        clk_modem_apb_st_map: 6,
        clk_modem_peri_st_map: 4,
        clk_wifi_st_map: 6,
        clk_bt_st_map: 4,
        clk_fe_st_map: 6,
        clk_zb_st_map: 4,
    };

    modem.lp_clk_conf_power_st = LpClkConfPowerSt {
        clk_lp_apb_st_map: 6,
        clk_i2c_mst_st_map: 6,
        clk_coex_st_map: 6,
        clk_wifipwr_st_map: 6,
    };

    modem.lp_clk_conf = LpClkConf { clk_coex_en: en, ..modem.lp_clk_conf };

    modem.clk_conf1 = ClkConf1 {
        clk_wifi_apb_en: en,
        clk_wifibb_22m_en: en,
        clk_fe_40m_en: en,
        clk_fe_80m_en: en,
        clk_wifibb_44m_en: en,
        clk_wifimac_en: en,
        ..modem.clk_conf1
    };

    // bits 0, 1 and 3 to 8 of the register
    modem.clk_conf1 = ClkConf1 {
        clk_wifibb_22m_en: true,
        clk_wifibb_40m_en: true,
        clk_wifibb_80m_en: true,
        clk_wifibb_40x_en: true,
        clk_wifibb_80x_en: true,
        clk_wifibb_40x1_en: true,
        clk_wifibb_80x1_en: true,
        clk_wifibb_160x1_en: true,
        ..modem.clk_conf1
    };

    modem.clk_conf1 = ClkConf1 {
        clk_fe_apb_en: en,
        clk_fe_80m_en: en,
        clk_fe_160m_en: en,
        clk_fe_dac_en: en,
        clk_fe_pwdet_adc_en: en,
        clk_fe_adc_en: en,
        ..modem.clk_conf1
    };
}

/// Switches the clocks of Wi-Fi.
pub fn enable_wifi(modem: &mut ModemClocks, en: bool)
    ensures
        *final(modem) == old(modem).with_wifi(en),
{
    modem.clk_conf1 = ClkConf1 {
        clk_wifi_apb_en: en,
        clk_wifibb_44m_en: en,
        clk_wifimac_en: en,
        clk_fe_apb_en: en,
        clk_fe_80m_en: en,
        clk_fe_160m_en: en,
        ..modem.clk_conf1
    };
}

/// Switches the clocks of IEEE 802.15.4.
pub fn enable_ieee802154(modem: &mut ModemClocks, en: bool)
    ensures
        *final(modem) == old(modem).with_ieee802154(en),
{
    modem.clk_conf = ClkConf {
        clk_etm_en: en,
        clk_zb_apb_en: en,
        clk_zbmac_en: en,
        clk_modem_sec_en: en,
        clk_modem_sec_ecb_en: en,
        clk_modem_sec_ccm_en: en,
        clk_modem_sec_bah_en: en,
        clk_modem_sec_apb_en: en,
        clk_ble_timer_en: en,
        ..modem.clk_conf
    };

    modem.clk_conf1 = ClkConf1 {
        clk_fe_apb_en: en,
        clk_bt_apb_en: en,
        clk_btbb_en: en,
        clk_btmac_en: en,
        clk_fe_20m_en: en,
        clk_fe_40m_en: en,
        clk_fe_80m_en: en,
        clk_fe_160m_en: en,
        ..modem.clk_conf1
    };
}

/// Switches the clocks of Bluetooth.
pub fn enable_bt(modem: &mut ModemClocks, en: bool)
    ensures
        *final(modem) == old(modem).with_bt(en),
{
    modem.clk_conf = ClkConf {
        clk_etm_en: en,
        clk_modem_sec_en: en,
        clk_modem_sec_ecb_en: en,
        clk_modem_sec_ccm_en: en,
        clk_modem_sec_bah_en: en,
        clk_modem_sec_apb_en: en,
        clk_ble_timer_en: en,
        ..modem.clk_conf
    };

    modem.clk_conf1 = ClkConf1 {
        clk_fe_apb_en: en,
        clk_bt_apb_en: en,
        clk_btbb_en: en,
        clk_btmac_en: en,
        clk_fe_20m_en: en,
        clk_fe_40m_en: en,
        clk_fe_80m_en: en,
        clk_fe_160m_en: en,
        ..modem.clk_conf1
    };
}

/// Nothing to reset on this chip.
pub fn reset_wifi_mac() {
}

/// Switches the clocks on that every radio needs.
pub fn init_clocks(modem: &mut ModemClocks)
    ensures
        *final(modem) == old(modem).with_init_clocks(),
{
    modem.lp_clk_conf = LpClkConf { clk_i2c_mst_en: true, clk_wifipwr_en: true, ..modem.lp_clk_conf };
}

/// Nothing to initialise on this chip.
pub fn ble_rtc_clk_init() {
}

/// Nothing to reset on this chip.
pub fn reset_rpa() {
}

} // verus!
