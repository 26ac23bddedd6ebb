use esp_preempt::backtrace::{halt, is_valid_ram_address, Backtrace, BacktraceFrame};
use esp_preempt::chip::Chip;
use esp_preempt::esp_now::{
    check_error, peer_count, Error, EspNowError, EspNowRc, EspNowWifiInterface, PeerCount,
    PeerInfo, RawPeerInfo, ReceiveInfo, ReceiveQueue, ReceivedData, RxControlInfo, SendPoll,
    SendState, WifiError, WifiPhyRate, BROADCAST_ADDRESS,
};
use esp_preempt::gpio::{
    gpio_intr_enable, io_mux_reg, GpioRegisters, InputSignal, InterruptStatusRegisterAccess,
    OutputSignal,
};
use esp_preempt::interrupt::{set_interrupt_handler, Cpu, HandlerStep, Interrupt};
use esp_preempt::mcp::{
    extract_doc, join, trim, trim_bounds, push_cli_args, push_decimal, CliValue, build_field_desc, classify_name, classify_type, cli_kind, flag, parse_arg_attrs,
    parse_mcp_tool_attrs, push_snake, replace_char, str_eq, to_snake, tool_name, ArgInfo,
    ArgItem, CliKind, McpToolError, TypeClass, TypeShape,
};
use esp_preempt::metadata::{EccDriverProperties, EccFeature, WorkingMode, WorkingModeEntry};
use esp_preempt::modem_clock::{
    ble_rtc_clk_init, enable_bt, enable_ieee802154, enable_phy, enable_wifi, init_clocks,
    reset_rpa, reset_wifi_mac, ClkConf, ClkConf1, ClkConfPowerSt, LpClkConf, LpClkConfPowerSt,
    ModemClocks, PHY_WIFIBB_CLOCKS,
};
use esp_preempt::rtc::{
    clock_control_init, configure_clock, init, power_control_init, rtc_sleep_pu, ApbCtrl, Extmem,
    Lpwr, Regi2c, Soc, SocResetReason, SpiMem, System,
};
use esp_preempt::software::{CpuInterrupts, SoftwareInterruptControl};

#[test]
fn backtrace_frames() {
    assert!(BacktraceFrame::new(3).is_none());
    assert_eq!(BacktraceFrame::new(4).unwrap().program_counter(), 0);
    assert_eq!(
        BacktraceFrame::new(0x4200_1238).unwrap().program_counter(),
        0x4200_1234
    );
}

#[test]
fn ram_addresses() {
    assert!(is_valid_ram_address(Chip::Esp32c3, 0x3FC8_0000));
    assert!(is_valid_ram_address(Chip::Esp32c3, 0x3FCE_0000));
    assert!(!is_valid_ram_address(Chip::Esp32c3, 0x3FCE_0010));
    assert!(!is_valid_ram_address(Chip::Esp32c3, 0x3FC7_FFF0));
    assert!(!is_valid_ram_address(Chip::Esp32c3, 0x3FC8_0008));
    assert!(!is_valid_ram_address(Chip::Esp32c2, 0x3FC8_0000));
    assert!(is_valid_ram_address(Chip::Esp32c2, 0x3FCA_0000));
    assert!(is_valid_ram_address(Chip::Esp32, 0x3FFA_E000));
    assert!(is_valid_ram_address(Chip::Esp32, 0x4000_0000));
    assert!(is_valid_ram_address(Chip::Esp32c6, 0x4088_0000));
    assert!(!is_valid_ram_address(Chip::Esp32h2, 0x4088_0000));
    assert!(is_valid_ram_address(Chip::Esp32h2, 0x4085_0000));
    assert!(is_valid_ram_address(Chip::Esp32p4, 0x4FF0_0000));
    assert!(is_valid_ram_address(Chip::Esp32s2, 0x3FFB_0000));
    assert!(!is_valid_ram_address(Chip::Esp32s2, 0x3FFA_E000));
    assert!(is_valid_ram_address(Chip::Esp32s3, 0x3FD0_0000));
    assert!(!is_valid_ram_address(Chip::Esp32s3, 0x3FC8_7FF0));
}

#[test]
fn halt_values() {
    assert_eq!(halt(0, 0), (0b1010, (0x21 << 20) | (0x21 << 26)));
    assert_eq!(
        halt(0xffff_ffff, 0xffff_ffff),
        (0xffff_fffa, 0x000f_ffff | (0x21 << 20) | (0x21 << 26))
    );
}

#[test]
fn gpio_values() {
    assert_eq!(gpio_intr_enable(false, false), 0);
    assert_eq!(gpio_intr_enable(true, false), 1);
    assert_eq!(gpio_intr_enable(false, true), 2);
    assert_eq!(gpio_intr_enable(true, true), 3);
    assert_eq!(io_mux_reg(0), Some(0));
    assert_eq!(io_mux_reg(20), Some(20));
    assert_eq!(io_mux_reg(21), None);
    assert_eq!(InputSignal::SPIQ.number(), 0);
    assert_eq!(InputSignal::U0RXD.number(), 6);
    assert_eq!(InputSignal::EXT_ADC_START.number(), 45);
    assert_eq!(InputSignal::SIG_FUNC_100.number(), 100);
    assert_eq!(OutputSignal::SPICLK_MUX.number(), 4);
    assert_eq!(OutputSignal::FSPICS2.number(), 71);
    assert_eq!(OutputSignal::FSPICS3.number(), 70);
    assert_eq!(OutputSignal::CLK_OUT3.number(), 125);
    assert_eq!(OutputSignal::GPIO.number(), 128);
    let regs = GpioRegisters { pcpu_int: 0x8001 };
    assert_eq!(
        InterruptStatusRegisterAccess::Bank0.interrupt_status_read(&regs),
        0x8001
    );
}

#[test]
fn software_interrupts() {
    let mut control = SoftwareInterruptControl::new();
    let mut system = CpuInterrupts {
        cpu_intr_from_cpu_0: false,
        cpu_intr_from_cpu_1: false,
        cpu_intr_from_cpu_2: false,
        cpu_intr_from_cpu_3: false,
    };
    control.software_interrupt2.raise(&mut system);
    assert!(system.cpu_intr_from_cpu_2);
    assert!(!system.cpu_intr_from_cpu_0 && !system.cpu_intr_from_cpu_1);
    control.software_interrupt0.raise(&mut system);
    control.software_interrupt1.raise(&mut system);
    control.software_interrupt3.raise(&mut system);
    control.software_interrupt2.reset(&mut system);
    assert_eq!(
        system,
        CpuInterrupts {
            cpu_intr_from_cpu_0: true,
            cpu_intr_from_cpu_1: true,
            cpu_intr_from_cpu_2: false,
            cpu_intr_from_cpu_3: true,
        }
    );
    control.software_interrupt0.reset(&mut system);
    control.software_interrupt1.reset(&mut system);
    control.software_interrupt3.reset(&mut system);
    assert!(!system.cpu_intr_from_cpu_3);
    assert_eq!(
        control.software_interrupt0.interrupt(),
        Interrupt::FROM_CPU_INTR0
    );
    assert_eq!(
        control.software_interrupt3.interrupt(),
        Interrupt::FROM_CPU_INTR3
    );
    let again = control.software_interrupt1.reborrow();
    assert_eq!(again.interrupt(), Interrupt::FROM_CPU_INTR1);
}

fn soc(all: bool, n: u8) -> Soc {
    Soc {
        lpwr: Lpwr {
            pvtmon_pu: all,
            plla_force_pu: all,
            plla_force_pd: !all,
            reset_por_force_pd: all,
            enb_ck8m: all,
            ck8m_force_pu: all,
            xtl_force_pu: all,
            bbpll_force_pu: all,
            bbpll_i2c_force_pu: all,
            bb_i2c_force_pu: all,
            regulator_force_pu: all,
            dboost_force_pu: all,
            dboost_force_pd: !all,
            dg_wrap_force_pu: all,
            wifi_force_pu: all,
            bt_force_pu: all,
            cpu_top_force_pu: all,
            dg_peri_force_pu: all,
            lslp_mem_force_pu: all,
            fastmem_force_lpu: all,
            dg_wrap_force_noiso: all,
            wifi_force_noiso: all,
            bt_force_noiso: all,
            cpu_top_force_noiso: all,
            dg_peri_force_noiso: all,
            dg_pad_force_unhold: all,
            dg_pad_force_noiso: all,
            pll_buf_wait: n,
            ck8m_wait: n,
            min_slp_val: n,
            wifi_powerup_timer: n,
            bt_powerup_timer: n,
            cpu_top_powerup_timer: n,
            dg_wrap_powerup_timer: n,
            dg_peri_powerup_timer: n,
            wifi_wait_timer: n as u16,
            bt_wait_timer: n as u16,
            cpu_top_wait_timer: n as u16,
            dg_wrap_wait_timer: n as u16,
            dg_peri_wait_timer: n as u16,
            int_ena: n as u32,
            int_clr: n as u32,
            store1: n as u32,
        },
        extmem: Extmem {
            cache_mmu_mem_force_on: all,
            icache_tag_mem_force_on: all,
        },
        spi0: SpiMem { clk_en: all },
        spi1: SpiMem { clk_en: all },
        system: System {
            lslp_mem_pd_mask: all,
            cpu_wait_mode_force_on: all,
        },
        apb_ctrl: ApbCtrl {
            dc_mem_force_pu: all,
            pbus_mem_force_pu: all,
            agc_mem_force_pu: all,
            sram_power_up: n,
            rom_power_up: n,
        },
        regi2c: Regi2c {
            xpd_dig_reg: n,
            xpd_rtc_reg: n,
            ulp_ir_force_xpd_ck: n,
        },
    }
}

#[test]
fn rtc_start_up() {
    let mut s = soc(true, 9);
    rtc_sleep_pu(&mut s);
    let mut want = soc(true, 9);
    want.lpwr.lslp_mem_force_pu = false;
    want.lpwr.fastmem_force_lpu = false;
    want.apb_ctrl = soc(false, 0).apb_ctrl;
    assert_eq!(s, want);

    let mut s = soc(true, 9);
    clock_control_init(&mut s);
    let mut want = soc(true, 9);
    want.extmem = soc(false, 0).extmem;
    want.spi0.clk_en = false;
    want.spi1.clk_en = false;
    assert_eq!(s, want);

    let mut s = soc(true, 9);
    power_control_init(&mut s);
    let mut want = soc(false, 9);
    want.lpwr.pvtmon_pu = true;
    want.lpwr.enb_ck8m = true;
    want.extmem = soc(true, 9).extmem;
    want.spi0.clk_en = true;
    want.spi1.clk_en = true;
    want.apb_ctrl.sram_power_up = 0;
    want.apb_ctrl.rom_power_up = 0;
    assert_eq!(s, want);

    let mut s = soc(true, 9);
    init(&mut s);
    let mut want = soc(false, 1);
    want.lpwr.enb_ck8m = true;
    want.lpwr.pll_buf_wait = 20;
    want.lpwr.ck8m_wait = 20;
    want.lpwr.min_slp_val = 2;
    want.lpwr.int_ena = 0;
    want.lpwr.int_clr = u32::MAX;
    want.lpwr.store1 = 9;
    want.apb_ctrl.sram_power_up = 0;
    want.apb_ctrl.rom_power_up = 0;
    want.regi2c = Regi2c {
        xpd_dig_reg: 0,
        xpd_rtc_reg: 0,
        ulp_ir_force_xpd_ck: 0,
    };
    assert_eq!(s, want);

    let mut s = soc(true, 9);
    configure_clock(&mut s, 0x1234);
    let mut want = soc(true, 9);
    want.lpwr.enb_ck8m = false;
    want.lpwr.ck8m_wait = 5;
    want.lpwr.store1 = 0x1234;
    assert_eq!(s, want);
}

#[test]
fn reset_reasons() {
    assert_eq!(SocResetReason::from_repr(0x01), Some(SocResetReason::ChipPowerOn));
    assert_eq!(SocResetReason::from_repr(0x02), None);
    assert_eq!(SocResetReason::from_repr(0x0b), Some(SocResetReason::Cpu0Mwdt0));
    assert_eq!(SocResetReason::from_repr(0x17), Some(SocResetReason::CorePwrGlitch));
    assert_eq!(SocResetReason::from_repr(0x18), None);
    assert_eq!(SocResetReason::SysBrownOut.repr(), 0x0f);
    assert_eq!(SocResetReason::Cpu0Mwdt1.repr(), 0x11);
}

fn modem(v: bool) -> ModemClocks {
    ModemClocks {
        clk_conf: ClkConf {
            clk_etm_en: v,
            clk_zb_apb_en: v,
            clk_zbmac_en: v,
            clk_modem_sec_en: v,
            clk_modem_sec_ecb_en: v,
            clk_modem_sec_ccm_en: v,
            clk_modem_sec_bah_en: v,
            clk_modem_sec_apb_en: v,
            clk_ble_timer_en: v,
        },
        clk_conf1: ClkConf1 {
            clk_wifi_apb_en: v,
            clk_wifibb_22m_en: v,
            clk_wifibb_44m_en: v,
            clk_wifimac_en: v,
            clk_fe_apb_en: v,
            clk_fe_20m_en: v,
            clk_fe_40m_en: v,
            clk_fe_80m_en: v,
            clk_fe_160m_en: v,
            clk_fe_dac_en: v,
            clk_fe_pwdet_adc_en: v,
            clk_fe_adc_en: v,
            clk_bt_apb_en: v,
            clk_btbb_en: v,
            clk_btmac_en: v,
            clk_wifibb_40m_en: v,
            clk_wifibb_80m_en: v,
            clk_wifibb_40x_en: v,
            clk_wifibb_80x_en: v,
            clk_wifibb_40x1_en: v,
            clk_wifibb_80x1_en: v,
            clk_wifibb_160x1_en: v,
        },
        lp_clk_conf: LpClkConf {
            clk_coex_en: v,
            clk_i2c_mst_en: v,
            clk_wifipwr_en: v,
        },
        clk_conf_power_st: ClkConfPowerSt {
            clk_modem_apb_st_map: 0,
            clk_modem_peri_st_map: 0,
            clk_wifi_st_map: 0,
            clk_bt_st_map: 0,
            clk_fe_st_map: 0,
            clk_zb_st_map: 0,
        },
        lp_clk_conf_power_st: LpClkConfPowerSt {
            clk_lp_apb_st_map: 0,
            clk_i2c_mst_st_map: 0,
            clk_coex_st_map: 0,
            clk_wifipwr_st_map: 0,
        },
    }
}

#[test]
fn phy_clocks() {
    let mut m = modem(true);
    enable_phy(&mut m, false);
    let mut want = modem(false);
    want.clk_conf = modem(true).clk_conf;
    want.lp_clk_conf.clk_i2c_mst_en = true;
    want.lp_clk_conf.clk_wifipwr_en = true;
    want.clk_conf1.clk_fe_20m_en = true;
    want.clk_conf1.clk_bt_apb_en = true;
    want.clk_conf1.clk_btbb_en = true;
    want.clk_conf1.clk_btmac_en = true;
    want.clk_conf1.clk_wifibb_22m_en = true;
    want.clk_conf1.clk_wifibb_40m_en = true;
    want.clk_conf1.clk_wifibb_80m_en = true;
    want.clk_conf1.clk_wifibb_40x_en = true;
    want.clk_conf1.clk_wifibb_80x_en = true;
    want.clk_conf1.clk_wifibb_40x1_en = true;
    want.clk_conf1.clk_wifibb_80x1_en = true;
    want.clk_conf1.clk_wifibb_160x1_en = true;
    want.clk_conf_power_st = ClkConfPowerSt {
        clk_modem_apb_st_map: 6,
        clk_modem_peri_st_map: 4,
        clk_wifi_st_map: 6,
        clk_bt_st_map: 4,
        clk_fe_st_map: 6,
        clk_zb_st_map: 4,
    };
    want.lp_clk_conf_power_st = LpClkConfPowerSt {
        clk_lp_apb_st_map: 6,
        clk_i2c_mst_st_map: 6,
        clk_coex_st_map: 6,
        clk_wifipwr_st_map: 6,
    };
    assert_eq!(m, want);
    assert_eq!(PHY_WIFIBB_CLOCKS, 0b1_1111_1011);

    let mut m = modem(false);
    enable_phy(&mut m, true);
    assert!(m.clk_conf1.clk_wifibb_44m_en);
    assert!(m.clk_conf1.clk_fe_adc_en);
    assert!(m.lp_clk_conf.clk_coex_en);
    assert!(!m.clk_conf1.clk_fe_20m_en);
    assert!(!m.clk_conf1.clk_btmac_en);
}

#[test]
fn modem_clocks() {
    let mut m = modem(false);
    enable_wifi(&mut m, true);
    let mut want = modem(false);
    want.clk_conf1.clk_wifi_apb_en = true;
    want.clk_conf1.clk_wifibb_44m_en = true;
    want.clk_conf1.clk_wifimac_en = true;
    want.clk_conf1.clk_fe_apb_en = true;
    want.clk_conf1.clk_fe_80m_en = true;
    want.clk_conf1.clk_fe_160m_en = true;
    assert_eq!(m, want);
    enable_wifi(&mut m, false);
    assert_eq!(m, modem(false));

    let mut m = modem(true);
    enable_bt(&mut m, false);
    let mut want = modem(false);
    want.clk_conf.clk_zb_apb_en = true;
    want.clk_conf.clk_zbmac_en = true;
    want.clk_conf1.clk_wifi_apb_en = true;
    want.clk_conf1.clk_wifibb_22m_en = true;
    want.clk_conf1.clk_wifibb_44m_en = true;
    want.clk_conf1.clk_wifimac_en = true;
    want.clk_conf1.clk_fe_dac_en = true;
    want.clk_conf1.clk_fe_pwdet_adc_en = true;
    want.clk_conf1.clk_fe_adc_en = true;
    want.clk_conf1.clk_wifibb_40m_en = true;
    want.clk_conf1.clk_wifibb_80m_en = true;
    want.clk_conf1.clk_wifibb_40x_en = true;
    want.clk_conf1.clk_wifibb_80x_en = true;
    want.clk_conf1.clk_wifibb_40x1_en = true;
    want.clk_conf1.clk_wifibb_80x1_en = true;
    want.clk_conf1.clk_wifibb_160x1_en = true;
    want.lp_clk_conf = modem(true).lp_clk_conf;
    assert_eq!(m, want);

    let mut m = modem(true);
    enable_ieee802154(&mut m, false);
    want.clk_conf.clk_zb_apb_en = false;
    want.clk_conf.clk_zbmac_en = false;
    assert_eq!(m, want);

    let mut m = modem(false);
    init_clocks(&mut m);
    let mut want = modem(false);
    want.lp_clk_conf.clk_i2c_mst_en = true;
    want.lp_clk_conf.clk_wifipwr_en = true;
    assert_eq!(m, want);
    reset_wifi_mac();
    ble_rtc_clk_init();
    reset_rpa();
}

#[test]
fn esp_now_status_codes() {
    assert_eq!(Error::from_code(12389), Error::NotInitialized);
    assert_eq!(Error::from_code(12390), Error::InvalidArgument);
    assert_eq!(Error::from_code(12391), Error::OutOfMemory);
    assert_eq!(Error::from_code(12392), Error::PeerListFull);
    assert_eq!(Error::from_code(12393), Error::NotFound);
    assert_eq!(Error::from_code(12394), Error::Internal);
    assert_eq!(Error::from_code(12395), Error::PeerExists);
    assert_eq!(Error::from_code(12396), Error::InterfaceMismatch);
    assert_eq!(Error::from_code(12397), Error::Other(12397));
    assert_eq!(Error::from_code(0), Error::Other(0));
    assert_eq!(check_error(0), Ok(()));
    assert_eq!(
        check_error(12393),
        Err(EspNowError::Error(Error::NotFound))
    );
    assert_eq!(
        check_error(-1),
        Err(EspNowError::Error(Error::Other(u32::MAX)))
    );
    assert_eq!(
        EspNowError::from(WifiError::Disconnected),
        EspNowError::Initialization(WifiError::Disconnected)
    );
    assert_eq!(
        peer_count(0, 3, 1),
        Ok(PeerCount {
            total_count: 3,
            encrypted_count: 1
        })
    );
    assert_eq!(
        peer_count(12389, 3, 1),
        Err(EspNowError::Error(Error::NotInitialized))
    );
    assert_eq!(WifiPhyRate::Rate1mL.number(), 0);
    assert_eq!(WifiPhyRate::Rate54m.number(), 11);
    assert_eq!(WifiPhyRate::RateMcs7Sgi.number(), 30);
    assert_eq!(WifiPhyRate::RateMax.number(), 33);
}

#[test]
fn esp_now_peers() {
    assert_eq!(EspNowWifiInterface::Sta.as_wifi_interface(), 0);
    assert_eq!(EspNowWifiInterface::Ap.as_wifi_interface(), 1);
    assert_eq!(
        EspNowWifiInterface::from_wifi_interface(1),
        EspNowWifiInterface::Ap
    );
    assert_eq!(
        EspNowWifiInterface::from_wifi_interface(0),
        EspNowWifiInterface::Sta
    );
    let peer = PeerInfo {
        interface: EspNowWifiInterface::Sta,
        peer_address: BROADCAST_ADDRESS,
        lmk: None,
        channel: None,
        encrypt: false,
    };
    let raw = peer.to_raw();
    assert_eq!(raw.peer_addr, [0xff; 6]);
    assert_eq!(raw.lmk, [0; 16]);
    assert_eq!(raw.channel, 0);
    assert_eq!(raw.ifidx, 0);
    assert!(!raw.encrypt);
    let peer = PeerInfo {
        interface: EspNowWifiInterface::Ap,
        peer_address: [1, 2, 3, 4, 5, 6],
        lmk: Some([7; 16]),
        channel: Some(11),
        encrypt: true,
    };
    let raw = peer.to_raw();
    assert_eq!(raw.lmk, [7; 16]);
    assert_eq!((raw.channel, raw.ifidx, raw.encrypt), (11, 1, true));

    let back = PeerInfo::from_raw(0, &raw).unwrap();
    assert_eq!(back.interface, EspNowWifiInterface::Ap);
    assert_eq!(back.peer_address, [1, 2, 3, 4, 5, 6]);
    assert_eq!(back.lmk, Some([7; 16]));
    assert_eq!(back.channel, Some(11));
    assert!(back.encrypt);
    let raw = RawPeerInfo {
        peer_addr: [9; 6],
        lmk: [0; 16],
        channel: 0,
        ifidx: 0,
        encrypt: false,
    };
    let back = PeerInfo::from_raw(0, &raw).unwrap();
    assert_eq!(back.lmk, Some([0; 16]));
    assert_eq!(back.channel, None);
    assert_eq!(
        PeerInfo::from_raw(12393, &raw).err(),
        Some(EspNowError::Error(Error::NotFound))
    );
}

fn packet(n: u8) -> ReceivedData {
    ReceivedData::new(
        vec![n; n as usize],
        ReceiveInfo {
            src_address: [n; 6],
            dst_address: BROADCAST_ADDRESS,
            rx_control: RxControlInfo {
                rssi: -(n as i32),
                rate: 0,
                channel: 1,
                timestamp: n as u32,
                sig_len: n as u32,
            },
        },
    )
}

#[test]
fn receive_queue_keeps_the_last_ten() {
    let mut queue = ReceiveQueue::new();
    assert!(queue.receive().is_none());
    for n in 1..=10 {
        queue.push(packet(n));
    }
    assert_eq!(queue.len(), 10);
    let first = queue.receive().unwrap();
    assert_eq!(first.data(), &[1u8][..]);
    assert_eq!(first.info.src_address, [1; 6]);
    assert_eq!(queue.len(), 9);
    for n in 11..=14 {
        queue.push(packet(n));
    }
    assert_eq!(queue.len(), 10);
    // 2, 3 and 4 were dropped for 12, 13 and 14
    for n in 5..=14u8 {
        let got = queue.receive().unwrap();
        assert_eq!(got.data(), &vec![n; n as usize][..]);
        assert_eq!(got.info.rx_control.timestamp, n as u32);
    }
    assert!(queue.receive().is_none());
    assert_eq!(queue.len(), 0);
}

#[test]
fn send_state() {
    let mut state = SendState::new();
    assert_eq!(state.poll(), SendPoll::Pending);
    state.start();
    let mut sent = false;
    assert_eq!(
        state.poll_first(&mut sent, 12393),
        SendPoll::Ready(Err(EspNowError::Error(Error::NotFound)))
    );
    assert!(!sent);
    assert_eq!(state.poll_first(&mut sent, 0), SendPoll::Pending);
    assert!(sent);
    state.send_cb(1);
    assert_eq!(state.poll(), SendPoll::Ready(Err(EspNowError::SendFailed)));
    assert_eq!(state.wait(), Err(EspNowError::SendFailed));
    state.start();
    assert_eq!(state.poll(), SendPoll::Pending);
    state.send_cb(0);
    assert_eq!(state.poll(), SendPoll::Ready(Ok(())));
    assert_eq!(state.wait(), Ok(()));
    assert_eq!(state.poll_first(&mut sent, 0), SendPoll::Ready(Ok(())));
}

#[test]
fn driver_parts_are_counted() {
    assert_eq!(
        EspNowRc::new(1).err(),
        Some(EspNowError::DuplicateInstance)
    );
    let mut rc = EspNowRc::new(0).unwrap();
    rc.acquire();
    rc.acquire();
    assert_eq!(rc.count(), 3);
    assert!(!rc.release());
    assert!(!rc.release());
    assert!(rc.release());
    assert_eq!(rc.count(), 0);
    assert!(!rc.release());
    assert_eq!(rc.count(), 255);
    rc.acquire();
    assert_eq!(rc.count(), 0);
}

fn entry(id: u32, mode: WorkingMode) -> WorkingModeEntry {
    WorkingModeEntry { id, mode }
}

#[test]
fn ecc_driver_cfgs() {
    let seven = EccDriverProperties::new(vec![
        entry(0, WorkingMode::AffinePointMultiplication),
        entry(1, WorkingMode::FiniteFieldDivision),
        entry(2, WorkingMode::AffinePointVerification),
        entry(3, WorkingMode::AffinePointVerificationAndMultiplication),
        entry(4, WorkingMode::JacobianPointMultiplication),
        entry(6, WorkingMode::JacobianPointVerification),
        entry(7, WorkingMode::AffinePointVerificationAndJacobianPointMultiplication),
    ]);
    assert!(seven.has_mode(WorkingMode::FiniteFieldDivision));
    assert!(!seven.has_mode(WorkingMode::ModularAddition));
    assert_eq!(seven.features(), vec![EccFeature::FiniteFieldDivision]);
    assert_eq!(
        seven.cfgs(),
        Some(vec!["ecc_has_finite_field_division".to_string()])
    );

    let eleven = EccDriverProperties::new(vec![
        entry(5, WorkingMode::AffinePointAddition),
        entry(10, WorkingMode::ModularMultiplication),
        entry(8, WorkingMode::ModularAddition),
        entry(9, WorkingMode::ModularSubtraction),
        entry(11, WorkingMode::ModularDivision),
    ]);
    assert_eq!(
        eleven.cfgs(),
        Some(vec![
            "ecc_has_modular_arithmetic".to_string(),
            "ecc_has_point_addition".to_string()
        ])
    );
    assert_eq!(EccDriverProperties::default().cfgs(), Some(vec![]));
    assert_eq!(
        EccDriverProperties::new(vec![entry(9, WorkingMode::ModularDivision)]).features(),
        vec![EccFeature::ModularArithmetic]
    );
    assert_eq!(EccFeature::PointAddition.cfg(), "ecc_has_point_addition");
    assert_eq!(WorkingMode::ModularDivision.name(), "ModularDivision");
    assert_eq!(
        WorkingMode::AffinePointVerificationAndJacobianPointMultiplication.name(),
        "AffinePointVerificationAndJacobianPointMultiplication"
    );
    assert_eq!(eleven.working_modes()[1], entry(10, WorkingMode::ModularMultiplication));
}

#[test]
fn snake_case_names() {
    assert_eq!(to_snake("MyStructName".to_string()), "my_struct_name");
    assert_eq!(to_snake("BuildArgs".to_string()), "build_args");
    assert_eq!(to_snake("X".to_string()), "x");
    assert_eq!(to_snake("".to_string()), "");
    assert_eq!(to_snake("already_snake".to_string()), "already_snake");
    assert_eq!(to_snake("HTTPServer".to_string()), "h_t_t_p_server");
    assert_eq!(to_snake("ÄpfelÖl".to_string()), "äpfel_öl");
    let mut out = String::from("ab");
    push_snake(&mut out, false, true, 'c');
    assert_eq!(out, "ab_c");
    push_snake(&mut out, true, true, 'd');
    assert_eq!(out, "ab_cd");
    push_snake(&mut out, false, false, 'e');
    assert_eq!(out, "ab_cde");
}

#[test]
fn names_and_flags() {
    assert_eq!(tool_name("run-tests all"), "run_tests_all");
    assert_eq!(tool_name("build"), "build");
    assert_eq!(replace_char("a_b__c", '_', '-'), "a-b--c");
    assert_eq!(replace_char("", '_', '-'), "");
    assert!(str_eq("bool", "bool"));
    assert!(!str_eq("bool", "boo"));
    let mut arg = ArgInfo::default();
    assert_eq!(flag("no_default_features", &arg), "--no-default-features");
    arg.long_name = "chips".to_string();
    assert_eq!(flag("chip_list", &arg), "--chips");
}

#[test]
fn arg_attributes() {
    assert_eq!(parse_arg_attrs(&vec![]), ArgInfo::default());
    let info = parse_arg_attrs(&vec![
        ArgItem::Other,
        ArgItem::LongValue(Some("first".to_string())),
        ArgItem::ValueDelimiter(Some(',')),
        ArgItem::LongValue(None),
        ArgItem::ValueDelimiter(None),
        ArgItem::LongValue(Some("second".to_string())),
    ]);
    assert_eq!(
        info,
        ArgInfo {
            has_long: true,
            long_name: "second".to_string(),
            value_delimiter: Some(','),
        }
    );
    let info = parse_arg_attrs(&vec![ArgItem::Long]);
    assert!(info.has_long);
    assert_eq!(info.long_name, "");
    let info = parse_arg_attrs(&vec![ArgItem::ValueDelimiter(Some(';'))]);
    assert!(!info.has_long);
    assert_eq!(info.value_delimiter, Some(';'));
}

fn path(name: &str) -> TypeShape {
    TypeShape::Path {
        has_qself: false,
        segments: vec![name.to_string()],
    }
}

#[test]
fn type_classes_and_cli_kinds() {
    assert_eq!(classify_name("bool"), TypeClass::Bool);
    for name in ["usize", "u32", "u64", "i64", "i32"] {
        assert_eq!(classify_name(name), TypeClass::Integer);
    }
    assert_eq!(classify_name("u8"), TypeClass::Other);
    assert_eq!(classify_type(&path("Option")), TypeClass::Optional);
    assert_eq!(classify_type(&path("Vec")), TypeClass::List);
    assert_eq!(classify_type(&path("Chip")), TypeClass::Other);
    assert_eq!(classify_type(&TypeShape::NotPath), TypeClass::Other);
    assert_eq!(
        classify_type(&TypeShape::Path {
            has_qself: true,
            segments: vec!["bool".to_string()]
        }),
        TypeClass::Other
    );
    assert_eq!(
        classify_type(&TypeShape::Path {
            has_qself: false,
            segments: vec!["std".to_string(), "bool".to_string()]
        }),
        TypeClass::Other
    );

    let plain = ArgInfo::default();
    let long = ArgInfo {
        has_long: true,
        ..ArgInfo::default()
    };
    let delimited = ArgInfo {
        has_long: true,
        value_delimiter: Some(','),
        ..ArgInfo::default()
    };
    let only_delimiter = ArgInfo {
        value_delimiter: Some(','),
        ..ArgInfo::default()
    };
    assert_eq!(cli_kind(TypeClass::Bool, &plain), CliKind::BoolFlag);
    assert_eq!(cli_kind(TypeClass::Optional, &long), CliKind::NamedOpt);
    assert_eq!(cli_kind(TypeClass::Optional, &plain), CliKind::PositionalOpt);
    assert_eq!(
        cli_kind(TypeClass::List, &delimited),
        CliKind::VecDelimited { delimiter: ',' }
    );
    assert_eq!(cli_kind(TypeClass::List, &long), CliKind::VecNamedMulti);
    assert_eq!(
        cli_kind(TypeClass::List, &only_delimiter),
        CliKind::VecPositional
    );
    assert_eq!(cli_kind(TypeClass::Integer, &plain), CliKind::NamedInt);
    assert_eq!(cli_kind(TypeClass::Other, &long), CliKind::NamedOpt);
    assert_eq!(
        cli_kind(TypeClass::Other, &plain),
        CliKind::RequiredPositional
    );

    let desc = build_field_desc(
        "target_chips",
        &vec![ArgItem::Long, ArgItem::ValueDelimiter(Some(','))],
        "Chips to build for".to_string(),
        &path("Vec"),
    );
    assert_eq!(desc.ident, "target_chips");
    assert_eq!(desc.doc, "Chips to build for");
    assert_eq!(desc.flag, "--target-chips");
    assert_eq!(desc.cli_kind, CliKind::VecDelimited { delimiter: ',' });
}

#[test]
fn tool_attributes() {
    let ok = parse_mcp_tool_attrs(Some("Builds".to_string()), Some("build".to_string())).unwrap();
    assert_eq!(ok.description, "Builds");
    assert_eq!(ok.command, "build");
    assert_eq!(
        parse_mcp_tool_attrs(None, Some("build".to_string())).err(),
        Some(McpToolError::MissingDescription)
    );
    assert_eq!(
        parse_mcp_tool_attrs(None, None).err(),
        Some(McpToolError::MissingDescription)
    );
    assert_eq!(
        parse_mcp_tool_attrs(Some("Builds".to_string()), None).err(),
        Some(McpToolError::MissingCommand)
    );
}

#[test]
fn handler_installation_steps() {
    assert_eq!(Cpu::ProCpu.other(false), vec![]);
    assert_eq!(Cpu::ProCpu.other(true), vec![Cpu::AppCpu]);
    assert_eq!(Cpu::AppCpu.other(true), vec![Cpu::ProCpu]);
    let interrupt = Interrupt::ECC;
    assert_eq!(
        set_interrupt_handler(interrupt, Cpu::AppCpu, true),
        vec![
            HandlerStep::Disable {
                core: Cpu::ProCpu,
                interrupt
            },
            HandlerStep::Bind { interrupt },
            HandlerStep::Enable { interrupt },
        ]
    );
    assert_eq!(
        set_interrupt_handler(interrupt, Cpu::AppCpu, false),
        vec![
            HandlerStep::Bind { interrupt },
            HandlerStep::Enable { interrupt },
        ]
    );
    let mut control = SoftwareInterruptControl::new();
    assert_eq!(
        control
            .software_interrupt2
            .set_interrupt_handler(Cpu::ProCpu, true)[0],
        HandlerStep::Disable {
            core: Cpu::AppCpu,
            interrupt: Interrupt::FROM_CPU_INTR2
        }
    );
}

#[test]
fn backtrace_walk() {
    let chip = Chip::Esp32c3;
    assert!(Backtrace::starts(chip, 0x3FC8_0010));
    assert!(!Backtrace::starts(chip, 0x3FC8_0011));
    let mut bt = Backtrace::new();
    assert!(bt.frames().is_empty());
    // two frames are left out
    assert_eq!(bt.record(chip, 0x4200_0010, 0x3FC8_0020, 2), Some(1));
    assert_eq!(bt.record(chip, 0x4200_0020, 0x3FC8_0030, 1), Some(0));
    assert!(bt.frames().is_empty());
    assert_eq!(bt.record(chip, 0x4200_0030, 0x3FC8_0040, 0), Some(0));
    assert_eq!(bt.record(chip, 2, 0x3FC8_0040, 0), Some(0));
    assert_eq!(bt.record(chip, 0x4200_0040, 0x3FC8_0050, 0), Some(0));
    let pcs: Vec<usize> = bt.frames().iter().map(|f| f.program_counter()).collect();
    assert_eq!(pcs, vec![0x4200_002c, 0x4200_003c]);
    // the end of the stack
    assert_eq!(bt.record(chip, 0, 0x3FC8_0050, 0), None);
    assert_eq!(bt.record(chip, 0x4200_0050, 0x10, 0), None);
    assert_eq!(bt.frames().len(), 2);
    // a full backtrace ends the walk
    for n in 0..7 {
        assert!(!bt.is_full());
        assert_eq!(bt.record(chip, 0x4200_0100 + n, 0x3FC8_0050, 0), Some(0));
    }
    assert_eq!(bt.record(chip, 0x4200_0200, 0x3FC8_0050, 0), None);
    assert!(bt.is_full());
    assert_eq!(bt.frames().len(), 10);
    assert_eq!(bt.frames()[9].program_counter(), 0x4200_01fc);
}

fn emitted(kind: CliKind, value: CliValue) -> Vec<String> {
    let mut args = vec!["build".to_string()];
    assert!(value.check_fits(kind));
    push_cli_args(&mut args, kind, "--flag", &value);
    assert_eq!(args[0], "build");
    args[1..].to_vec()
}

fn list(values: &[&str]) -> CliValue {
    CliValue::List(Some(values.iter().map(|s| s.to_string()).collect()))
}

#[test]
fn cli_args_of_each_kind() {
    let none: Vec<String> = vec![];
    assert_eq!(emitted(CliKind::BoolFlag, CliValue::Flag(Some(true))), ["--flag"]);
    assert_eq!(emitted(CliKind::BoolFlag, CliValue::Flag(Some(false))), none);
    assert_eq!(emitted(CliKind::BoolFlag, CliValue::Flag(None)), none);
    assert_eq!(
        emitted(CliKind::NamedOpt, CliValue::Text(Some("v".to_string()))),
        ["--flag", "v"]
    );
    assert_eq!(emitted(CliKind::NamedOpt, CliValue::Text(None)), none);
    assert_eq!(
        emitted(CliKind::PositionalOpt, CliValue::Text(Some("v".to_string()))),
        ["v"]
    );
    assert_eq!(
        emitted(CliKind::VecDelimited { delimiter: ',' }, list(&["a", "b", "c"])),
        ["--flag", "a,b,c"]
    );
    assert_eq!(
        emitted(CliKind::VecDelimited { delimiter: ',' }, list(&["a"])),
        ["--flag", "a"]
    );
    assert_eq!(emitted(CliKind::VecDelimited { delimiter: ',' }, list(&[])), none);
    assert_eq!(
        emitted(CliKind::VecDelimited { delimiter: ',' }, CliValue::List(None)),
        none
    );
    assert_eq!(emitted(CliKind::VecPositional, list(&["a", "b"])), ["a", "b"]);
    assert_eq!(
        emitted(CliKind::VecNamedMulti, list(&["a", "b"])),
        ["--flag", "a", "--flag", "b"]
    );
    assert_eq!(emitted(CliKind::VecNamedMulti, list(&[])), none);
    assert_eq!(
        emitted(CliKind::NamedInt, CliValue::Number(Some(1200))),
        ["--flag", "1200"]
    );
    assert_eq!(emitted(CliKind::NamedInt, CliValue::Number(None)), none);
    assert_eq!(
        emitted(CliKind::RequiredPositional, CliValue::Required("esp32c6".to_string())),
        ["esp32c6"]
    );
    assert!(!CliValue::Flag(None).check_fits(CliKind::NamedInt));
    assert!(!CliValue::Number(None).check_fits(CliKind::VecPositional));
}

#[test]
fn decimal_digits_and_joins() {
    for n in [0u64, 7, 10, 99, 100, 12345, u64::MAX] {
        let mut out = String::from("n=");
        push_decimal(&mut out, n);
        assert_eq!(out, format!("n={n}"));
    }
    let parts: Vec<String> = vec!["a".into(), "".into(), "bc".into()];
    assert_eq!(join(&parts, '-'), "a--bc");
    assert_eq!(join(&vec![], ','), "");
    assert_eq!(join(&vec!["x".to_string()], ','), "x");
}

#[test]
fn trimming_and_doc_comments() {
    assert_eq!(trim("  two words \t\n"), "two words");
    assert_eq!(trim("none"), "none");
    assert_eq!(trim(" \u{a0}\u{2003} "), "");
    assert_eq!(trim(""), "");
    assert_eq!(trim(" x"), "x");
    assert_eq!(trim_bounds(&vec![true, false, true, false, true, true]), (1, 4));
    assert_eq!(trim_bounds(&vec![true, true]), (2, 2));
    assert_eq!(trim_bounds(&vec![]), (0, 0));
    assert_eq!(trim_bounds(&vec![false]), (0, 1));
    let docs: Vec<String> = vec![
        " Chips to build for.".into(),
        "".into(),
        "   ".into(),
        " Defaults to all. ".into(),
    ];
    assert_eq!(extract_doc(&docs), "Chips to build for. Defaults to all.");
    assert_eq!(extract_doc(&vec![]), "");
    assert_eq!(extract_doc(&vec![" ".to_string()]), "");
}
