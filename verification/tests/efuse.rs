use esp_preempt::efuse::{Attenuation, Efuse, EfuseBlock, EfuseFields};

fn fields() -> EfuseFields {
    EfuseFields {
        spi_boot_crypt_cnt: 0,
        wdt_delay_sel: 0,
        blk_version_major: 0,
        blk_version_minor: 0,
        adc1_init_code_atten0: 0,
        adc1_init_code_atten3: 0,
        adc1_cal_vol_atten0: 0,
        adc1_cal_vol_atten3: 0,
    }
}

#[test]
fn flash_encryption_is_on_for_an_odd_count_of_bits() {
    let expected = [false, true, true, false, true, false, false, true];
    for (cnt, want) in expected.iter().enumerate() {
        let efuse = Efuse::new(EfuseFields {
            spi_boot_crypt_cnt: cnt as u8,
            ..fields()
        });
        assert_eq!(efuse.flash_encryption(), *want, "count {cnt}");
    }
    let efuse = Efuse::new(EfuseFields {
        spi_boot_crypt_cnt: 0xfe,
        ..fields()
    });
    assert!(efuse.flash_encryption());
}

#[test]
fn versions() {
    let efuse = Efuse::new(EfuseFields {
        wdt_delay_sel: 3,
        blk_version_major: 0,
        blk_version_minor: 2,
        ..fields()
    });
    assert_eq!(efuse.rwdt_multiplier(), 3);
    assert_eq!(efuse.block_version(), (0, 2));
    assert_eq!(efuse.rtc_calib_version(), 1);
    let efuse = Efuse::new(EfuseFields {
        blk_version_major: 1,
        ..fields()
    });
    assert_eq!(efuse.rtc_calib_version(), 0);
    assert_eq!(efuse.rtc_calib_init_code(0, Attenuation::_0dB), None);
    assert_eq!(efuse.rtc_calib_cal_code(0, Attenuation::_11dB), None);
    assert_eq!(efuse.rtc_calib_cal_mv(0, Attenuation::_0dB), 400);
    assert_eq!(efuse.rtc_calib_cal_mv(0, Attenuation::_11dB), 1370);
}

#[test]
fn init_code() {
    let efuse = Efuse::new(EfuseFields {
        adc1_init_code_atten0: 0x15,
        adc1_init_code_atten3: 9,
        ..fields()
    });
    assert_eq!(efuse.rtc_calib_init_code(0, Attenuation::_0dB), Some(2181));
    assert_eq!(efuse.rtc_calib_init_code(0, Attenuation::_11dB), Some(2190));
    // bit 7 is the sign
    let efuse = Efuse::new(EfuseFields {
        adc1_init_code_atten0: 0x80 | 0x15,
        adc1_init_code_atten3: 31,
        ..fields()
    });
    assert_eq!(efuse.rtc_calib_init_code(0, Attenuation::_0dB), Some(2139));
    assert_eq!(efuse.rtc_calib_init_code(0, Attenuation::_11dB), Some(2170));
    let efuse = Efuse::new(EfuseFields {
        adc1_init_code_atten0: 0xff,
        adc1_init_code_atten3: 0xff,
        ..fields()
    });
    assert_eq!(efuse.rtc_calib_init_code(0, Attenuation::_0dB), Some(2033));
    assert_eq!(efuse.rtc_calib_init_code(0, Attenuation::_11dB), Some(2288));
}

#[test]
fn cal_code() {
    let efuse = Efuse::new(EfuseFields {
        adc1_cal_vol_atten0: 0x0a,
        adc1_cal_vol_atten3: 0x2c,
        ..fields()
    });
    assert_eq!(efuse.rtc_calib_cal_code(0, Attenuation::_0dB), Some(1550));
    // bit 5 of the first distance is clear: the second is added whole
    assert_eq!(
        efuse.rtc_calib_cal_code(0, Attenuation::_11dB),
        Some(1550 + 0x2c - 123)
    );
    let efuse = Efuse::new(EfuseFields {
        adc1_cal_vol_atten0: 0x2a,
        adc1_cal_vol_atten3: 0x2c,
        ..fields()
    });
    assert_eq!(efuse.rtc_calib_cal_code(0, Attenuation::_0dB), Some(1582));
    // bit 5 of the first distance is set: five bits of the second are taken off
    assert_eq!(
        efuse.rtc_calib_cal_code(0, Attenuation::_11dB),
        Some(1582 - 0x0c - 123)
    );
    let efuse = Efuse::new(EfuseFields {
        adc1_cal_vol_atten0: 0xff,
        adc1_cal_vol_atten3: 0xff,
        ..fields()
    });
    assert_eq!(efuse.rtc_calib_cal_code(0, Attenuation::_0dB), Some(1413));
    assert_eq!(
        efuse.rtc_calib_cal_code(0, Attenuation::_11dB),
        Some(1413 - 31 - 123)
    );
}

#[test]
fn block_addresses() {
    assert_eq!(EfuseBlock::Block0.address(), 0x6000_882c);
    assert_eq!(EfuseBlock::Block1.address(), 0x6000_8834);
    assert_eq!(EfuseBlock::Block2.address(), 0x6000_8840);
    assert_eq!(EfuseBlock::Block3.address(), 0x6000_8860);
    assert_eq!(EfuseBlock::from_repr(2), Some(EfuseBlock::Block2));
    assert_eq!(EfuseBlock::from_repr(4), None);
}
