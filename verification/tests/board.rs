use custom_controller::board::{
    apply_clock_config, AhbPrescaler, ApbPrescaler, ClockConfig, Hse, HseMode, LowSpeedClocks, Pll,
    PllPDiv, PllSource, RtcSource, Sysclk, HSI_HZ,
};

#[test]
fn default_clock_tree_runs_from_hsi() {
    let c = ClockConfig::default();
    assert!(c.hsi_enabled);
    assert_eq!(c.hse, None);
    assert_eq!(c.pll, None);
    assert_eq!(c.sys, Sysclk::Hsi);
    assert_eq!(c.pll_src, PllSource::Hsi);
    assert_eq!(c.ls, LowSpeedClocks { rtc: RtcSource::Lsi, lsi_enabled: true, lse_enabled: false });
    assert_eq!((c.ahb_pre, c.apb1_pre, c.apb2_pre), (AhbPrescaler::Div1, ApbPrescaler::Div1, ApbPrescaler::Div1));
    assert_eq!(HSI_HZ, 16_000_000);
}

#[test]
fn board_clock_tree_is_applied() {
    let mut c = ClockConfig::default();
    apply_clock_config(&mut c);
    assert!(c.hsi_enabled);
    assert_eq!(c.hse, Some(Hse { freq_hz: 8_000_000, mode: HseMode::Oscillator }));
    assert_eq!(c.ls, LowSpeedClocks { rtc: RtcSource::Disabled, lsi_enabled: false, lse_enabled: false });
    assert_eq!(c.pll_src, PllSource::Hse);
    assert_eq!(c.pll, Some(Pll { prediv: 4, mul: 180, divp: Some(PllPDiv::Div2), divq: None, divr: None }));
    assert_eq!(c.sys, Sysclk::Pll1P);
    assert_eq!((c.ahb_pre, c.apb1_pre, c.apb2_pre), (AhbPrescaler::Div1, ApbPrescaler::Div4, ApbPrescaler::Div2));
}

#[test]
fn board_clock_frequencies() {
    let mut c = ClockConfig::default();
    apply_clock_config(&mut c);
    let pll = c.pll.unwrap();
    let vco_in = c.hse.unwrap().freq_hz / pll.prediv as u32;
    let vco_out = vco_in * pll.mul as u32;
    assert_eq!(pll.divp, Some(PllPDiv::Div2));
    let sysclk = vco_out / 2;
    assert_eq!(vco_in, 2_000_000);
    assert_eq!(vco_out, 360_000_000);
    assert_eq!(sysclk, 180_000_000);
    assert_eq!(sysclk / 4, 45_000_000);
    assert_eq!(sysclk / 2, 90_000_000);
}

#[test]
fn apply_keeps_hsi_setting() {
    let mut c = ClockConfig::default();
    c.hsi_enabled = false;
    apply_clock_config(&mut c);
    assert!(!c.hsi_enabled);
}
