//! Board clock tree (STM32F446): 8 MHz HSE crystal, no LSE, system clock at the
//! chip's maximum of 180 MHz.
//!
//! The settings are held as plain numbers: each prescaler and multiplier is its
//! factor, so the resulting frequencies can be computed and checked against
//! the chip's limits.
use vstd::prelude::*;

verus! {

/// Frequency of the internal high-speed oscillator.
pub const HSI_HZ: u32 = 16_000_000;

/// Frequency of the board's HSE crystal.
pub const HSE_CRYSTAL_HZ: u32 = 8_000_000;

/// Highest system clock the chip allows.
pub const SYSCLK_MAX_HZ: u32 = 180_000_000;

/// How the HSE pin is driven.
#[derive(Clone, Copy, Debug, PartialEq, Eq, Structural)]
pub enum HseMode {
    /// A crystal driven by the on-chip oscillator.
    Oscillator,
    /// An external clock signal fed in directly.
    Bypass,
}

/// External high-speed oscillator settings.
#[derive(Clone, Copy, Debug, PartialEq, Eq, Structural)]
pub struct Hse {
    pub freq_hz: u32,
    pub mode: HseMode,
}

/// Clock of the real-time clock.
#[derive(Clone, Copy, Debug, PartialEq, Eq, Structural)]
pub enum RtcSource {
    Disabled,
    Lsi,
    Lse,
    Hse,
}

/// Low-speed clocks (RTC domain).
#[derive(Clone, Copy, Debug, PartialEq, Eq, Structural)]
pub struct LowSpeedClocks {
    pub rtc: RtcSource,
    pub lsi_enabled: bool,
    pub lse_enabled: bool,
}

/// RTC off, LSI and LSE off.
pub open spec fn low_speed_off() -> LowSpeedClocks {
    LowSpeedClocks { rtc: RtcSource::Disabled, lsi_enabled: false, lse_enabled: false }
}

/// Input of the main PLL.
#[derive(Clone, Copy, Debug, PartialEq, Eq, Structural)]
pub enum PllSource {
    Hsi,
    Hse,
}

/// Division factor of the PLL's P output.
#[derive(Clone, Copy, Debug, PartialEq, Eq, Structural)]
pub enum PllPDiv {
    Div2,
    Div4,
    Div6,
    Div8,
}

/// The factor a P divider divides by.
pub open spec fn pllp_factor(d: PllPDiv) -> int {
    match d {
        PllPDiv::Div2 => 2,
        PllPDiv::Div4 => 4,
        PllPDiv::Div6 => 6,
        PllPDiv::Div8 => 8,
    }
}

/// Main PLL: the input is divided by `prediv` (M), multiplied by `mul` (N),
/// and each output divides the VCO by its divider (P, Q, R; `None` = output
/// off).
#[derive(Clone, Copy, Debug, PartialEq, Eq, Structural)]
pub struct Pll {
    pub prediv: u8,
    pub mul: u16,
    pub divp: Option<PllPDiv>,
    pub divq: Option<u8>,
    pub divr: Option<u8>,
}

/// Source of the system clock.
#[derive(Clone, Copy, Debug, PartialEq, Eq, Structural)]
pub enum Sysclk {
    Hsi,
    Hse,
    Pll1P,
}

/// AHB prescaler.
#[derive(Clone, Copy, Debug, PartialEq, Eq, Structural)]
pub enum AhbPrescaler {
    Div1,
    Div2,
    Div4,
    Div8,
    Div16,
    Div64,
    Div128,
    Div256,
    Div512,
}

/// The factor an AHB prescaler divides by.
pub open spec fn ahb_factor(p: AhbPrescaler) -> int {
    match p {
        AhbPrescaler::Div1 => 1,
        AhbPrescaler::Div2 => 2,
        AhbPrescaler::Div4 => 4,
        AhbPrescaler::Div8 => 8,
        AhbPrescaler::Div16 => 16,
        AhbPrescaler::Div64 => 64,
        AhbPrescaler::Div128 => 128,
        AhbPrescaler::Div256 => 256,
        AhbPrescaler::Div512 => 512,
    }
}

/// APB prescaler.
#[derive(Clone, Copy, Debug, PartialEq, Eq, Structural)]
pub enum ApbPrescaler {
    Div1,
    Div2,
    Div4,
    Div8,
    Div16,
}

/// The factor an APB prescaler divides by.
pub open spec fn apb_factor(p: ApbPrescaler) -> int {
    match p {
        ApbPrescaler::Div1 => 1,
        ApbPrescaler::Div2 => 2,
        ApbPrescaler::Div4 => 4,
        ApbPrescaler::Div8 => 8,
        ApbPrescaler::Div16 => 16,
    }
}

/// Clock tree settings.
#[derive(Clone, Copy, Debug, PartialEq, Eq, Structural)]
pub struct ClockConfig {
    /// Whether the internal high-speed oscillator runs.
    pub hsi_enabled: bool,
    pub hse: Option<Hse>,
    pub ls: LowSpeedClocks,
    pub pll_src: PllSource,
    pub pll: Option<Pll>,
    pub sys: Sysclk,
    /// HCLK = SYSCLK / AHB factor.
    pub ahb_pre: AhbPrescaler,
    /// PCLK1 = HCLK / APB1 factor.
    pub apb1_pre: ApbPrescaler,
    /// PCLK2 = HCLK / APB2 factor.
    pub apb2_pre: ApbPrescaler,
}

impl Default for ClockConfig {
    /// The reset clock tree: the system runs from the HSI, the RTC from the
    /// LSI, nothing else is on and no bus is divided.
    fn default() -> (c: Self)
        ensures
            c.hsi_enabled,
            c.hse is None,
            c.pll is None,
            c.sys == Sysclk::Hsi,
            c.pll_src == PllSource::Hsi,
            c.ls == (LowSpeedClocks { rtc: RtcSource::Lsi, lsi_enabled: true, lse_enabled: false }),
            c.ahb_pre == AhbPrescaler::Div1,
            c.apb1_pre == ApbPrescaler::Div1,
            c.apb2_pre == ApbPrescaler::Div1,
            sysclk_hz(c) == HSI_HZ,
    {
        ClockConfig {
            hsi_enabled: true,
            hse: None,
            ls: LowSpeedClocks { rtc: RtcSource::Lsi, lsi_enabled: true, lse_enabled: false },
            pll_src: PllSource::Hsi,
            pll: None,
            sys: Sysclk::Hsi,
            ahb_pre: AhbPrescaler::Div1,
            apb1_pre: ApbPrescaler::Div1,
            apb2_pre: ApbPrescaler::Div1,
        }
    }
}

/// Frequency entering the PLL (0 when its source is an HSE that is off).
pub open spec fn pll_input_hz(c: ClockConfig) -> int {
    match c.pll_src {
        PllSource::Hsi => HSI_HZ as int,
        PllSource::Hse => match c.hse {
            Some(h) => h.freq_hz as int,
            None => 0,
        },
    }
}

/// PLL VCO input frequency (after M).
pub open spec fn vco_in_hz(c: ClockConfig, p: Pll) -> int {
    pll_input_hz(c) / (p.prediv as int)
}

/// PLL VCO output frequency (after N).
pub open spec fn vco_out_hz(c: ClockConfig, p: Pll) -> int {
    vco_in_hz(c, p) * p.mul
}

/// System clock frequency (0 when the selected source is off).
pub open spec fn sysclk_hz(c: ClockConfig) -> int {
    match c.sys {
        Sysclk::Hsi => HSI_HZ as int,
        Sysclk::Hse => match c.hse {
            Some(h) => h.freq_hz as int,
            None => 0,
        },
        Sysclk::Pll1P => match c.pll {
            Some(p) => match p.divp {
                Some(d) => vco_out_hz(c, p) / pllp_factor(d),
                None => 0,
            },
            None => 0,
        },
    }
}

/// AHB clock (HCLK).
pub open spec fn hclk_hz(c: ClockConfig) -> int {
    sysclk_hz(c) / ahb_factor(c.ahb_pre)
}

/// APB1 peripheral clock.
pub open spec fn pclk1_hz(c: ClockConfig) -> int {
    hclk_hz(c) / apb_factor(c.apb1_pre)
}

/// APB2 peripheral clock.
pub open spec fn pclk2_hz(c: ClockConfig) -> int {
    hclk_hz(c) / apb_factor(c.apb2_pre)
}

/// The STM32F446 operating limits: HSE 4..=26 MHz, PLL M in 2..=63 and
/// N in 50..=432, VCO input 1..=2 MHz, VCO output 100..=432 MHz, SYSCLK and
/// HCLK at most 180 MHz, PCLK1 at most 45 MHz, PCLK2 at most 90 MHz.
pub open spec fn within_chip_limits(c: ClockConfig) -> bool {
    &&& (c.hse matches Some(h) ==> 4_000_000 <= h.freq_hz <= 26_000_000)
    &&& (c.pll matches Some(p) ==> {
        &&& 2 <= p.prediv <= 63
        &&& 50 <= p.mul <= 432
        &&& 1_000_000 <= vco_in_hz(c, p) <= 2_000_000
        &&& 100_000_000 <= vco_out_hz(c, p) <= 432_000_000
    })
    &&& 0 < sysclk_hz(c) <= SYSCLK_MAX_HZ
    &&& hclk_hz(c) <= SYSCLK_MAX_HZ
    &&& pclk1_hz(c) <= 45_000_000
    &&& pclk2_hz(c) <= 90_000_000
}

/// The board's clock tree: HSE crystal 8 MHz, no low-speed clocks,
/// PLL from HSE with M = 4, N = 180, P = 2 (VCO in 2 MHz, VCO out 360 MHz,
/// SYSCLK 180 MHz), AHB undivided, APB1 / 4, APB2 / 2. The HSI is left as
/// `hsi_enabled` says.
pub open spec fn board_clock_config(hsi_enabled: bool) -> ClockConfig {
    ClockConfig {
        hsi_enabled,
        hse: Some(Hse { freq_hz: HSE_CRYSTAL_HZ, mode: HseMode::Oscillator }),
        ls: low_speed_off(),
        pll_src: PllSource::Hse,
        pll: Some(Pll { prediv: 4, mul: 180, divp: Some(PllPDiv::Div2), divq: None, divr: None }),
        sys: Sysclk::Pll1P,
        ahb_pre: AhbPrescaler::Div1,
        apb1_pre: ApbPrescaler::Div4,
        apb2_pre: ApbPrescaler::Div2,
    }
}

/// Sets the board's clock tree into `config`; the HSI setting is kept.
pub fn apply_clock_config(config: &mut ClockConfig)
    ensures
        *final(config) == board_clock_config(old(config).hsi_enabled),
        sysclk_hz(*final(config)) == 180_000_000,
        hclk_hz(*final(config)) == 180_000_000,
        pclk1_hz(*final(config)) == 45_000_000,
        pclk2_hz(*final(config)) == 90_000_000,
        within_chip_limits(*final(config)),
{
    config.hse = Some(Hse { freq_hz: HSE_CRYSTAL_HZ, mode: HseMode::Oscillator });
    config.ls = LowSpeedClocks { rtc: RtcSource::Disabled, lsi_enabled: false, lse_enabled: false };
    config.pll_src = PllSource::Hse;
    config.pll = Some(Pll { prediv: 4, mul: 180, divp: Some(PllPDiv::Div2), divq: None, divr: None });
    config.sys = Sysclk::Pll1P;
    config.ahb_pre = AhbPrescaler::Div1;
    config.apb1_pre = ApbPrescaler::Div4;
    config.apb2_pre = ApbPrescaler::Div2;
    proof {
        lemma_board_clocks(config.hsi_enabled);
    }
}

/// The board's clock tree runs the system at 180 MHz, the chip's maximum,
/// with the VCO at 2 MHz in and 360 MHz out, HCLK 180 MHz, PCLK1 45 MHz and
/// PCLK2 90 MHz, all within the chip's limits.
pub proof fn lemma_board_clocks(hsi_enabled: bool)
    ensures
        ({
            let c = board_clock_config(hsi_enabled);
            &&& vco_in_hz(c, c.pll.unwrap()) == 2_000_000
            &&& vco_out_hz(c, c.pll.unwrap()) == 360_000_000
            &&& sysclk_hz(c) == SYSCLK_MAX_HZ
            &&& hclk_hz(c) == 180_000_000
            &&& pclk1_hz(c) == 45_000_000
            &&& pclk2_hz(c) == 90_000_000
            &&& within_chip_limits(c)
        }),
{
    let c = board_clock_config(hsi_enabled);
    assert(pll_input_hz(c) == 8_000_000);
    assert(vco_in_hz(c, c.pll.unwrap()) == 2_000_000);
    assert(vco_out_hz(c, c.pll.unwrap()) == 360_000_000);
    assert(sysclk_hz(c) == 180_000_000);
}

} // verus!
