//! Reset-and-clock-control configuration.
//!
//! A raw [`RCC`] peripheral handle is constrained once into an [`Rcc`],
//! which carries the bus register proxies and the [`CFGR`] accumulator.
//! The accumulator collects optional target frequencies and is consumed
//! by the resolution step, which validates the request, selects the
//! clock source, and encodes every divider as a hardware bit pattern.

use vstd::prelude::*;

use crate::time::Hertz;

verus! {

/// Frequency of the internal (high-speed) oscillator, in Hertz.
pub const HSI: u32 = 16_000_000;

/// Lowest system frequency the PLL path can synthesize, in Hertz.
pub const PLL_SYSCLK_MIN: u32 = 24_000_000;

/// Highest system frequency the PLL path can synthesize, in Hertz.
pub const PLL_SYSCLK_MAX: u32 = 216_000_000;

/// The ghost state of the configuration accumulator: one optional
/// requested frequency (in Hertz) per clock.
pub ghost struct CfgrView {
    pub hclk: Option<u32>,
    pub pclk1: Option<u32>,
    pub pclk2: Option<u32>,
    pub sysclk: Option<u32>,
}

/// Configuration accumulator: collects up to four optional target
/// frequencies before resolution. No validation happens here; it is
/// deferred to the resolution step.
pub struct CFGR {
    hclk: Option<u32>,
    pclk1: Option<u32>,
    pclk2: Option<u32>,
    sysclk: Option<u32>,
}

impl View for CFGR {
    type V = CfgrView;

    closed spec fn view(&self) -> CfgrView {
        CfgrView {
            hclk: self.hclk,
            pclk1: self.pclk1,
            pclk2: self.pclk2,
            sysclk: self.sysclk,
        }
    }
}

/// The accumulator state after requesting a core-bus frequency.
pub open spec fn with_hclk(v: CfgrView, freq: u32) -> CfgrView {
    CfgrView { hclk: Some(freq), ..v }
}

/// The accumulator state after requesting a peripheral-bus-1 frequency.
pub open spec fn with_pclk1(v: CfgrView, freq: u32) -> CfgrView {
    CfgrView { pclk1: Some(freq), ..v }
}

/// The accumulator state after requesting a peripheral-bus-2 frequency.
pub open spec fn with_pclk2(v: CfgrView, freq: u32) -> CfgrView {
    CfgrView { pclk2: Some(freq), ..v }
}

/// The accumulator state after requesting a system frequency.
pub open spec fn with_sysclk(v: CfgrView, freq: u32) -> CfgrView {
    CfgrView { sysclk: Some(freq), ..v }
}

impl CFGR {
    /// Requests a core-bus (AHB) frequency.
    pub fn hclk(self, freq: Hertz) -> (r: Self)
        ensures
            r@ == with_hclk(self@, freq.0),
    {
        CFGR { hclk: Some(freq.0), ..self }
    }

    /// Requests a peripheral-bus-1 (APB1) frequency.
    pub fn pclk1(self, freq: Hertz) -> (r: Self)
        ensures
            r@ == with_pclk1(self@, freq.0),
    {
        CFGR { pclk1: Some(freq.0), ..self }
    }

    /// Requests a peripheral-bus-2 (APB2) frequency.
    pub fn pclk2(self, freq: Hertz) -> (r: Self)
        ensures
            r@ == with_pclk2(self@, freq.0),
    {
        CFGR { pclk2: Some(freq.0), ..self }
    }

    /// Requests a system clock frequency.
    pub fn sysclk(self, freq: Hertz) -> (r: Self)
        ensures
            r@ == with_sysclk(self@, freq.0),
    {
        CFGR { sysclk: Some(freq.0), ..self }
    }

    /// Resolves the accumulated request into the frozen snapshot and
    /// the divider set to be written to the hardware, or `None` for a
    /// request that cannot be resolved (see [`cfg_valid`]).
    pub fn try_freeze(self) -> (r: Option<(Clocks, DividerSet)>)
        ensures
            r is Some <==> cfg_valid(self@),
            (r matches Some(p) ==> {
                &&& p.0@ == spec_resolved_clocks(self@)
                &&& p.1 == spec_dividers(self@)
                &&& clocks_wf(p.0@)
            }),
    {
        let sys: u32 = match self.sysclk {
            Some(f) => f,
            None => HSI,
        };
        let hclk: u32 = match self.hclk {
            Some(f) => f,
            None => HSI,
        };

        if sys < HSI || hclk > sys {
            return None;
        }

        if sys == HSI && hclk == sys {
            // Oscillator only, no division: every clock is the
            // oscillator itself and every prescaler passes through.
            let clocks = Clocks {
                hclk: Hertz(hclk),
                pclk1: Hertz(hclk),
                pclk2: Hertz(hclk),
                sysclk: Hertz(sys),
            };
            let dividers = DividerSet {
                use_pll: false,
                hpre: 0,
                ppre1: 0,
                ppre2: 0,
                pllm: 0,
                plln: 0,
                pllp: 0,
                latency: flash_latency(sys),
            };
            Some((clocks, dividers))
        } else if sys == HSI && hclk < sys {
            // Oscillator only, core divided: encode the integer ratio
            // through the prescaler table. Both peripheral buses run at
            // the already-divided core-bus frequency, unscaled: this
            // path does not independently cap them at their own
            // maximum rating.
            if hclk == 0 {
                return None;
            }
            let ratio: u32 = sys / hclk;
            let clocks = Clocks {
                hclk: Hertz(hclk),
                pclk1: Hertz(hclk),
                pclk2: Hertz(hclk),
                sysclk: Hertz(sys),
            };
            let dividers = DividerSet {
                use_pll: false,
                hpre: hpre_code(ratio),
                ppre1: 0,
                ppre2: 0,
                pllm: 0,
                plln: 0,
                pllp: 0,
                latency: flash_latency(sys),
            };
            Some((clocks, dividers))
        } else {
            // PLL-driven: the core bus is forced to the system
            // frequency; no additional core division in this path.
            if sys < PLL_SYSCLK_MIN || sys > PLL_SYSCLK_MAX {
                return None;
            }
            let hclk: u32 = sys;

            let mhz: u32 = sys / 1_000_000;
            assert(mhz <= 216) by (nonlinear_arith)
                requires
                    sys <= 216_000_000,
                    mhz == sys / 1_000_000,
            ;
            let (plln, pllp): (u16, u8) = if sys >= 96_000_000 {
                ((mhz * 2) as u16, 0b00)
            } else if sys <= 54_000_000 {
                ((mhz * 8) as u16, 0b11)
            } else {
                ((mhz * 4) as u16, 0b01)
            };

            let ppre1_bits: u8 = if sys > 108_000_000 {
                0b101
            } else if sys > 54_000_000 {
                0b100
            } else {
                0b000
            };
            let ppre2_bits: u8 = if sys > 108_000_000 { 0b100 } else { 0b000 };

            let ppre1: u32 = ppre_divisor(ppre1_bits);
            let ppre2: u32 = ppre_divisor(ppre2_bits);

            let pclk1: u32 = hclk / ppre1;
            let pclk2: u32 = hclk / ppre2;
            assert(pclk1 <= hclk && pclk2 <= hclk) by (nonlinear_arith)
                requires
                    ppre1 >= 1,
                    ppre2 >= 1,
                    pclk1 == hclk / ppre1,
                    pclk2 == hclk / ppre2,
            ;

            let clocks = Clocks {
                hclk: Hertz(hclk),
                pclk1: Hertz(pclk1),
                pclk2: Hertz(pclk2),
                sysclk: Hertz(sys),
            };
            let dividers = DividerSet {
                use_pll: true,
                hpre: 0,
                ppre1: ppre1_bits,
                ppre2: ppre2_bits,
                pllm: PLL_INPUT_DIV,
                plln,
                pllp,
                latency: flash_latency(sys),
            };
            Some((clocks, dividers))
        }
    }

    /// Resolves a request already known to be valid. The hardware
    /// counterpart of this step writes the divider set in the safe
    /// order and, in the PLL path, blocks until the PLL reports lock;
    /// the frequencies themselves are fixed here.
    pub fn freeze(self) -> (c: Clocks)
        requires
            cfg_valid(self@),
        ensures
            c@ == spec_resolved_clocks(self@),
            clocks_wf(c@),
    {
        match self.try_freeze() {
            Some((clocks, _)) => clocks,
            None => unreached(),
        }
    }
}

/// Core-bus prescaler code for an oscillator division ratio (the
/// executable form of [`spec_hpre_code`]).
fn hpre_code(ratio: u32) -> (r: u8)
    ensures
        r == spec_hpre_code(ratio),
{
    if ratio <= 1 {
        0b0111
    } else if ratio == 2 {
        0b1000
    } else if ratio <= 5 {
        0b1001
    } else if ratio <= 11 {
        0b1010
    } else if ratio <= 39 {
        0b1011
    } else if ratio <= 95 {
        0b1100
    } else if ratio <= 191 {
        0b1101
    } else if ratio <= 383 {
        0b1110
    } else {
        0b1111
    }
}

/// Memory wait-state code for a system frequency (the executable form
/// of [`spec_flash_latency`]).
fn flash_latency(sys: u32) -> (r: u8)
    ensures
        r == spec_flash_latency(sys),
{
    if sys <= 30_000_000 {
        0b0000
    } else if sys <= 60_000_000 {
        0b0001
    } else if sys <= 90_000_000 {
        0b0010
    } else if sys <= 120_000_000 {
        0b0011
    } else if sys <= 150_000_000 {
        0b0100
    } else if sys <= 180_000_000 {
        0b0101
    } else if sys <= 210_000_000 {
        0b0110
    } else {
        0b0111
    }
}

/// The divisor a peripheral-bus prescaler code selects (the executable
/// form of [`spec_ppre_divisor`]).
fn ppre_divisor(code: u8) -> (r: u32)
    ensures
        r == spec_ppre_divisor(code),
        r >= 1,
{
    if code == 0b101 {
        8
    } else if code == 0b100 {
        4
    } else {
        1
    }
}

/// The system frequency a request resolves to: the requested value, or
/// the internal oscillator frequency when none was requested.
pub open spec fn requested_sysclk(v: CfgrView) -> u32 {
    match v.sysclk {
        Some(f) => f,
        None => HSI,
    }
}

/// The core-bus frequency a request resolves against: the requested
/// value, or the internal oscillator frequency when none was requested.
pub open spec fn requested_hclk(v: CfgrView) -> u32 {
    match v.hclk {
        Some(f) => f,
        None => HSI,
    }
}

/// When a request can be resolved at all. Anything else is a
/// programming-error-class fault: the system frequency must not fall
/// below the oscillator floor, the core-bus frequency must not exceed
/// the system frequency, a core-bus frequency that the oscillator must
/// be divided down to must be positive, and a system frequency above
/// the oscillator (which engages the PLL) must lie within the range the
/// PLL can synthesize.
pub open spec fn cfg_valid(v: CfgrView) -> bool {
    let sys = requested_sysclk(v);
    let h = requested_hclk(v);
    &&& sys >= HSI
    &&& h <= sys
    &&& (sys == HSI && h < sys ==> h >= 1)
    &&& (sys > HSI ==> PLL_SYSCLK_MIN <= sys && sys <= PLL_SYSCLK_MAX)
}

/// Core-bus prescaler code for a requested oscillator division ratio:
/// a monotone table from ratio to hardware bit pattern.
pub open spec fn spec_hpre_code(ratio: u32) -> u8 {
    if ratio <= 1 {
        0b0111
    } else if ratio == 2 {
        0b1000
    } else if ratio <= 5 {
        0b1001
    } else if ratio <= 11 {
        0b1010
    } else if ratio <= 39 {
        0b1011
    } else if ratio <= 95 {
        0b1100
    } else if ratio <= 191 {
        0b1101
    } else if ratio <= 383 {
        0b1110
    } else {
        0b1111
    }
}

/// Memory wait-state code for a system frequency: one step per
/// 30 MHz band, capped at seven.
pub open spec fn spec_flash_latency(sys: u32) -> u8 {
    if sys <= 30_000_000 {
        0b0000
    } else if sys <= 60_000_000 {
        0b0001
    } else if sys <= 90_000_000 {
        0b0010
    } else if sys <= 120_000_000 {
        0b0011
    } else if sys <= 150_000_000 {
        0b0100
    } else if sys <= 180_000_000 {
        0b0101
    } else if sys <= 210_000_000 {
        0b0110
    } else {
        0b0111
    }
}

/// Peripheral-bus-1 prescaler code in the PLL path, chosen from the
/// system frequency alone.
pub open spec fn spec_ppre1_code(sys: u32) -> u8 {
    if sys > 108_000_000 {
        0b101
    } else if sys > 54_000_000 {
        0b100
    } else {
        0b000
    }
}

/// Peripheral-bus-2 prescaler code in the PLL path, chosen from the
/// system frequency alone.
pub open spec fn spec_ppre2_code(sys: u32) -> u8 {
    if sys > 108_000_000 {
        0b100
    } else {
        0b000
    }
}

/// The clock divisor a peripheral-bus prescaler code selects: codes
/// below `0b100` leave the bus clock undivided; `0b100` divides by
/// four and `0b101` by eight (the only dividing codes this driver
/// emits).
pub open spec fn spec_ppre_divisor(code: u8) -> u32 {
    if code == 0b101 {
        8
    } else if code == 0b100 {
        4
    } else {
        1
    }
}

/// PLL main multiplier for a system frequency, by frequency band. Each
/// band's factor keeps the PLL's internal frequency in range
/// ([`lemma_pll_internal_frequency_in_range`]) given the matching
/// output divisor of [`spec_pllp_code`].
pub open spec fn spec_plln(sys: u32) -> u16 {
    if sys >= 96_000_000 {
        ((sys / 1_000_000) * 2) as u16
    } else if sys <= 54_000_000 {
        ((sys / 1_000_000) * 8) as u16
    } else {
        ((sys / 1_000_000) * 4) as u16
    }
}

/// PLL output-divisor code for a system frequency: 0 (divide by two)
/// at 96 MHz and above, 3 (divide by eight) at 54 MHz and below, and
/// 1 (divide by four) in between.
pub open spec fn spec_pllp_code(sys: u32) -> u8 {
    if sys >= 96_000_000 {
        0b00
    } else if sys <= 54_000_000 {
        0b11
    } else {
        0b01
    }
}

/// PLL input divisor: fixed, so that the oscillator divided by it
/// stays below the PLL's input ceiling.
pub const PLL_INPUT_DIV: u8 = 16;

/// The resolved divider set: every hardware bit pattern the resolution
/// step selects, together with the clock source. `use_pll` selects the
/// clock-source-select field (false = oscillator, true = PLL); the PLL
/// fields are zero whenever the PLL is not engaged.
///
/// To take effect safely the fields must be written in this order: the
/// memory wait-state code first (higher latency must be in force before
/// the core speeds up), then the PLL configuration fields, then the PLL
/// enable bit, then — after the PLL reports lock — the three prescaler
/// codes together with the clock-source select.
#[derive(Clone, Copy, Debug, PartialEq, Eq, Structural)]
pub struct DividerSet {
    /// Whether the PLL, rather than the oscillator, drives the system.
    pub use_pll: bool,
    /// Core-bus (AHB) prescaler code.
    pub hpre: u8,
    /// Peripheral-bus-1 (APB1) prescaler code.
    pub ppre1: u8,
    /// Peripheral-bus-2 (APB2) prescaler code.
    pub ppre2: u8,
    /// PLL input divisor.
    pub pllm: u8,
    /// PLL main multiplier.
    pub plln: u16,
    /// PLL output-divisor code.
    pub pllp: u8,
    /// Memory wait-state code.
    pub latency: u8,
}

/// The divider set a valid request resolves to.
pub open spec fn spec_dividers(v: CfgrView) -> DividerSet {
    let sys = requested_sysclk(v);
    let h = requested_hclk(v);
    if sys == HSI {
        DividerSet {
            use_pll: false,
            hpre: if h == sys {
                0
            } else {
                spec_hpre_code((sys / h) as u32)
            },
            ppre1: 0,
            ppre2: 0,
            pllm: 0,
            plln: 0,
            pllp: 0,
            latency: spec_flash_latency(sys),
        }
    } else {
        DividerSet {
            use_pll: true,
            hpre: 0,
            ppre1: spec_ppre1_code(sys),
            ppre2: spec_ppre2_code(sys),
            pllm: PLL_INPUT_DIV,
            plln: spec_plln(sys),
            pllp: spec_pllp_code(sys),
            latency: spec_flash_latency(sys),
        }
    }
}

/// The ghost state of a frozen snapshot: the four resolved
/// frequencies, in Hertz.
pub ghost struct ClocksView {
    pub hclk: u32,
    pub pclk1: u32,
    pub pclk2: u32,
    pub sysclk: u32,
}

/// The snapshot invariant: neither peripheral bus runs faster than the
/// core bus, and the core bus never runs faster than the system clock.
pub open spec fn clocks_wf(c: ClocksView) -> bool {
    &&& c.pclk1 <= c.hclk
    &&& c.pclk2 <= c.hclk
    &&& c.hclk <= c.sysclk
}

/// The four frequencies a valid request resolves to. In the oscillator
/// paths every bus runs at the (possibly divided) core-bus frequency;
/// in the PLL path the core bus runs at the system frequency and each
/// peripheral bus at the system frequency divided by its prescaler.
pub open spec fn spec_resolved_clocks(v: CfgrView) -> ClocksView {
    let sys = requested_sysclk(v);
    let h = requested_hclk(v);
    if sys == HSI {
        ClocksView { hclk: h, pclk1: h, pclk2: h, sysclk: sys }
    } else {
        ClocksView {
            hclk: sys,
            pclk1: (sys / spec_ppre_divisor(spec_ppre1_code(sys))) as u32,
            pclk2: (sys / spec_ppre_divisor(spec_ppre2_code(sys))) as u32,
            sysclk: sys,
        }
    }
}

/// Frozen clock frequencies.
///
/// The existence of this value indicates that the clock configuration
/// can no longer be changed: the only way to obtain one is through the
/// resolution step, which consumes the accumulator.
#[derive(Clone, Copy)]
pub struct Clocks {
    hclk: Hertz,
    pclk1: Hertz,
    pclk2: Hertz,
    sysclk: Hertz,
}

impl View for Clocks {
    type V = ClocksView;

    closed spec fn view(&self) -> ClocksView {
        ClocksView {
            hclk: self.hclk.0,
            pclk1: self.pclk1.0,
            pclk2: self.pclk2.0,
            sysclk: self.sysclk.0,
        }
    }
}

impl Clocks {
    /// Returns the frequency of the core bus (AHB1).
    pub fn hclk(&self) -> (r: Hertz)
        ensures
            r.0 == self@.hclk,
    {
        self.hclk
    }

    /// Returns the frequency of peripheral bus 1 (APB1).
    pub fn pclk1(&self) -> (r: Hertz)
        ensures
            r.0 == self@.pclk1,
    {
        self.pclk1
    }

    /// Returns the frequency of peripheral bus 2 (APB2).
    pub fn pclk2(&self) -> (r: Hertz)
        ensures
            r.0 == self@.pclk2,
    {
        self.pclk2
    }

    /// Returns the system (core) frequency.
    pub fn sysclk(&self) -> (r: Hertz)
        ensures
            r.0 == self@.sysclk,
    {
        self.sysclk
    }
}

/// Each setter overwrites its own field and nothing else, so of two
/// requests for the same clock only the last one is used.
pub proof fn lemma_setters_last_value_wins(v: CfgrView, f1: u32, f2: u32)
    ensures
        with_hclk(with_hclk(v, f1), f2) == with_hclk(v, f2),
        with_pclk1(with_pclk1(v, f1), f2) == with_pclk1(v, f2),
        with_pclk2(with_pclk2(v, f1), f2) == with_pclk2(v, f2),
        with_sysclk(with_sysclk(v, f1), f2) == with_sysclk(v, f2),
{
}

/// Every request that resolves to the oscillator with an undivided
/// core — whether the two frequencies were left unset or requested as
/// the oscillator frequency itself — yields all four clocks at the
/// oscillator frequency, with every prescaler code zero and the PLL
/// off.
pub proof fn lemma_oscillator_passthrough(v: CfgrView)
    requires
        requested_sysclk(v) == HSI,
        requested_hclk(v) == HSI,
    ensures
        spec_resolved_clocks(v) == (ClocksView { hclk: HSI, pclk1: HSI, pclk2: HSI, sysclk: HSI }),
        spec_dividers(v) == (DividerSet {
            use_pll: false,
            hpre: 0,
            ppre1: 0,
            ppre2: 0,
            pllm: 0,
            plln: 0,
            pllp: 0,
            latency: 0,
        }),
{
}

/// The memory wait-state code never decreases as the system frequency
/// grows: a faster core never gets away with less latency.
pub proof fn lemma_flash_latency_monotone(a: u32, b: u32)
    requires
        a <= b,
    ensures
        spec_flash_latency(a) <= spec_flash_latency(b),
{
}

/// The wait-state table is the clamp formula in disguise: the code is
/// the number of whole or started 30 MHz bands below the system
/// frequency, less one, held between zero and seven.
pub proof fn lemma_flash_latency_formula(sys: u32)
    ensures
        spec_flash_latency(sys) == ({
            let c = (sys + 30_000_000 - 1) / 30_000_000 - 1;
            if c < 0 {
                0
            } else if c > 7 {
                7
            } else {
                c
            }
        }),
{
}

/// The core-bus prescaler table is monotone: a larger division ratio
/// never selects a smaller code.
pub proof fn lemma_hpre_code_monotone(a: u32, b: u32)
    requires
        a <= b,
    ensures
        spec_hpre_code(a) <= spec_hpre_code(b),
{
}

/// In every PLL band the multiplier keeps the PLL's internal frequency
/// in its supported range: the oscillator divided by the input divisor
/// feeds the PLL at one megahertz, so the internal frequency in
/// megahertz is the multiplier itself, and it stays between 192 and
/// 432 for every system frequency the PLL path accepts.
pub proof fn lemma_pll_internal_frequency_in_range(sys: u32)
    requires
        PLL_SYSCLK_MIN <= sys <= PLL_SYSCLK_MAX,
    ensures
        192 <= spec_plln(sys) <= 432,
{
    assert(24 <= sys / 1_000_000 <= 216) by (nonlinear_arith)
        requires
            24_000_000 <= sys <= 216_000_000,
    ;
    if sys >= 96_000_000 {
        assert(sys / 1_000_000 >= 96) by (nonlinear_arith)
            requires
                sys >= 96_000_000,
        ;
    } else if sys > 54_000_000 {
        assert(sys / 1_000_000 >= 54) by (nonlinear_arith)
            requires
                sys > 54_000_000,
        ;
        assert(sys / 1_000_000 <= 95) by (nonlinear_arith)
            requires
                sys < 96_000_000,
        ;
    }
}

/// Raw reset-and-clock-control peripheral handle. On hardware exactly
/// one exists, handed out once by the device layer at startup;
/// constraining it is the only way to reach the bus register proxies
/// and the configuration accumulator.
pub struct RCC {
    _marker: (),
}

impl RCC {
    /// Takes the raw peripheral handle. To keep register access
    /// exclusive, call this once, at startup, before any bus clock is
    /// consumed.
    pub fn take() -> RCC {
        RCC { _marker: () }
    }
}

/// Extension trait that constrains the raw `RCC` peripheral handle.
pub trait RccExt {
    /// Constrains the peripheral so it plays nicely with the other
    /// abstractions: consumes the raw handle and hands out the bus
    /// register proxies together with a fresh, all-unset accumulator.
    fn constrain(self) -> (rcc: Rcc)
        ensures
            rcc.cfgr@ == (CfgrView { hclk: None, pclk1: None, pclk2: None, sysclk: None }),
    ;
}

impl RccExt for RCC {
    fn constrain(self) -> (rcc: Rcc) {
        Rcc {
            ahb1: AHB1 { _0: () },
            apb1: APB1 { _0: () },
            apb2: APB2 { _0: () },
            cfgr: CFGR { hclk: None, pclk1: None, pclk2: None, sysclk: None },
        }
    }
}

/// Constrained RCC peripheral.
pub struct Rcc {
    /// Advanced High-Performance Bus 1 (AHB1) register proxy.
    pub ahb1: AHB1,
    /// Advanced Peripheral Bus 1 (APB1) register proxy.
    pub apb1: APB1,
    /// Advanced Peripheral Bus 2 (APB2) register proxy.
    pub apb2: APB2,
    /// Clock configuration accumulator.
    pub cfgr: CFGR,
}

/// Proxy granting exclusive access to the Advanced High-Performance
/// Bus 1 (AHB1) enable and reset registers. It cannot be duplicated,
/// and only [`RccExt::constrain`] creates one; the register
/// dereferences themselves are a hardware boundary outside this
/// library.
pub struct AHB1 {
    _0: (),
}

/// Proxy granting exclusive access to the Advanced Peripheral Bus 1
/// (APB1) enable and reset registers.
pub struct APB1 {
    _0: (),
}

/// Proxy granting exclusive access to the Advanced Peripheral Bus 2
/// (APB2) enable and reset registers.
pub struct APB2 {
    _0: (),
}

} // verus!
