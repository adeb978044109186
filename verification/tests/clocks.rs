use rcc_clocks::rcc::{Rcc, RccExt, RCC};
use rcc_clocks::time::Hertz;

fn fresh() -> Rcc {
    RCC::take().constrain()
}

#[test]
fn oscillator_passthrough() {
    // system == oscillator, core == system: everything runs at 16 MHz
    // and every prescaler code is zero.
    let cfgr = fresh()
        .cfgr
        .sysclk(Hertz(16_000_000))
        .hclk(Hertz(16_000_000));
    let (clocks, dividers) = cfgr.try_freeze().unwrap();
    assert_eq!(clocks.hclk(), Hertz(16_000_000));
    assert_eq!(clocks.pclk1(), Hertz(16_000_000));
    assert_eq!(clocks.pclk2(), Hertz(16_000_000));
    assert_eq!(clocks.sysclk(), Hertz(16_000_000));
    assert!(!dividers.use_pll);
    assert_eq!(dividers.hpre, 0);
    assert_eq!(dividers.ppre1, 0);
    assert_eq!(dividers.ppre2, 0);
    assert_eq!(dividers.latency, 0);
}

#[test]
fn default_request_is_oscillator_passthrough() {
    let clocks = fresh().cfgr.freeze();
    assert_eq!(clocks.hclk(), Hertz(16_000_000));
    assert_eq!(clocks.pclk1(), Hertz(16_000_000));
    assert_eq!(clocks.pclk2(), Hertz(16_000_000));
    assert_eq!(clocks.sysclk(), Hertz(16_000_000));
}

#[test]
fn oscillator_core_divided() {
    // system == 16 MHz, core == 4 MHz: ratio 4 falls in the 3..=5 row
    // of the prescaler table, and both peripheral buses follow the
    // divided core bus.
    let cfgr = fresh()
        .cfgr
        .sysclk(Hertz(16_000_000))
        .hclk(Hertz(4_000_000));
    let (clocks, dividers) = cfgr.try_freeze().unwrap();
    assert_eq!(dividers.hpre, 0b1001);
    assert!(!dividers.use_pll);
    assert_eq!(clocks.hclk(), Hertz(4_000_000));
    assert_eq!(clocks.pclk1(), Hertz(4_000_000));
    assert_eq!(clocks.pclk2(), Hertz(4_000_000));
    assert_eq!(clocks.sysclk(), Hertz(16_000_000));
}

#[test]
fn core_prescaler_table_rows() {
    // One request per row of the ratio -> code table.
    let rows: [(u32, u8); 9] = [
        (9_000_000, 0b0111),  // ratio 1
        (8_000_000, 0b1000),  // ratio 2
        (4_000_000, 0b1001),  // ratio 4
        (2_000_000, 0b1010),  // ratio 8
        (1_000_000, 0b1011),  // ratio 16
        (400_000, 0b1100),    // ratio 40
        (160_000, 0b1101),    // ratio 100
        (80_000, 0b1110),     // ratio 200
        (40_000, 0b1111),     // ratio 400
    ];
    for (hclk, code) in rows {
        let cfgr = fresh().cfgr.sysclk(Hertz(16_000_000)).hclk(Hertz(hclk));
        let (clocks, dividers) = cfgr.try_freeze().unwrap();
        assert_eq!(dividers.hpre, code);
        assert_eq!(clocks.hclk(), Hertz(hclk));
        assert_eq!(clocks.pclk1(), Hertz(hclk));
        assert_eq!(clocks.pclk2(), Hertz(hclk));
    }
}

#[test]
fn pll_180_mhz() {
    // 180 MHz engages the PLL: core at the system frequency,
    // peripheral bus 1 at an eighth, peripheral bus 2 at a quarter,
    // five wait-states.
    let cfgr = fresh().cfgr.sysclk(Hertz(180_000_000));
    let (clocks, dividers) = cfgr.try_freeze().unwrap();
    assert!(dividers.use_pll);
    assert_eq!(clocks.hclk(), Hertz(180_000_000));
    assert_eq!(clocks.sysclk(), Hertz(180_000_000));
    assert_eq!(dividers.ppre1, 0b101);
    assert_eq!(clocks.pclk1(), Hertz(22_500_000));
    assert_eq!(dividers.ppre2, 0b100);
    assert_eq!(clocks.pclk2(), Hertz(45_000_000));
    assert_eq!(dividers.latency, 5);
    assert_eq!(dividers.hpre, 0);
    assert_eq!(dividers.pllm, 16);
    assert_eq!(dividers.plln, 360);
    assert_eq!(dividers.pllp, 0);
}

#[test]
fn pll_band_boundaries() {
    // High band: multiplier x2, output divisor code 0.
    let (_, d) = fresh().cfgr.sysclk(Hertz(96_000_000)).try_freeze().unwrap();
    assert_eq!((d.pllm, d.plln, d.pllp), (16, 192, 0b00));

    // Low band: multiplier x8, output divisor code 3.
    let (c, d) = fresh().cfgr.sysclk(Hertz(54_000_000)).try_freeze().unwrap();
    assert_eq!((d.pllm, d.plln, d.pllp), (16, 432, 0b11));
    assert_eq!((d.ppre1, d.ppre2), (0, 0));
    assert_eq!(c.pclk1(), Hertz(54_000_000));
    assert_eq!(c.pclk2(), Hertz(54_000_000));

    // Middle band: multiplier x4, output divisor code 1.
    let (c, d) = fresh().cfgr.sysclk(Hertz(55_000_000)).try_freeze().unwrap();
    assert_eq!((d.pllm, d.plln, d.pllp), (16, 220, 0b01));
    assert_eq!((d.ppre1, d.ppre2), (0b100, 0));
    assert_eq!(c.pclk1(), Hertz(13_750_000));
    assert_eq!(c.pclk2(), Hertz(55_000_000));
}

#[test]
fn peripheral_prescaler_thresholds() {
    // At exactly 108 MHz bus 1 is divided by four and bus 2 left alone;
    // one Hertz above, bus 1 is divided by eight and bus 2 by four.
    let (c, d) = fresh().cfgr.sysclk(Hertz(108_000_000)).try_freeze().unwrap();
    assert_eq!((d.ppre1, d.ppre2), (0b100, 0));
    assert_eq!(c.pclk1(), Hertz(27_000_000));
    assert_eq!(c.pclk2(), Hertz(108_000_000));

    let (c, d) = fresh().cfgr.sysclk(Hertz(108_000_001)).try_freeze().unwrap();
    assert_eq!((d.ppre1, d.ppre2), (0b101, 0b100));
    assert_eq!(c.pclk1(), Hertz(13_500_000));
    assert_eq!(c.pclk2(), Hertz(27_000_000));
}

#[test]
fn pll_range_boundaries() {
    // 216 MHz is the highest system frequency the PLL path accepts.
    let (clocks, dividers) = fresh().cfgr.sysclk(Hertz(216_000_000)).try_freeze().unwrap();
    assert_eq!(clocks.sysclk(), Hertz(216_000_000));
    assert_eq!(dividers.plln, 432);
    assert_eq!(dividers.latency, 7);

    // One megahertz above, the request is rejected.
    assert!(fresh().cfgr.sysclk(Hertz(217_000_000)).try_freeze().is_none());

    // 24 MHz is the lowest system frequency the PLL path accepts.
    let (_, d) = fresh().cfgr.sysclk(Hertz(24_000_000)).try_freeze().unwrap();
    assert_eq!((d.plln, d.pllp), (192, 0b11));

    // Between the oscillator and the PLL floor, the request is rejected.
    assert!(fresh().cfgr.sysclk(Hertz(20_000_000)).try_freeze().is_none());
}

#[test]
fn below_oscillator_floor_is_rejected() {
    assert!(fresh().cfgr.sysclk(Hertz(15_999_999)).try_freeze().is_none());
    assert!(fresh().cfgr.sysclk(Hertz(0)).try_freeze().is_none());
}

#[test]
fn core_above_system_is_rejected() {
    let cfgr = fresh()
        .cfgr
        .sysclk(Hertz(16_000_000))
        .hclk(Hertz(17_000_000));
    assert!(cfgr.try_freeze().is_none());
}

#[test]
fn zero_core_frequency_is_rejected() {
    let cfgr = fresh().cfgr.sysclk(Hertz(16_000_000)).hclk(Hertz(0));
    assert!(cfgr.try_freeze().is_none());
}

#[test]
fn setters_last_value_wins() {
    // Setting the same field twice keeps only the later value.
    let cfgr = fresh()
        .cfgr
        .sysclk(Hertz(180_000_000))
        .hclk(Hertz(8_000_000))
        .sysclk(Hertz(16_000_000))
        .hclk(Hertz(4_000_000));
    let (clocks, dividers) = cfgr.try_freeze().unwrap();
    assert_eq!(clocks.sysclk(), Hertz(16_000_000));
    assert_eq!(clocks.hclk(), Hertz(4_000_000));
    assert_eq!(dividers.hpre, 0b1001);
}

#[test]
fn peripheral_requests_do_not_steer_resolution() {
    // Requested peripheral-bus frequencies are not honored in the
    // supported paths: the codes depend on the system frequency alone.
    let plain = fresh().cfgr.sysclk(Hertz(180_000_000)).try_freeze().unwrap();
    let with_requests = fresh()
        .cfgr
        .sysclk(Hertz(180_000_000))
        .pclk1(Hertz(1_000_000))
        .pclk2(Hertz(2_000_000))
        .try_freeze()
        .unwrap();
    assert_eq!(plain.1, with_requests.1);
    assert_eq!(plain.0.pclk1(), with_requests.0.pclk1());
    assert_eq!(plain.0.pclk2(), with_requests.0.pclk2());
}

#[test]
fn wait_states_step_by_band_and_never_decrease() {
    let bands: [(u32, u8); 8] = [
        (30_000_000, 0),
        (60_000_000, 1),
        (90_000_000, 2),
        (120_000_000, 3),
        (150_000_000, 4),
        (180_000_000, 5),
        (210_000_000, 6),
        (216_000_000, 7),
    ];
    let mut last: u8 = 0;
    for (sys, code) in bands {
        let (_, dividers) = fresh().cfgr.sysclk(Hertz(sys)).try_freeze().unwrap();
        assert_eq!(dividers.latency, code);
        assert!(dividers.latency >= last);
        last = dividers.latency;
    }
}

#[test]
fn snapshot_is_copyable_and_immutable() {
    let clocks = fresh().cfgr.sysclk(Hertz(180_000_000)).freeze();
    let copy = clocks;
    assert_eq!(copy.hclk(), clocks.hclk());
    assert_eq!(copy.pclk1(), clocks.pclk1());
    assert_eq!(copy.pclk2(), clocks.pclk2());
    assert_eq!(copy.sysclk(), clocks.sysclk());
}

#[test]
fn proxies_are_handed_out_together() {
    // Constraining the peripheral yields the three bus proxies and the
    // accumulator in one step; the proxies are consumed here only to
    // show they exist.
    let rcc = fresh();
    let _ahb1 = rcc.ahb1;
    let _apb1 = rcc.apb1;
    let _apb2 = rcc.apb2;
    let clocks = rcc.cfgr.freeze();
    assert_eq!(clocks.sysclk(), Hertz(16_000_000));
}
