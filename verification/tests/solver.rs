use stm32f30x_hal::device::Peripherals;
use stm32f30x_hal::rcc::{HseBypass, HseDivider, RccExt, CFGR};
use stm32f30x_hal::solver::{solve, ClockError, Oscillator, Request, Solution};
use stm32f30x_hal::time::Hertz;

fn cfgr() -> CFGR {
    Peripherals::new().rcc().unwrap().constrain().cfgr
}

#[test]
fn empty_request_runs_everything_at_8_mhz() {
    let solution = cfgr().solve();
    assert_eq!(
        solution,
        Ok(Solution {
            pllmul_bits: None,
            hpre_bits: 0b0111,
            ppre1_bits: 0b011,
            ppre2_bits: 0b011,
            latency: 0,
            sysclk: 8_000_000,
            hclk: 8_000_000,
            pclk1: 8_000_000,
            pclk2: 8_000_000,
            ppre1: 1,
            ppre2: 1,
        })
    );
}

#[test]
fn sysclk_48_mhz_without_pclk1_breaks_the_apb1_limit() {
    let solution = cfgr().sysclk(Hertz(48_000_000)).solve();
    assert_eq!(solution, Err(ClockError::Pclk1TooHigh));
}

#[test]
fn sysclk_48_mhz_with_halved_apb1() {
    let solution = cfgr()
        .sysclk(Hertz(48_000_000))
        .pclk1(Hertz(24_000_000))
        .solve();
    assert_eq!(
        solution,
        Ok(Solution {
            pllmul_bits: Some(10),
            hpre_bits: 0b0111,
            ppre1_bits: 0b100,
            ppre2_bits: 0b011,
            latency: 1,
            sysclk: 48_000_000,
            hclk: 48_000_000,
            pclk1: 24_000_000,
            pclk2: 48_000_000,
            ppre1: 2,
            ppre2: 1,
        })
    );
}

#[test]
fn internal_oscillator_reaches_64_mhz() {
    let solution = cfgr()
        .sysclk(Hertz(64_000_000))
        .pclk1(Hertz(32_000_000))
        .solve()
        .unwrap();
    assert_eq!(solution.pllmul_bits, Some(14));
    assert_eq!(solution.sysclk, 64_000_000);
    assert_eq!(solution.hclk, 64_000_000);
    assert_eq!(solution.pclk1, 32_000_000);
    assert_eq!(solution.pclk2, 64_000_000);
    assert_eq!(solution.latency, 2);
}

#[test]
fn multiplier_is_kept_within_2_and_16() {
    // too little is asked for: the multiplier stays at 2 and the PLL off
    let low = cfgr().sysclk(Hertz(1)).solve().unwrap();
    assert_eq!(low.pllmul_bits, None);
    assert_eq!(low.sysclk, 8_000_000);
    // too much is asked for: the multiplier stops at 16
    let high = cfgr()
        .sysclk(Hertz(u32::MAX))
        .pclk1(Hertz(32_000_000))
        .solve()
        .unwrap();
    assert_eq!(high.pllmul_bits, Some(14));
    assert_eq!(high.sysclk, 64_000_000);
}

#[test]
fn internal_oscillator_counts_halved() {
    // 2 * 20 MHz / 8 MHz = 5, and 5 * 8 MHz / 2 = 20 MHz
    let solution = cfgr().sysclk(Hertz(20_000_000)).solve().unwrap();
    assert_eq!(solution.pllmul_bits, Some(3));
    assert_eq!(solution.sysclk, 20_000_000);
    // 2 * 21 MHz / 8 MHz = 5 as well
    let rounded = cfgr().sysclk(Hertz(21_000_000)).solve().unwrap();
    assert_eq!(rounded.pllmul_bits, Some(3));
    assert_eq!(rounded.sysclk, 20_000_000);
}

#[test]
fn external_oscillator_reaches_72_mhz() {
    let solution = cfgr()
        .hse(Hertz(8_000_000), HseDivider::NoDivision, HseBypass::Disable)
        .sysclk(Hertz(72_000_000))
        .pclk1(Hertz(36_000_000))
        .solve();
    assert_eq!(
        solution,
        Ok(Solution {
            pllmul_bits: Some(7),
            hpre_bits: 0b0111,
            ppre1_bits: 0b100,
            ppre2_bits: 0b011,
            latency: 2,
            sysclk: 72_000_000,
            hclk: 72_000_000,
            pclk1: 36_000_000,
            pclk2: 72_000_000,
            ppre1: 2,
            ppre2: 1,
        })
    );
}

#[test]
fn external_oscillator_is_divided_first() {
    // 16 MHz / 2 = 8 MHz, times 6
    let solution = cfgr()
        .hse(Hertz(16_000_000), HseDivider::DivideBy2, HseBypass::Enable)
        .sysclk(Hertz(48_000_000))
        .pclk1(Hertz(24_000_000))
        .solve()
        .unwrap();
    assert_eq!(solution.pllmul_bits, Some(4));
    assert_eq!(solution.sysclk, 48_000_000);
    // 25 MHz / 7 = 3 571 428 Hz, times 72 000 000 / 3 571 428 = 20, kept at 16
    let odd = cfgr()
        .hse(Hertz(25_000_000), HseDivider::DivideBy7, HseBypass::Disable)
        .sysclk(Hertz(72_000_000))
        .pclk1(Hertz(20_000_000))
        .solve()
        .unwrap();
    assert_eq!(odd.pllmul_bits, Some(14));
    assert_eq!(odd.sysclk, 57_142_848);
    assert_eq!(odd.pclk1, 28_571_424);
}

#[test]
fn external_oscillator_without_wanted_sysclk() {
    // the multiplier defaults to 1 and is raised to 2: the PLL stays off
    let solution = cfgr()
        .hse(Hertz(8_000_000), HseDivider::NoDivision, HseBypass::Disable)
        .solve()
        .unwrap();
    assert_eq!(solution.pllmul_bits, None);
    assert_eq!(solution.sysclk, 16_000_000);
    assert_eq!(solution.latency, 0);
}

#[test]
fn every_hse_divider_divides_by_its_number() {
    let dividers = [
        (HseDivider::NoDivision, 1u32),
        (HseDivider::DivideBy2, 2),
        (HseDivider::DivideBy3, 3),
        (HseDivider::DivideBy4, 4),
        (HseDivider::DivideBy5, 5),
        (HseDivider::DivideBy6, 6),
        (HseDivider::DivideBy7, 7),
        (HseDivider::DivideBy8, 8),
        (HseDivider::DivideBy9, 9),
        (HseDivider::DivideBy10, 10),
        (HseDivider::DivideBy11, 11),
        (HseDivider::DivideBy12, 12),
        (HseDivider::DivideBy13, 13),
        (HseDivider::DivideBy14, 14),
        (HseDivider::DivideBy15, 15),
        (HseDivider::DivideBy16, 16),
    ];
    for (divider, ratio) in dividers {
        // with the multiplier at 2 the system clock is twice the divided oscillator
        let solution = cfgr()
            .hse(Hertz(16_000_000), divider, HseBypass::Disable)
            .solve()
            .unwrap();
        assert_eq!(solution.sysclk, 2 * (16_000_000 / ratio));
    }
}

#[test]
fn sysclk_above_72_mhz_is_turned_down() {
    let solution = cfgr()
        .hse(Hertz(8_000_000), HseDivider::NoDivision, HseBypass::Disable)
        .sysclk(Hertz(80_000_000))
        .pclk1(Hertz(10_000_000))
        .solve();
    assert_eq!(solution, Err(ClockError::SysclkTooHigh));
    // 72 MHz itself is in order
    let at_limit = cfgr()
        .hse(Hertz(36_000_000), HseDivider::NoDivision, HseBypass::Disable)
        .pclk1(Hertz(36_000_000))
        .solve()
        .unwrap();
    assert_eq!(at_limit.sysclk, 72_000_000);
    // one hertz more is not
    let above = cfgr()
        .hse(Hertz(36_000_001), HseDivider::NoDivision, HseBypass::Disable)
        .pclk1(Hertz(36_000_000))
        .solve();
    assert_eq!(above, Err(ClockError::SysclkTooHigh));
}

#[test]
fn oscillator_slower_than_its_divider_is_dead() {
    let solution = cfgr()
        .hse(Hertz(3), HseDivider::DivideBy4, HseBypass::Disable)
        .solve();
    assert_eq!(solution, Err(ClockError::DeadOscillator));
    let alive = cfgr()
        .hse(Hertz(4), HseDivider::DivideBy4, HseBypass::Disable)
        .solve()
        .unwrap();
    assert_eq!(alive.sysclk, 2);
}

#[test]
fn bus_at_0_hz_is_turned_down() {
    assert_eq!(cfgr().hclk(Hertz(0)).solve(), Err(ClockError::ZeroFrequency));
    assert_eq!(cfgr().pclk1(Hertz(0)).solve(), Err(ClockError::ZeroFrequency));
    assert_eq!(cfgr().pclk2(Hertz(0)).solve(), Err(ClockError::ZeroFrequency));
}

#[test]
fn bus_faster_than_its_feeding_clock_is_turned_down() {
    assert_eq!(
        cfgr().hclk(Hertz(8_000_001)).solve(),
        Err(ClockError::HclkAboveSysclk)
    );
    assert_eq!(
        cfgr().pclk1(Hertz(8_000_001)).solve(),
        Err(ClockError::Pclk1AboveHclk)
    );
    assert_eq!(
        cfgr().pclk2(Hertz(8_000_001)).solve(),
        Err(ClockError::Pclk2AboveHclk)
    );
    // the APB buses are fed by the AHB bus, not by the system clock
    assert_eq!(
        cfgr().hclk(Hertz(4_000_000)).pclk2(Hertz(8_000_000)).solve(),
        Err(ClockError::Pclk2AboveHclk)
    );
}

#[test]
fn first_broken_rule_is_reported() {
    // the dead oscillator comes before the bus at 0 Hz
    let solution = cfgr()
        .hse(Hertz(1), HseDivider::DivideBy2, HseBypass::Disable)
        .hclk(Hertz(0))
        .solve();
    assert_eq!(solution, Err(ClockError::DeadOscillator));
    // the AHB bus comes before the APB1 bus
    let solution = cfgr().hclk(Hertz(9_000_000)).pclk1(Hertz(0)).solve();
    assert_eq!(solution, Err(ClockError::HclkAboveSysclk));
    // the APB1 limit comes before the APB2 bus
    let solution = cfgr()
        .sysclk(Hertz(64_000_000))
        .pclk2(Hertz(0))
        .solve();
    assert_eq!(solution, Err(ClockError::Pclk1TooHigh));
}

#[test]
fn apb1_limit_is_36_mhz() {
    let at_limit = cfgr()
        .hse(Hertz(18_000_000), HseDivider::NoDivision, HseBypass::Disable)
        .solve()
        .unwrap();
    assert_eq!(at_limit.pclk1, 36_000_000);
    let above = cfgr()
        .hse(Hertz(18_000_001), HseDivider::NoDivision, HseBypass::Disable)
        .solve();
    assert_eq!(above, Err(ClockError::Pclk1TooHigh));
}

#[test]
fn ahb_prescaler_follows_its_table() {
    // ratio of 64 MHz to the wanted clock, code, divisor
    let table = [
        (1u32, 0b0111u8, 1u32),
        (2, 0b1000, 2),
        (3, 0b1001, 4),
        (5, 0b1001, 4),
        (6, 0b1010, 8),
        (11, 0b1010, 8),
        (12, 0b1011, 16),
        (39, 0b1011, 16),
        (40, 0b1100, 64),
        (95, 0b1100, 64),
        (96, 0b1101, 128),
        (191, 0b1101, 128),
        (192, 0b1110, 256),
        (383, 0b1110, 256),
        (384, 0b1111, 512),
        (64_000_000, 0b1111, 512),
    ];
    for (ratio, code, divisor) in table {
        let wanted: u32 = 64_000_000 / ratio;
        assert_eq!(64_000_000 / wanted, ratio);
        let solution = cfgr()
            .sysclk(Hertz(64_000_000))
            .hclk(Hertz(wanted))
            .pclk1(Hertz(1))
            .solve()
            .unwrap();
        assert_eq!(solution.hpre_bits, code);
        assert_eq!(solution.hclk, 64_000_000 / divisor);
    }
}

#[test]
fn apb_prescalers_follow_their_table() {
    // ratio of 8 MHz to the wanted clock, code, divisor
    let table = [
        (1u32, 0b011u8, 1u8),
        (2, 0b100, 2),
        (3, 0b101, 4),
        (5, 0b101, 4),
        (6, 0b110, 8),
        (11, 0b110, 8),
        (12, 0b111, 16),
        (8_000_000, 0b111, 16),
    ];
    for (ratio, code, divisor) in table {
        let wanted: u32 = 8_000_000 / ratio;
        assert_eq!(8_000_000 / wanted, ratio);
        let first = cfgr().pclk1(Hertz(wanted)).solve().unwrap();
        assert_eq!(first.ppre1_bits, code);
        assert_eq!(first.ppre1, divisor);
        assert_eq!(first.pclk1, 8_000_000 / u32::from(divisor));
        assert_eq!(first.ppre2_bits, 0b011);
        assert_eq!(first.pclk2, 8_000_000);
        let second = cfgr().pclk2(Hertz(wanted)).solve().unwrap();
        assert_eq!(second.ppre2_bits, code);
        assert_eq!(second.ppre2, divisor);
        assert_eq!(second.pclk2, 8_000_000 / u32::from(divisor));
        assert_eq!(second.ppre1_bits, 0b011);
        assert_eq!(second.pclk1, 8_000_000);
    }
}

#[test]
fn apb_clocks_are_divided_from_the_ahb_clock() {
    let solution = cfgr()
        .sysclk(Hertz(64_000_000))
        .hclk(Hertz(16_000_000))
        .pclk1(Hertz(2_000_000))
        .pclk2(Hertz(8_000_000))
        .solve();
    assert_eq!(
        solution,
        Ok(Solution {
            pllmul_bits: Some(14),
            hpre_bits: 0b1001,
            ppre1_bits: 0b110,
            ppre2_bits: 0b100,
            latency: 2,
            sysclk: 64_000_000,
            hclk: 16_000_000,
            pclk1: 2_000_000,
            pclk2: 8_000_000,
            ppre1: 8,
            ppre2: 2,
        })
    );
}

#[test]
fn flash_wait_states_follow_the_system_clock() {
    let bands = [
        (8_000_000u32, 0u8),
        (24_000_000, 0),
        (28_000_000, 1),
        (48_000_000, 1),
        (52_000_000, 2),
        (64_000_000, 2),
    ];
    for (sysclk, latency) in bands {
        let solution = cfgr()
            .sysclk(Hertz(sysclk))
            .pclk1(Hertz(sysclk / 2))
            .solve()
            .unwrap();
        assert_eq!(solution.sysclk, sysclk);
        assert_eq!(solution.latency, latency);
    }
    // the bands end at 24 MHz and at 48 MHz to the hertz
    let edges = [
        (12_000_000u32, 0u8),
        (12_000_001, 1),
        (24_000_000, 1),
        (24_000_001, 2),
    ];
    for (speed, latency) in edges {
        let solution = cfgr()
            .hse(Hertz(speed), HseDivider::NoDivision, HseBypass::Disable)
            .pclk1(Hertz(speed))
            .solve()
            .unwrap();
        assert_eq!(solution.sysclk, 2 * speed);
        assert_eq!(solution.latency, latency);
    }
}

#[test]
fn last_setting_of_a_frequency_counts() {
    let solution = cfgr()
        .sysclk(Hertz(64_000_000))
        .sysclk(Hertz(16_000_000))
        .hclk(Hertz(1))
        .hclk(Hertz(8_000_000))
        .pclk1(Hertz(3))
        .pclk1(Hertz(4_000_000))
        .pclk2(Hertz(5))
        .pclk2(Hertz(2_000_000))
        .hse(Hertz(1), HseDivider::DivideBy16, HseBypass::Enable)
        .hse(Hertz(32_000_000), HseDivider::DivideBy4, HseBypass::Disable)
        .solve()
        .unwrap();
    assert_eq!(solution.sysclk, 16_000_000);
    assert_eq!(solution.hclk, 8_000_000);
    assert_eq!(solution.pclk1, 4_000_000);
    assert_eq!(solution.pclk2, 2_000_000);
    assert_eq!(solution.pllmul_bits, None);
}

#[test]
fn reachable_frequencies_are_met_exactly() {
    // every combination of a multiplier and three divisors that the limits allow
    let ahb: [u32; 9] = [1, 2, 4, 8, 16, 64, 128, 256, 512];
    let apb: [u32; 5] = [1, 2, 4, 8, 16];
    let mut met: u32 = 0;
    for multiplier in 2u32..=16 {
        let sysclk: u32 = multiplier * 4_000_000;
        for hpre in ahb {
            let hclk: u32 = sysclk / hpre;
            for ppre1 in apb {
                let pclk1: u32 = hclk / ppre1;
                if pclk1 > 36_000_000 {
                    continue;
                }
                for ppre2 in apb {
                    let pclk2: u32 = hclk / ppre2;
                    let solution = cfgr()
                        .sysclk(Hertz(sysclk))
                        .hclk(Hertz(hclk))
                        .pclk1(Hertz(pclk1))
                        .pclk2(Hertz(pclk2))
                        .solve()
                        .unwrap();
                    assert_eq!(solution.sysclk, sysclk);
                    assert_eq!(solution.hclk, hclk);
                    assert_eq!(solution.pclk1, pclk1);
                    assert_eq!(solution.pclk2, pclk2);
                    assert_eq!(u32::from(solution.ppre1), ppre1);
                    assert_eq!(u32::from(solution.ppre2), ppre2);
                    met += 1;
                }
            }
        }
    }
    assert!(met > 3000);
}

#[test]
fn bus_asked_for_1_hz_may_stand_still() {
    // 3 Hz / 2 = 1 Hz is asked for, 3 / 1 = 3 selects the division by 4
    let solution = cfgr()
        .hse(Hertz(3), HseDivider::DivideBy2, HseBypass::Disable)
        .sysclk(Hertz(3))
        .hclk(Hertz(1))
        .solve()
        .unwrap();
    assert_eq!(solution.sysclk, 3);
    assert_eq!(solution.hpre_bits, 0b1001);
    assert_eq!(solution.hclk, 0);
}

#[test]
fn request_is_solved_as_the_configuration_that_holds_it() {
    let request = Request {
        hse: Some(Oscillator {
            speed: 24_000_000,
            divider: 3,
            bypass: true,
        }),
        hclk: Some(32_000_000),
        pclk1: Some(16_000_000),
        pclk2: None,
        sysclk: Some(64_000_000),
    };
    let configured = cfgr()
        .hse(Hertz(24_000_000), HseDivider::DivideBy3, HseBypass::Enable)
        .sysclk(Hertz(64_000_000))
        .hclk(Hertz(32_000_000))
        .pclk1(Hertz(16_000_000))
        .solve();
    assert_eq!(solve(&request), configured);
    assert_eq!(
        solve(&request),
        Ok(Solution {
            pllmul_bits: Some(6),
            hpre_bits: 0b1000,
            ppre1_bits: 0b100,
            ppre2_bits: 0b011,
            latency: 2,
            sysclk: 64_000_000,
            hclk: 32_000_000,
            pclk1: 16_000_000,
            pclk2: 32_000_000,
            ppre1: 2,
            ppre2: 1,
        })
    );
    let nothing = Request {
        hse: None,
        hclk: None,
        pclk1: None,
        pclk2: None,
        sysclk: None,
    };
    assert_eq!(solve(&nothing), cfgr().solve());
}
