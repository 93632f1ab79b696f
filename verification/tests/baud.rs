use bosminer_am1_s9::baud::{calc_baud_clock_div, MAX_BAUD_RATE_ERR_PERC};
use bosminer_am1_s9::config::{
    CHIP_OSC_CLK_BASE_BAUD_DIV, CHIP_OSC_CLK_HZ, FPGA_IPCORE_F_CLK_BASE_BAUD_DIV,
    FPGA_IPCORE_F_CLK_SPEED_HZ, INIT_CHIP_BAUD_RATE, TARGET_CHIP_BAUD_RATE,
};
use bosminer_am1_s9::error::ErrorKind;

/// The stated integer formula, worked out in numbers that do not overflow.
fn by_the_formula(baud_rate: usize, clock: usize, div: usize) -> Option<(usize, usize)> {
    let (baud_rate, clock, div) = (baud_rate as u128, clock as u128, div as u128);
    let ratio = (10 * clock / (div * baud_rate) + 5) / 10;
    if ratio == 0 {
        return None;
    }
    let actual = clock / (div * ratio);
    let miss = if actual > baud_rate { actual - baud_rate } else { baud_rate - actual };
    if miss > 5 * baud_rate / 100 {
        None
    } else {
        Some(((ratio - 1) as usize, actual as usize))
    }
}

fn refused(requested: usize) -> Result<(usize, usize), ErrorKind> {
    Err(ErrorKind::BaudRateOutOfTolerance { requested })
}

#[test]
fn tolerance_is_five_percent() {
    assert_eq!(MAX_BAUD_RATE_ERR_PERC, 5);
}

#[test]
fn ip_core_meets_the_rate_of_chips_out_of_reset() {
    assert_eq!(
        calc_baud_clock_div(
            INIT_CHIP_BAUD_RATE,
            FPGA_IPCORE_F_CLK_SPEED_HZ,
            FPGA_IPCORE_F_CLK_BASE_BAUD_DIV
        ),
        Ok((26, 115740))
    );
}

#[test]
fn chips_meet_the_target_rate() {
    assert_eq!(
        calc_baud_clock_div(TARGET_CHIP_BAUD_RATE, CHIP_OSC_CLK_HZ, CHIP_OSC_CLK_BASE_BAUD_DIV),
        Ok((1, 1562500))
    );
}

#[test]
fn ip_core_meets_the_target_rate() {
    assert_eq!(
        calc_baud_clock_div(
            TARGET_CHIP_BAUD_RATE,
            FPGA_IPCORE_F_CLK_SPEED_HZ,
            FPGA_IPCORE_F_CLK_BASE_BAUD_DIV
        ),
        Ok((1, 1562500))
    );
}

#[test]
fn chips_meet_their_reset_rate() {
    // 25 MHz / (8 * 27) = 115740.74
    assert_eq!(calc_baud_clock_div(115740, 25_000_000, 8), Ok((26, 115740)));
}

#[test]
fn divisor_is_rounded_half_up() {
    // 25 MHz / (8 * 1_250_000) = 2.5, which rounds to 3
    assert_eq!(calc_baud_clock_div(1_250_000, 25_000_000, 8), refused(1_250_000));
    // 1000 / (1 * 400) = 2.5 rounds to 3: 333 baud misses 400 by more than 20
    assert_eq!(calc_baud_clock_div(400, 1000, 1), refused(400));
    // 1000 / 96 = 10.4 rounds to 10: divisor 9, 100 baud, 4 off with 4 allowed
    assert_eq!(calc_baud_clock_div(96, 1000, 1), Ok((9, 100)));
    // 1000 / 95 = 10.5 rounds to 11: divisor 10, 90 baud, 5 off with 4 allowed
    assert_eq!(calc_baud_clock_div(95, 1000, 1), refused(95));
}

#[test]
fn rate_out_of_tolerance_is_refused() {
    assert_eq!(
        calc_baud_clock_div(1_300_000, CHIP_OSC_CLK_HZ, CHIP_OSC_CLK_BASE_BAUD_DIV),
        Err(ErrorKind::BaudRateOutOfTolerance { requested: 1_300_000 })
    );
}

#[test]
fn rate_at_the_edge_of_tolerance() {
    // divisor 1 gives 1562500 baud; 5 % of 1644736 is 82236, and so is the miss
    assert_eq!(calc_baud_clock_div(1_644_736, 25_000_000, 8), Ok((1, 1562500)));
    // one more and the miss is 82237 with 82236 allowed
    assert_eq!(
        calc_baud_clock_div(1_644_737, 25_000_000, 8),
        Err(ErrorKind::BaudRateOutOfTolerance { requested: 1_644_737 })
    );
}

#[test]
fn rate_beyond_any_divisor_is_refused() {
    // 25 MHz / (8 * 10 MHz) rounds to 0: there is no divisor -1
    assert_eq!(
        calc_baud_clock_div(10_000_000, 25_000_000, 8),
        Err(ErrorKind::BaudRateOutOfTolerance { requested: 10_000_000 })
    );
    assert_eq!(
        calc_baud_clock_div(1, 0, 1),
        Err(ErrorKind::BaudRateOutOfTolerance { requested: 1 })
    );
}

#[test]
fn fastest_rate_has_divisor_zero() {
    assert_eq!(calc_baud_clock_div(3_125_000, 25_000_000, 8), Ok((0, 3_125_000)));
    assert_eq!(calc_baud_clock_div(3_000_000, 25_000_000, 8), Ok((0, 3_125_000)));
}

#[test]
fn large_numbers_do_not_overflow() {
    assert_eq!(calc_baud_clock_div(1, usize::MAX, 1), Ok((usize::MAX - 1, 1)));
    assert_eq!(
        calc_baud_clock_div(usize::MAX, usize::MAX, usize::MAX),
        Err(ErrorKind::BaudRateOutOfTolerance { requested: usize::MAX })
    );
    assert_eq!(calc_baud_clock_div(usize::MAX, usize::MAX, 1), Ok((0, usize::MAX)));
}

#[test]
fn result_follows_the_formula_for_chip_rates() {
    let mut accepted = 0;
    let mut refused = 0;
    for baud_rate in (1usize..4_000_000).step_by(997) {
        let result = calc_baud_clock_div(baud_rate, CHIP_OSC_CLK_HZ, CHIP_OSC_CLK_BASE_BAUD_DIV);
        match by_the_formula(baud_rate, CHIP_OSC_CLK_HZ, CHIP_OSC_CLK_BASE_BAUD_DIV) {
            Some(expected) => {
                assert_eq!(result, Ok(expected));
                accepted += 1;
            }
            None => {
                assert_eq!(result, Err(ErrorKind::BaudRateOutOfTolerance { requested: baud_rate }));
                refused += 1;
            }
        }
    }
    assert!(accepted > 0);
    assert!(refused > 0);
}

#[test]
fn accepted_divisor_reproduces_the_achieved_rate() {
    for baud_rate in (1usize..4_000_000).step_by(1009) {
        let result = calc_baud_clock_div(
            baud_rate,
            FPGA_IPCORE_F_CLK_SPEED_HZ,
            FPGA_IPCORE_F_CLK_BASE_BAUD_DIV,
        );
        if let Ok((divisor, actual)) = result {
            assert_eq!(
                actual,
                FPGA_IPCORE_F_CLK_SPEED_HZ / (FPGA_IPCORE_F_CLK_BASE_BAUD_DIV * (divisor + 1))
            );
            let miss = if actual > baud_rate { actual - baud_rate } else { baud_rate - actual };
            assert!(miss <= 5 * baud_rate / 100);
        }
    }
}
