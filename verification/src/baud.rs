use crate::config::{
    CHIP_OSC_CLK_BASE_BAUD_DIV, CHIP_OSC_CLK_HZ, FPGA_IPCORE_F_CLK_BASE_BAUD_DIV,
    FPGA_IPCORE_F_CLK_SPEED_HZ, INIT_CHIP_BAUD_RATE, TARGET_CHIP_BAUD_RATE,
};
use crate::error::ErrorKind;
use vstd::prelude::*;

verus! {

/// By how many percent of the requested rate the achieved baud rate may
/// miss it.
pub const MAX_BAUD_RATE_ERR_PERC: usize = 5;

/// `base_clock_hz / (base_clock_div * baud_rate)`, rounded half up in
/// tenths: how many ticks of the divided base clock one bit takes.
pub open spec fn rounded_clock_ratio(
    baud_rate: nat,
    base_clock_hz: nat,
    base_clock_div: nat,
) -> nat {
    ((10 * base_clock_hz / (base_clock_div * baud_rate) + 5) / 10) as nat
}

/// The baud rate that the divisor register value `divisor` gives.
pub open spec fn achieved_baud_rate(base_clock_hz: nat, base_clock_div: nat, divisor: nat) -> nat {
    base_clock_hz / (base_clock_div * (divisor + 1))
}

/// Whether `actual` misses `requested` by no more than the tolerated share.
pub open spec fn within_tolerance(requested: nat, actual: nat) -> bool {
    let miss = if actual > requested {
        actual - requested
    } else {
        requested - actual
    };
    miss <= MAX_BAUD_RATE_ERR_PERC as nat * requested / 100
}

/// Divisor register value and achieved rate for a requested baud rate, or
/// `None` where the rate cannot be met: the ratio rounds to zero, so that
/// no divisor exists, or the achieved rate is out of tolerance.
pub open spec fn baud_setting(baud_rate: nat, base_clock_hz: nat, base_clock_div: nat) -> Option<
    (nat, nat),
> {
    let ratio = rounded_clock_ratio(baud_rate, base_clock_hz, base_clock_div);
    if ratio == 0 {
        None
    } else {
        let divisor = (ratio - 1) as nat;
        let actual = achieved_baud_rate(base_clock_hz, base_clock_div, divisor);
        if within_tolerance(baud_rate, actual) {
            Some((divisor, actual))
        } else {
            None
        }
    }
}

proof fn lemma_product_bounds(a: nat, b: nat, bound: nat)
    by (nonlinear_arith)
    requires
        1 <= a <= bound,
        1 <= b <= bound,
    ensures
        1 <= a * b <= bound * bound,
{
}

proof fn lemma_quotient_bounds(x: nat, d: nat)
    by (nonlinear_arith)
    requires
        d >= 1,
    ensures
        x / d <= x,
{
}

/// A divisor never exceeds the base clock it divides, and neither does the
/// rate it achieves.
pub proof fn lemma_baud_setting_bounds(baud_rate: nat, base_clock_hz: nat, base_clock_div: nat)
    requires
        baud_rate > 0,
        base_clock_div > 0,
    ensures
        rounded_clock_ratio(baud_rate, base_clock_hz, base_clock_div) <= base_clock_hz,
        baud_setting(baud_rate, base_clock_hz, base_clock_div) matches Some((divisor, actual))
            ==> divisor < base_clock_hz && actual <= base_clock_hz,
{
    let bound = if baud_rate > base_clock_div {
        baud_rate
    } else {
        base_clock_div
    };
    lemma_product_bounds(base_clock_div, baud_rate, bound);
    lemma_quotient_bounds(10 * base_clock_hz, base_clock_div * baud_rate);
    let ratio = rounded_clock_ratio(baud_rate, base_clock_hz, base_clock_div);
    if ratio > 0 {
        lemma_product_bounds(base_clock_div, ratio, if ratio > base_clock_div {
            ratio
        } else {
            base_clock_div
        });
        lemma_quotient_bounds(base_clock_hz, base_clock_div * ratio);
    }
}

/// Baud rate clock divisor for the requested baud rate.
///
/// The same scheme serves the hashing chips and the FPGA IP core:
///
/// * `baud_rate` - requested baud rate
/// * `base_clock_hz` - base clock of the UART peripheral
/// * `base_clock_div` - divisor of the base clock
///
/// Returns the divisor register value and the baud rate it achieves. The
/// divisor is `base_clock_hz / (base_clock_div * baud_rate) - 1` with the
/// quotient rounded half up in tenths; the request fails where the achieved
/// rate misses the requested one by more than `MAX_BAUD_RATE_ERR_PERC`
/// percent.
pub fn calc_baud_clock_div(baud_rate: usize, base_clock_hz: usize, base_clock_div: usize) -> (r:
    Result<(usize, usize), ErrorKind>)
    requires
        baud_rate > 0,
        base_clock_div > 0,
    ensures
        match baud_setting(baud_rate as nat, base_clock_hz as nat, base_clock_div as nat) {
            Some((divisor, actual)) => r matches Ok((d, a)) && d == divisor && a == actual,
            None => r == Err::<(usize, usize), ErrorKind>(
                ErrorKind::BaudRateOutOfTolerance { requested: baud_rate },
            ),
        },
{
    proof {
        lemma_product_bounds(base_clock_div as nat, baud_rate as nat, u64::MAX as nat);
        lemma_baud_setting_bounds(baud_rate as nat, base_clock_hz as nat, base_clock_div as nat);
    }
    let clock: u128 = base_clock_hz as u128;
    let bit_clock: u128 = base_clock_div as u128 * baud_rate as u128;
    // The divisor is base_clock_hz / (base_clock_div * baud_rate) - 1, with
    // the quotient rounded in fixed point arithmetic
    let ratio: u128 = (10 * clock / bit_clock + 5) / 10;
    if ratio == 0 {
        return Err(ErrorKind::BaudRateOutOfTolerance { requested: baud_rate });
    }
    proof {
        lemma_product_bounds(base_clock_div as nat, ratio as nat, u64::MAX as nat);
    }
    let baud_div: u128 = ratio - 1;
    let actual_baud_rate: u128 = clock / (base_clock_div as u128 * ratio);
    let baud_rate_diff: u128 = if actual_baud_rate > baud_rate as u128 {
        actual_baud_rate - baud_rate as u128
    } else {
        baud_rate as u128 - actual_baud_rate
    };
    // the baud rate has to be within a few percents
    if baud_rate_diff > MAX_BAUD_RATE_ERR_PERC as u128 * baud_rate as u128 / 100 {
        return Err(ErrorKind::BaudRateOutOfTolerance { requested: baud_rate });
    }
    Ok((baud_div as usize, actual_baud_rate as usize))
}

/// The chips come out of reset at a rate the IP core meets exactly, and
/// both sides meet the full-speed rate exactly.
pub proof fn lemma_default_baud_settings()
    ensures
        baud_setting(
            INIT_CHIP_BAUD_RATE as nat,
            FPGA_IPCORE_F_CLK_SPEED_HZ as nat,
            FPGA_IPCORE_F_CLK_BASE_BAUD_DIV as nat,
        ) == Some((26nat, 115740nat)),
        baud_setting(
            TARGET_CHIP_BAUD_RATE as nat,
            CHIP_OSC_CLK_HZ as nat,
            CHIP_OSC_CLK_BASE_BAUD_DIV as nat,
        ) == Some((1nat, 1562500nat)),
        baud_setting(
            TARGET_CHIP_BAUD_RATE as nat,
            FPGA_IPCORE_F_CLK_SPEED_HZ as nat,
            FPGA_IPCORE_F_CLK_BASE_BAUD_DIV as nat,
        ) == Some((1nat, 1562500nat)),
{
    assert(rounded_clock_ratio(115740, 50_000_000, 16) == 27) by {
        assert(16 * 115740 == 1851840nat);
        assert(10 * 50_000_000nat / 1851840nat == 270);
    }
    assert(achieved_baud_rate(50_000_000, 16, 26) == 115740) by {
        assert(16 * (26 + 1) == 432nat);
        assert(50_000_000nat / 432nat == 115740);
    }
    assert(rounded_clock_ratio(1562500, 25_000_000, 8) == 2) by {
        assert(8 * 1562500 == 12_500_000nat);
        assert(10 * 25_000_000nat / 12_500_000nat == 20);
    }
    assert(achieved_baud_rate(25_000_000, 8, 1) == 1562500) by {
        assert(8 * (1 + 1) == 16nat);
        assert(25_000_000nat / 16nat == 1562500);
    }
    assert(rounded_clock_ratio(1562500, 50_000_000, 16) == 2) by {
        assert(16 * 1562500 == 25_000_000nat);
        assert(10 * 50_000_000nat / 25_000_000nat == 20);
    }
    assert(achieved_baud_rate(50_000_000, 16, 1) == 1562500) by {
        assert(16 * (1 + 1) == 32nat);
        assert(50_000_000nat / 32nat == 1562500);
    }
}

} // verus!
