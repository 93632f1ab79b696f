use vstd::prelude::*;

verus! {

/// Settle time after each request to leave the chain, in milliseconds.
pub const INACTIVATE_FROM_CHAIN_DELAY_MS: u64 = 100;

/// Base delay quantum during hashboard initialization, in milliseconds.
pub const INIT_DELAY_MS: u64 = 1000;

/// How often the request to leave the chain is broadcast: a long chain is
/// not sure to pass the first one all the way down.
pub const INACTIVATE_FROM_CHAIN_ROUNDS: usize = 3;

/// The number of chips a chain cannot reach: the address field has 8 bits
/// and addresses are assigned in steps of 4 (0, 4, 8, ...).
pub const MAX_CHIPS_ON_CHAIN: usize = 64;

/// Distance between the bus addresses of two neighbouring chips.
pub const CHIP_ADDRESS_STEP: usize = 4;

/// Oscillator speed of every chip on the hashboard.
pub const CHIP_OSC_CLK_HZ: usize = 25_000_000;

/// Divisor of the chip oscillator; the resulting clock feeds the chip UART.
pub const CHIP_OSC_CLK_BASE_BAUD_DIV: usize = 8;

/// Exact baud rate of the hashing chips after reset.
pub const INIT_CHIP_BAUD_RATE: usize = 115740;

/// Exact baud rate when hashing at full speed.
pub const TARGET_CHIP_BAUD_RATE: usize = 1562500;

/// Base clock speed of the IP core running in the FPGA.
pub const FPGA_IPCORE_F_CLK_SPEED_HZ: usize = 50_000_000;

/// Divisor of the IP core base clock; the resulting clock feeds the UART.
pub const FPGA_IPCORE_F_CLK_BASE_BAUD_DIV: usize = 16;

/// Default PLL frequency for clocking the chips.
pub const DEFAULT_S9_PLL_FREQUENCY: u64 = 650_000_000;

/// PLL register value for 650 MHz.
pub const DEFAULT_PLL_CONFIG: u32 = 0x21026800;

/// The one voltage controller firmware the driver works with.
pub const EXPECTED_VOLTAGE_CTRL_VERSION: u8 = 0x03;

/// Hashing cores on one chip; each takes one piece of work to open.
pub const NUM_CORES_ON_CHIP: usize = 114;

} // verus!
