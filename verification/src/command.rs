use vstd::prelude::*;

verus! {

/// Revision that a chip reports of itself.
#[derive(Debug, Clone, Copy, PartialEq, Eq, Structural)]
pub enum ChipRev {
    /// The one revision the driver supports.
    Bm1387,
    /// Any other revision.
    Other,
}

/// Registers of a chip that the driver reads or writes.
#[derive(Debug, Clone, Copy, PartialEq, Eq, Structural)]
pub enum Register {
    /// Chip revision and bus address.
    GetAddress,
    /// PLL parameters: the core clock.
    PllParam,
    /// Ticket mask: the difficulty below which results are not reported.
    TicketMask,
    /// Miscellaneous control: baud divisor and start-up mode.
    MiscControl,
}

/// Contents of the miscellaneous control register.
#[derive(Debug, Clone, Copy, PartialEq, Eq, Structural)]
pub struct MiscCtrl {
    /// The chip ignores the divisor.
    pub not_set_baud: bool,
    /// Invert the clock.
    pub inv_clock: bool,
    /// Baud rate clock divisor.
    pub baud_div: usize,
    /// Let the chip start gradually on a placeholder job instead of
    /// drawing full power at once.
    pub gate_block: bool,
    /// Enable multiple midstates.
    pub mmen: bool,
}

/// A value written to a configuration register. The variant names the
/// register.
#[derive(Debug, Clone, Copy, PartialEq, Eq, Structural)]
pub enum ConfigValue {
    /// PLL parameter register, as the raw register value.
    Pll(u32),
    /// Ticket mask register, as the difficulty it stands for.
    TicketMask(usize),
    /// Miscellaneous control register.
    MiscCtrl(MiscCtrl),
}

/// A control command for the chips on the chain. How a command is laid out
/// in bytes is the business of whoever owns the command channel.
#[derive(Debug, Clone, Copy, PartialEq, Eq, Structural)]
pub enum Command {
    /// Ask one chip, or all of them, for a register.
    GetStatus { chip_address: u8, to_all: bool, register: Register },
    /// Give the first chip that has no address yet this one.
    SetChipAddress { chip_address: u8 },
    /// Take every chip off the chain, so that each forgets its address.
    InactivateFromChain,
    /// Write a register of one chip, or of all of them.
    SetConfig { chip_address: u8, to_all: bool, value: ConfigValue },
}

/// What a chip answers when asked for its address register.
#[derive(Debug, Clone, Copy, PartialEq, Eq, Structural)]
pub struct AddressResponse {
    pub chip_rev: ChipRev,
    pub addr: u8,
}

} // verus!
