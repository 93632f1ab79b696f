use crate::baud::baud_setting;
use crate::command::{AddressResponse, ChipRev, Command, ConfigValue, MiscCtrl, Register};
use crate::config::{
    CHIP_ADDRESS_STEP, CHIP_OSC_CLK_BASE_BAUD_DIV, CHIP_OSC_CLK_HZ, DEFAULT_PLL_CONFIG,
    EXPECTED_VOLTAGE_CTRL_VERSION, FPGA_IPCORE_F_CLK_BASE_BAUD_DIV, FPGA_IPCORE_F_CLK_SPEED_HZ,
    INACTIVATE_FROM_CHAIN_DELAY_MS, INACTIVATE_FROM_CHAIN_ROUNDS, INIT_CHIP_BAUD_RATE,
    INIT_DELAY_MS, MAX_CHIPS_ON_CHAIN, TARGET_CHIP_BAUD_RATE,
};
use crate::error::ErrorKind;
use crate::midstate::{MidstateCount, MidstateCountReg};
use vstd::prelude::*;

verus! {

/// Number of steps of the fixed part of the start-up: IP core set-up,
/// voltage controller bring-up and the reset pulse.
pub const BRINGUP_STEPS: usize = 20;

/// The bring-up step that asks the voltage controller for its version.
pub const VERSION_STEP: usize = 7;

/// One thing for the owner of the hardware to do. Each is answered with
/// one `Event`, but for `Done` and `Fail`, which end the start-up.
#[derive(Debug, Clone, Copy, PartialEq, Eq)]
pub enum Action {
    /// Disable the IP core.
    DisableIpCore,
    /// Enable the IP core.
    EnableIpCore,
    /// Write the baud divisor register of the IP core.
    SetBaudClockDiv(u32),
    /// Write the work time register of the IP core: the time one piece of
    /// work keeps the chips busy at this PLL frequency.
    SetWorkTime { midstate_count: MidstateCount, pll_frequency: u64 },
    /// Write the midstate count field of the IP core control register.
    SetMidstateCount(MidstateCountReg),
    /// Reset the voltage controller.
    ResetVoltageCtrl,
    /// Make the voltage controller leave its loader for the application.
    JumpFromLoaderToApp,
    /// Ask the voltage controller for its firmware version; answered with
    /// `Event::Version`.
    GetVoltageCtrlVersion,
    /// Start sending heart beats to the voltage controller, which cuts the
    /// power about 10 seconds after the last one.
    StartHeartBeat,
    /// Set the initial, safe voltage.
    SetInitialVoltage,
    /// Switch the hashboard's power on.
    EnableVoltage,
    /// Switch the hashboard's power off.
    DisableVoltage,
    /// Pull the hashboard's reset line low.
    SetResetLow,
    /// Release the hashboard's reset line.
    SetResetHigh,
    /// Wait.
    Sleep { millis: u64 },
    /// Send a command down the chain, and wait until it has left where
    /// `wait` is set.
    SendCommand { cmd: Command, wait: bool },
    /// Fetch the next response of the command channel; answered with
    /// `Event::Response`.
    RecvResponse,
    /// The hashboard is up. There is nothing left to do.
    Done,
    /// The start-up is over and has failed.
    Fail(ErrorKind),
}

/// How the action handed out last has ended.
#[derive(Debug, Clone, Copy, PartialEq, Eq)]
pub enum Event {
    /// It was carried out and there is nothing to report.
    Done,
    /// It could not be carried out.
    Failed,
    /// The firmware version of the voltage controller.
    Version(u8),
    /// A response of the command channel, or `None` where no more is
    /// pending.
    Response(Option<AddressResponse>),
}

/// How far the start-up has come: which action is under way.
#[derive(Debug, Clone, Copy, PartialEq, Eq)]
pub enum InitPhase {
    /// Not started.
    Idle,
    /// The fixed step with this number.
    Bringup(usize),
    /// The broadcast request for the address register.
    Requesting,
    /// Fetching the response after this many good ones.
    Counting(usize),
    /// Taking the chips off the chain; the step with this number, where
    /// even steps send the command and odd ones let it settle.
    Inactivating(usize),
    /// Assigning the address of the chip with this position.
    Addressing(usize),
    /// Loading the PLL of the chip with this position.
    PllSetup(usize),
    /// Switching the chips to the target baud rate.
    ChainBaud,
    /// Switching the IP core to the target baud rate.
    CoreBaud,
    /// Setting the difficulty on all chips.
    TicketMask,
    /// Asking the chips for the difficulty they run with.
    TicketMaskReadback,
    /// Up and running.
    Ready,
    /// Given up.
    Failed(ErrorKind),
}

/// All that a hashboard controller knows.
pub struct CtlState {
    /// Number of chips that have been detected; 0 until the chips have
    /// been counted.
    pub chip_count: usize,
    pub midstate_count: MidstateCount,
    pub asic_difficulty: usize,
    pub pll_frequency: u64,
    pub hashboard_idx: usize,
    pub phase: InitPhase,
}

impl CtlState {
    /// Counters are in range and chips are known wherever they are used.
    pub open spec fn wf(self) -> bool {
        &&& self.chip_count < MAX_CHIPS_ON_CHAIN
        &&& match self.phase {
            InitPhase::Bringup(i) => i < BRINGUP_STEPS,
            InitPhase::Counting(n) => n <= MAX_CHIPS_ON_CHAIN,
            InitPhase::Inactivating(j) => j < 2 * INACTIVATE_FROM_CHAIN_ROUNDS && self.chip_count
                > 0,
            InitPhase::Addressing(i) => i < self.chip_count,
            InitPhase::PllSetup(i) => i < self.chip_count,
            InitPhase::ChainBaud
            | InitPhase::CoreBaud
            | InitPhase::TicketMask
            | InitPhase::TicketMaskReadback
            | InitPhase::Ready => self.chip_count > 0,
            _ => true,
        }
    }

    /// The same controller in another phase.
    pub open spec fn at(self, phase: InitPhase) -> CtlState {
        CtlState { phase, ..self }
    }
}

/// Bus address of the chip at position `i` of the chain.
pub open spec fn chip_address(i: int) -> u8 {
    (CHIP_ADDRESS_STEP * i) as u8
}

/// The command sent with nobody waiting for it to leave.
pub open spec fn send(cmd: Command) -> Action {
    Action::SendCommand { cmd, wait: false }
}

/// The command sent with the sender waiting until it has left.
pub open spec fn send_and_wait(cmd: Command) -> Action {
    Action::SendCommand { cmd, wait: true }
}

/// Broadcast request for the address register of every chip.
pub open spec fn address_request() -> Action {
    send_and_wait(
        Command::GetStatus { chip_address: 0, to_all: true, register: Register::GetAddress },
    )
}

/// What a step of taking the chips off the chain does.
pub open spec fn inactivate_action(j: int) -> Action {
    if j % 2 == 0 {
        send(Command::InactivateFromChain)
    } else {
        Action::Sleep { millis: INACTIVATE_FROM_CHAIN_DELAY_MS }
    }
}

/// Gives the chip at position `i` its address.
pub open spec fn address_action(i: int) -> Action {
    send(Command::SetChipAddress { chip_address: chip_address(i) })
}

/// Loads the PLL of the chip at position `i` with the default value.
pub open spec fn pll_action(i: int) -> Action {
    send(
        Command::SetConfig {
            chip_address: chip_address(i),
            to_all: false,
            value: ConfigValue::Pll(DEFAULT_PLL_CONFIG),
        },
    )
}

/// Sets the IP core to `baud_rate`, where it can meet it.
pub open spec fn core_baud_action(baud_rate: usize) -> Result<Action, ErrorKind> {
    match baud_setting(
        baud_rate as nat,
        FPGA_IPCORE_F_CLK_SPEED_HZ as nat,
        FPGA_IPCORE_F_CLK_BASE_BAUD_DIV as nat,
    ) {
        Some((divisor, _)) => Ok(Action::SetBaudClockDiv(divisor as u32)),
        None => Err(ErrorKind::BaudRateOutOfTolerance { requested: baud_rate }),
    }
}

/// Sets every chip to `baud_rate`, where the chips can meet it, with the
/// clock inverted and multiple midstates enabled.
pub open spec fn chain_baud_action(
    baud_rate: usize,
    not_set_baud: bool,
    gate_block: bool,
) -> Result<Action, ErrorKind> {
    match baud_setting(
        baud_rate as nat,
        CHIP_OSC_CLK_HZ as nat,
        CHIP_OSC_CLK_BASE_BAUD_DIV as nat,
    ) {
        Some((divisor, _)) => Ok(
            send_and_wait(
                Command::SetConfig {
                    chip_address: 0,
                    to_all: true,
                    value: ConfigValue::MiscCtrl(
                        MiscCtrl {
                            not_set_baud,
                            inv_clock: true,
                            baud_div: divisor as usize,
                            gate_block,
                            mmen: true,
                        },
                    ),
                },
            ),
        ),
        None => Err(ErrorKind::BaudRateOutOfTolerance { requested: baud_rate }),
    }
}

/// Sets the difficulty on every chip.
pub open spec fn ticket_mask_action(difficulty: usize) -> Action {
    send_and_wait(
        Command::SetConfig {
            chip_address: 0,
            to_all: true,
            value: ConfigValue::TicketMask(difficulty),
        },
    )
}

/// Asks every chip for the difficulty it runs with.
pub open spec fn ticket_mask_readback_action() -> Action {
    send_and_wait(
        Command::GetStatus { chip_address: 0, to_all: true, register: Register::TicketMask },
    )
}

/// The fixed step with number `i`.
///
/// Steps 0 to 4 set the IP core up: off and on again, the baud divisor for
/// the rate of chips fresh out of reset, the work time, the midstate count.
/// Steps 5 to 10 bring the voltage controller up and the power on. Steps 11
/// to 19 pulse the reset: into reset, power off, wait, power on, wait twice
/// as long, out of reset, wait.
pub open spec fn bringup_action(s: CtlState, i: int) -> Result<Action, ErrorKind> {
    if i == 0 {
        Ok(Action::DisableIpCore)
    } else if i == 1 {
        Ok(Action::EnableIpCore)
    } else if i == 2 {
        core_baud_action(INIT_CHIP_BAUD_RATE)
    } else if i == 3 {
        Ok(Action::SetWorkTime { midstate_count: s.midstate_count, pll_frequency: s.pll_frequency })
    } else if i == 4 {
        Ok(Action::SetMidstateCount(s.midstate_count.spec_reg()))
    } else if i == 5 {
        Ok(Action::ResetVoltageCtrl)
    } else if i == 6 {
        Ok(Action::JumpFromLoaderToApp)
    } else if i == 7 {
        Ok(Action::GetVoltageCtrlVersion)
    } else if i == 8 {
        Ok(Action::StartHeartBeat)
    } else if i == 9 {
        Ok(Action::SetInitialVoltage)
    } else if i == 10 {
        Ok(Action::EnableVoltage)
    } else if i == 11 {
        Ok(Action::DisableIpCore)
    } else if i == 12 {
        Ok(Action::SetResetLow)
    } else if i == 13 {
        Ok(Action::DisableVoltage)
    } else if i == 14 {
        Ok(Action::Sleep { millis: INIT_DELAY_MS })
    } else if i == 15 {
        Ok(Action::EnableVoltage)
    } else if i == 16 {
        Ok(Action::Sleep { millis: (2 * INIT_DELAY_MS) as u64 })
    } else if i == 17 {
        Ok(Action::SetResetHigh)
    } else if i == 18 {
        Ok(Action::EnableIpCore)
    } else {
        Ok(Action::Sleep { millis: INIT_DELAY_MS })
    }
}

/// Gives up with `error`.
pub open spec fn fail(s: CtlState, error: ErrorKind) -> (CtlState, Action) {
    (s.at(InitPhase::Failed(error)), Action::Fail(error))
}

/// Goes on to `phase` with `action`, or gives up where there is none.
pub open spec fn issue(s: CtlState, phase: InitPhase, action: Result<Action, ErrorKind>) -> (
    CtlState,
    Action,
) {
    match action {
        Ok(a) => (s.at(phase), a),
        Err(e) => fail(s, e),
    }
}

/// Where a start-up begins: no chips known, the first fixed step under way.
pub open spec fn init_start(s: CtlState) -> (CtlState, Action) {
    issue(CtlState { chip_count: 0, ..s }, InitPhase::Bringup(0), bringup_action(s, 0))
}

/// The fixed step `i` has ended with `event`.
pub open spec fn after_bringup(s: CtlState, i: usize, event: Event) -> (CtlState, Action) {
    if i == VERSION_STEP {
        match event {
            Event::Version(version) => if version == EXPECTED_VOLTAGE_CTRL_VERSION {
                issue(s, InitPhase::Bringup((i + 1) as usize), bringup_action(s, i + 1))
            } else {
                fail(
                    s,
                    ErrorKind::UnexpectedVersion {
                        actual: version,
                        expected: EXPECTED_VOLTAGE_CTRL_VERSION,
                    },
                )
            },
            _ => fail(s, ErrorKind::UnexpectedEvent),
        }
    } else {
        match event {
            Event::Done => if i + 1 < BRINGUP_STEPS {
                issue(s, InitPhase::Bringup((i + 1) as usize), bringup_action(s, i + 1))
            } else {
                (s.at(InitPhase::Requesting), address_request())
            },
            _ => fail(s, ErrorKind::UnexpectedEvent),
        }
    }
}

/// A response has come in after `seen` good ones. Chips are counted up to
/// the number that a chain cannot reach; the count is taken down once the
/// channel has run dry, and only if it is one that a chain can have.
pub open spec fn after_response(s: CtlState, seen: usize, event: Event) -> (CtlState, Action) {
    match event {
        Event::Response(Some(response)) => if response.chip_rev != ChipRev::Bm1387 {
            fail(s, ErrorKind::UnexpectedChipRevision { chip: seen })
        } else if seen < MAX_CHIPS_ON_CHAIN {
            (s.at(InitPhase::Counting((seen + 1) as usize)), Action::RecvResponse)
        } else {
            (s, Action::RecvResponse)
        },
        Event::Response(None) => if seen >= MAX_CHIPS_ON_CHAIN {
            fail(s, ErrorKind::TooManyChips)
        } else if seen == 0 {
            fail(s, ErrorKind::NoChipsDetected)
        } else {
            (
                CtlState { chip_count: seen, phase: InitPhase::Inactivating(0), ..s },
                inactivate_action(0),
            )
        },
        _ => fail(s, ErrorKind::UnexpectedEvent),
    }
}

/// The action of a phase that only waits for it has been carried out.
pub open spec fn after_done(s: CtlState) -> (CtlState, Action) {
    match s.phase {
        InitPhase::Requesting => (s.at(InitPhase::Counting(0)), Action::RecvResponse),
        InitPhase::Inactivating(j) => if j + 1 < 2 * INACTIVATE_FROM_CHAIN_ROUNDS {
            (s.at(InitPhase::Inactivating((j + 1) as usize)), inactivate_action(j + 1))
        } else {
            (s.at(InitPhase::Addressing(0)), address_action(0))
        },
        InitPhase::Addressing(i) => if i + 1 < s.chip_count {
            (s.at(InitPhase::Addressing((i + 1) as usize)), address_action(i + 1))
        } else {
            (s.at(InitPhase::PllSetup(0)), pll_action(0))
        },
        InitPhase::PllSetup(i) => if i + 1 < s.chip_count {
            (s.at(InitPhase::PllSetup((i + 1) as usize)), pll_action(i + 1))
        } else {
            issue(s, InitPhase::ChainBaud, chain_baud_action(TARGET_CHIP_BAUD_RATE, false, true))
        },
        InitPhase::ChainBaud => issue(
            s,
            InitPhase::CoreBaud,
            core_baud_action(TARGET_CHIP_BAUD_RATE),
        ),
        InitPhase::CoreBaud => (
            s.at(InitPhase::TicketMask),
            ticket_mask_action(s.asic_difficulty),
        ),
        InitPhase::TicketMask => (
            s.at(InitPhase::TicketMaskReadback),
            ticket_mask_readback_action(),
        ),
        InitPhase::TicketMaskReadback => (s.at(InitPhase::Ready), Action::Done),
        _ => fail(s, ErrorKind::UnexpectedEvent),
    }
}

/// The whole of the start-up's decisions: where the controller goes, and
/// what it asks for next, when the action under way ends with `event`.
///
/// A controller that is up stays up and one that has given up stays so.
/// One that has not started takes no event. Anywhere else a failed action
/// ends the start-up, and so does an event that cannot answer the action
/// under way.
pub open spec fn init_next(s: CtlState, event: Event) -> (CtlState, Action) {
    match s.phase {
        InitPhase::Ready => (s, Action::Done),
        InitPhase::Failed(error) => (s, Action::Fail(error)),
        InitPhase::Idle => fail(s, ErrorKind::UnexpectedEvent),
        InitPhase::Bringup(i) => if event is Failed {
            fail(s, ErrorKind::Io)
        } else {
            after_bringup(s, i, event)
        },
        InitPhase::Counting(seen) => if event is Failed {
            fail(s, ErrorKind::Io)
        } else {
            after_response(s, seen, event)
        },
        _ => match event {
            Event::Failed => fail(s, ErrorKind::Io),
            Event::Done => after_done(s),
            _ => fail(s, ErrorKind::UnexpectedEvent),
        },
    }
}

} // verus!
