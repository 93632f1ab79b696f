use crate::baud::{calc_baud_clock_div, lemma_baud_setting_bounds};
use crate::command::{ChipRev, Command, ConfigValue, MiscCtrl, Register};
use crate::config::{
    CHIP_ADDRESS_STEP, CHIP_OSC_CLK_BASE_BAUD_DIV, CHIP_OSC_CLK_HZ, DEFAULT_PLL_CONFIG,
    DEFAULT_S9_PLL_FREQUENCY, EXPECTED_VOLTAGE_CTRL_VERSION, FPGA_IPCORE_F_CLK_BASE_BAUD_DIV,
    FPGA_IPCORE_F_CLK_SPEED_HZ, INACTIVATE_FROM_CHAIN_DELAY_MS, INACTIVATE_FROM_CHAIN_ROUNDS,
    INIT_CHIP_BAUD_RATE, INIT_DELAY_MS, MAX_CHIPS_ON_CHAIN, TARGET_CHIP_BAUD_RATE,
};
use crate::error::{ErrorKind, HashboardFault};
use crate::init::{
    address_action, address_request, bringup_action, chain_baud_action, chip_address,
    core_baud_action, fail, inactivate_action, init_next, init_start, issue, pll_action,
    ticket_mask_action, ticket_mask_readback_action, Action, CtlState, Event, InitPhase,
    BRINGUP_STEPS, VERSION_STEP,
};
use crate::midstate::MidstateCount;
use vstd::prelude::*;

verus! {

/// What was found of an input pin.
#[derive(Debug, Clone, Copy, PartialEq, Eq, Structural)]
pub enum PinProbe {
    /// The pin could not be obtained.
    Unavailable,
    /// The pin is there and could not be read.
    Unreadable,
    /// The pin reads low.
    Low,
    /// The pin reads high.
    High,
}

/// What was found of the hardware that a controller needs, in the order in
/// which it is looked for. What comes after the first thing that is missing
/// has not been looked for and counts for nothing.
#[derive(Debug, Clone, Copy, PartialEq, Eq)]
pub struct HardwareProbe {
    /// Plug pin: high where a hashboard is in the slot.
    pub plug_pin: PinProbe,
    /// Whether the pin that resets the hashboard could be obtained.
    pub rst_pin_available: bool,
    /// Whether the four I/O channels of the IP core are set up: config,
    /// command, work transmit and work receive.
    pub channels_available: bool,
}

impl HardwareProbe {
    /// The first thing that keeps a controller from being made, if any.
    pub open spec fn fault(self) -> Option<HashboardFault> {
        match self.plug_pin {
            PinProbe::Unavailable => Some(HashboardFault::PlugPinUnavailable),
            PinProbe::Unreadable => Some(HashboardFault::PlugPinUnreadable),
            PinProbe::Low => Some(HashboardFault::NotPresent),
            PinProbe::High => if !self.rst_pin_available {
                Some(HashboardFault::ResetPinUnavailable)
            } else if !self.channels_available {
                Some(HashboardFault::ChannelUnavailable)
            } else {
                None
            },
        }
    }
}

/// Hash chain controller: the decisions of the driver of one hashboard.
///
/// It knows the board's configuration and how far the start-up has come,
/// and it owns no hardware. `init` and `step` hand out the actions that
/// bring the board up, one at a time, each in answer to how the one before
/// has ended.
#[derive(Debug)]
pub struct HChainCtl {
    /// Number of chips that have been detected
    chip_count: usize,
    /// Spares asking the IP core for the number of configured midstates
    midstate_count: MidstateCount,
    /// ASIC difficulty
    asic_difficulty: usize,
    /// PLL frequency
    pll_frequency: u64,
    /// Which hashboard this is
    hashboard_idx: usize,
    /// How far the start-up has come
    phase: InitPhase,
}

impl View for HChainCtl {
    type V = CtlState;

    closed spec fn view(&self) -> CtlState {
        CtlState {
            chip_count: self.chip_count,
            midstate_count: self.midstate_count,
            asic_difficulty: self.asic_difficulty,
            pll_frequency: self.pll_frequency,
            hashboard_idx: self.hashboard_idx,
            phase: self.phase,
        }
    }
}

impl HChainCtl {
    #[verifier::type_invariant]
    closed spec fn inv(self) -> bool {
        self@.wf()
    }

    /// Creates the controller of the hashboard with index `hashboard_idx`,
    /// where `probe` has found everything that it takes:
    ///
    /// * the plug pin, reading that the board is present,
    /// * the reset pin,
    /// * the I/O channels of the IP core.
    ///
    /// The controller has not started and knows of no chips. The PLL
    /// frequency is the default one.
    pub fn new(
        probe: &HardwareProbe,
        hashboard_idx: usize,
        midstate_count: MidstateCount,
        asic_difficulty: usize,
    ) -> (r: Result<Self, ErrorKind>)
        ensures
            match probe.fault() {
                Some(fault) => r == Err::<Self, ErrorKind>(
                    ErrorKind::Hashboard(hashboard_idx, fault),
                ),
                None => r matches Ok(ctl) && ctl@ == (CtlState {
                    chip_count: 0,
                    midstate_count,
                    asic_difficulty,
                    pll_frequency: DEFAULT_S9_PLL_FREQUENCY,
                    hashboard_idx,
                    phase: InitPhase::Idle,
                }),
            },
    {
        // Hashboard creation is aborted if the pin is not present
        match probe.plug_pin {
            PinProbe::Unavailable => {
                return Err(
                    ErrorKind::Hashboard(hashboard_idx, HashboardFault::PlugPinUnavailable),
                );
            },
            PinProbe::Unreadable => {
                return Err(ErrorKind::Hashboard(hashboard_idx, HashboardFault::PlugPinUnreadable));
            },
            // also detect that the board is present
            PinProbe::Low => {
                return Err(ErrorKind::Hashboard(hashboard_idx, HashboardFault::NotPresent));
            },
            PinProbe::High => {},
        }
        if !probe.rst_pin_available {
            return Err(ErrorKind::Hashboard(hashboard_idx, HashboardFault::ResetPinUnavailable));
        }
        if !probe.channels_available {
            return Err(ErrorKind::Hashboard(hashboard_idx, HashboardFault::ChannelUnavailable));
        }
        Ok(
            Self {
                chip_count: 0,
                midstate_count,
                asic_difficulty,
                pll_frequency: DEFAULT_S9_PLL_FREQUENCY,
                hashboard_idx,
                phase: InitPhase::Idle,
            },
        )
    }

    /// Number of chips that have been detected.
    pub fn get_chip_count(&self) -> (r: usize)
        ensures
            r == self@.chip_count,
            r < MAX_CHIPS_ON_CHAIN,
    {
        proof {
            use_type_invariant(self);
        }
        self.chip_count
    }

    /// Number of midstates that go with each work.
    pub fn midstate_count(&self) -> (r: MidstateCount)
        ensures
            r == self@.midstate_count,
    {
        self.midstate_count
    }

    /// Difficulty that the chips are set to.
    pub fn asic_difficulty(&self) -> (r: usize)
        ensures
            r == self@.asic_difficulty,
    {
        self.asic_difficulty
    }

    /// Frequency of the chips' PLL in Hz.
    pub fn pll_frequency(&self) -> (r: u64)
        ensures
            r == self@.pll_frequency,
    {
        self.pll_frequency
    }

    /// Index of the hashboard.
    pub fn hashboard_idx(&self) -> (r: usize)
        ensures
            r == self@.hashboard_idx,
    {
        self.hashboard_idx
    }

    /// Bus addresses of all chips, in the order of the chain.
    pub fn chip_iter(&self) -> (r: Vec<u8>)
        ensures
            r@ == Seq::new(self@.chip_count as nat, |i: int| chip_address(i)),
    {
        proof {
            use_type_invariant(self);
        }
        let mut addresses: Vec<u8> = Vec::new();
        let mut i: usize = 0;
        while i < self.chip_count
            invariant
                i <= self.chip_count < MAX_CHIPS_ON_CHAIN,
                addresses@ == Seq::new(i as nat, |j: int| chip_address(j)),
            decreases self.chip_count - i,
        {
            addresses.push(Self::chip_addr(i));
            i += 1;
        }
        addresses
    }

    /// How far the start-up has come.
    pub fn phase(&self) -> (r: InitPhase)
        ensures
            r == self@.phase,
    {
        self.phase
    }

    /// Whether the start-up has come to its good end.
    pub fn is_ready(&self) -> (r: bool)
        ensures
            r == (self@.phase is Ready),
    {
        match self.phase {
            InitPhase::Ready => true,
            _ => false,
        }
    }

    /// Action that sets the IP core to `baud`.
    ///
    /// The IP core should change its speed only once all chips in the
    /// chain have been set to the new one.
    fn set_ip_core_baud_rate(baud: usize) -> (r: Result<Action, ErrorKind>)
        requires
            baud > 0,
        ensures
            r == core_baud_action(baud),
    {
        proof {
            lemma_baud_setting_bounds(
                baud as nat,
                FPGA_IPCORE_F_CLK_SPEED_HZ as nat,
                FPGA_IPCORE_F_CLK_BASE_BAUD_DIV as nat,
            );
        }
        match calc_baud_clock_div(
            baud,
            FPGA_IPCORE_F_CLK_SPEED_HZ,
            FPGA_IPCORE_F_CLK_BASE_BAUD_DIV,
        ) {
            Ok((baud_clock_div, _)) => Ok(Action::SetBaudClockDiv(baud_clock_div as u32)),
            Err(e) => Err(e),
        }
    }

    /// Action that programs the miscellaneous control register of every
    /// chip in the chain.
    ///
    /// * `baud_rate` - desired communication speed
    /// * `not_set_baud` - the chips work the divisor out and ignore it
    /// * `gate_block` - lets the chips start one after the other while
    ///   they keep receiving a placeholder job
    fn configure_hash_chain(baud_rate: usize, not_set_baud: bool, gate_block: bool) -> (r: Result<
        Action,
        ErrorKind,
    >)
        requires
            baud_rate > 0,
        ensures
            r == chain_baud_action(baud_rate, not_set_baud, gate_block),
    {
        match calc_baud_clock_div(baud_rate, CHIP_OSC_CLK_HZ, CHIP_OSC_CLK_BASE_BAUD_DIV) {
            Ok((baud_clock_div, _)) => {
                // Each chip is always configured with inverted clock
                let ctl_reg = MiscCtrl {
                    not_set_baud,
                    inv_clock: true,
                    baud_div: baud_clock_div,
                    gate_block,
                    mmen: true,
                };
                Ok(
                    Action::SendCommand {
                        cmd: Command::SetConfig {
                            chip_address: 0,
                            to_all: true,
                            value: ConfigValue::MiscCtrl(ctl_reg),
                        },
                        wait: true,
                    },
                )
            },
            Err(e) => Err(e),
        }
    }

    /// Action that sets the difficulty on all chips of the chain.
    fn set_asic_diff(difficulty: usize) -> (r: Action)
        ensures
            r == ticket_mask_action(difficulty),
    {
        Action::SendCommand {
            cmd: Command::SetConfig {
                chip_address: 0,
                to_all: true,
                value: ConfigValue::TicketMask(difficulty),
            },
            wait: true,
        }
    }

    /// Action that asks all chips for the difficulty they have been set to.
    /// The answers are not compared with what was set: the request is all
    /// that the start-up makes of the round trip.
    fn read_asic_diff() -> (r: Action)
        ensures
            r == ticket_mask_readback_action(),
    {
        Action::SendCommand {
            cmd: Command::GetStatus {
                chip_address: 0,
                to_all: true,
                register: Register::TicketMask,
            },
            wait: true,
        }
    }

    /// Bus address of the chip at position `i`.
    fn chip_addr(i: usize) -> (r: u8)
        requires
            i < MAX_CHIPS_ON_CHAIN,
        ensures
            r == chip_address(i as int),
    {
        (CHIP_ADDRESS_STEP * i) as u8
    }

    /// Action that gives the chip at position `i` its address.
    fn set_chip_address(i: usize) -> (r: Action)
        requires
            i < MAX_CHIPS_ON_CHAIN,
        ensures
            r == address_action(i as int),
    {
        Action::SendCommand {
            cmd: Command::SetChipAddress { chip_address: Self::chip_addr(i) },
            wait: false,
        }
    }

    /// Action that loads the PLL register of the chip at position `i` with
    /// the starting value.
    fn set_pll(i: usize) -> (r: Action)
        requires
            i < MAX_CHIPS_ON_CHAIN,
        ensures
            r == pll_action(i as int),
    {
        Action::SendCommand {
            cmd: Command::SetConfig {
                chip_address: Self::chip_addr(i),
                to_all: false,
                value: ConfigValue::Pll(DEFAULT_PLL_CONFIG),
            },
            wait: false,
        }
    }

    /// Action of step `j` of taking the chips off the chain.
    fn inactivate(j: usize) -> (r: Action)
        ensures
            r == inactivate_action(j as int),
    {
        if j % 2 == 0 {
            Action::SendCommand { cmd: Command::InactivateFromChain, wait: false }
        } else {
            Action::Sleep { millis: INACTIVATE_FROM_CHAIN_DELAY_MS }
        }
    }

    /// Action that asks every chip for its address register.
    fn request_addresses() -> (r: Action)
        ensures
            r == address_request(),
    {
        Action::SendCommand {
            cmd: Command::GetStatus {
                chip_address: 0,
                to_all: true,
                register: Register::GetAddress,
            },
            wait: true,
        }
    }

    /// The fixed step with number `i`.
    fn bringup(&self, i: usize) -> (r: Result<Action, ErrorKind>)
        requires
            i < BRINGUP_STEPS,
        ensures
            r == bringup_action(self@, i as int),
    {
        match i {
            // IP core
            0 => Ok(Action::DisableIpCore),
            1 => Ok(Action::EnableIpCore),
            2 => Self::set_ip_core_baud_rate(INIT_CHIP_BAUD_RATE),
            3 => Ok(
                Action::SetWorkTime {
                    midstate_count: self.midstate_count,
                    pll_frequency: self.pll_frequency,
                },
            ),
            4 => Ok(Action::SetMidstateCount(self.midstate_count.to_reg())),
            // voltage controller
            5 => Ok(Action::ResetVoltageCtrl),
            6 => Ok(Action::JumpFromLoaderToApp),
            7 => Ok(Action::GetVoltageCtrlVersion),
            // Voltage controller successfully initialized at this point, we
            // should start sending heart beats to it. Otherwise, it would
            // shut down in about 10 seconds.
            8 => Ok(Action::StartHeartBeat),
            9 => Ok(Action::SetInitialVoltage),
            10 => Ok(Action::EnableVoltage),
            // enter reset
            11 => Ok(Action::DisableIpCore),
            12 => Ok(Action::SetResetLow),
            13 => Ok(Action::DisableVoltage),
            14 => Ok(Action::Sleep { millis: INIT_DELAY_MS }),
            15 => Ok(Action::EnableVoltage),
            16 => Ok(Action::Sleep { millis: 2 * INIT_DELAY_MS }),
            // exit reset
            17 => Ok(Action::SetResetHigh),
            18 => Ok(Action::EnableIpCore),
            _ => Ok(Action::Sleep { millis: INIT_DELAY_MS }),
        }
    }

    /// Gives up with `error`.
    fn fail(&mut self, error: ErrorKind) -> (action: Action)
        ensures
            (final(self)@, action) == fail(old(self)@, error),
    {
        proof {
            use_type_invariant(&*self);
        }
        self.phase = InitPhase::Failed(error);
        Action::Fail(error)
    }

    /// Goes on to `phase` with `action`, or gives up where there is none.
    fn issue(&mut self, phase: InitPhase, action: Result<Action, ErrorKind>) -> (r: Action)
        requires
            old(self)@.at(phase).wf(),
        ensures
            (final(self)@, r) == issue(old(self)@, phase, action),
    {
        match action {
            Ok(a) => {
                self.phase = phase;
                a
            },
            Err(e) => self.fail(e),
        }
    }

    /// Starts the complete initialization of the hashboard, including the
    /// enumeration of all chips, and returns its first action. A start-up
    /// that is under way, or over, is dropped.
    ///
    /// The start-up is an ordered sequence that cannot be resumed: carry
    /// each action out and hand its outcome to `step`, which returns the
    /// next one, until the action is `Done` or `Fail`.
    pub fn init(&mut self) -> (action: Action)
        ensures
            (final(self)@, action) == init_start(old(self)@),
            final(self)@.wf(),
    {
        proof {
            use_type_invariant(&*self);
        }
        self.phase = InitPhase::Idle;
        self.chip_count = 0;
        let first = self.bringup(0);
        self.issue(InitPhase::Bringup(0), first)
    }

    /// Takes the outcome of the action handed out last and returns the
    /// next one.
    pub fn step(&mut self, event: Event) -> (action: Action)
        ensures
            (final(self)@, action) == init_next(old(self)@, event),
            old(self)@.wf(),
            final(self)@.wf(),
    {
        proof {
            use_type_invariant(&*self);
        }
        match self.phase {
            InitPhase::Ready => Action::Done,
            InitPhase::Failed(error) => Action::Fail(error),
            InitPhase::Idle => self.fail(ErrorKind::UnexpectedEvent),
            InitPhase::Bringup(i) => match event {
                Event::Failed => self.fail(ErrorKind::Io),
                Event::Version(version) => {
                    if i != VERSION_STEP {
                        self.fail(ErrorKind::UnexpectedEvent)
                    } else if version != EXPECTED_VOLTAGE_CTRL_VERSION {
                        self.fail(
                            ErrorKind::UnexpectedVersion {
                                actual: version,
                                expected: EXPECTED_VOLTAGE_CTRL_VERSION,
                            },
                        )
                    } else {
                        let next = self.bringup(i + 1);
                        self.issue(InitPhase::Bringup(i + 1), next)
                    }
                },
                Event::Done => {
                    if i == VERSION_STEP {
                        self.fail(ErrorKind::UnexpectedEvent)
                    } else if i + 1 < BRINGUP_STEPS {
                        let next = self.bringup(i + 1);
                        self.issue(InitPhase::Bringup(i + 1), next)
                    } else {
                        // Enumerate all chips (broadcast read address
                        // register request)
                        self.phase = InitPhase::Requesting;
                        Self::request_addresses()
                    }
                },
                Event::Response(_) => self.fail(ErrorKind::UnexpectedEvent),
            },
            InitPhase::Counting(seen) => match event {
                Event::Failed => self.fail(ErrorKind::Io),
                Event::Response(Some(addr_reg)) => {
                    match addr_reg.chip_rev {
                        ChipRev::Bm1387 => {
                            if seen < MAX_CHIPS_ON_CHAIN {
                                self.phase = InitPhase::Counting(seen + 1);
                            }
                            Action::RecvResponse
                        },
                        ChipRev::Other => self.fail(
                            ErrorKind::UnexpectedChipRevision { chip: seen },
                        ),
                    }
                },
                Event::Response(None) => {
                    if seen >= MAX_CHIPS_ON_CHAIN {
                        self.fail(ErrorKind::TooManyChips)
                    } else if seen == 0 {
                        self.fail(ErrorKind::NoChipsDetected)
                    } else {
                        // Set all chips to be offline before address
                        // assignment. This is important so that each chip
                        // after initially accepting the address will pass
                        // on further addresses down the chain
                        self.chip_count = seen;
                        self.phase = InitPhase::Inactivating(0);
                        Self::inactivate(0)
                    }
                },
                _ => self.fail(ErrorKind::UnexpectedEvent),
            },
            _ => match event {
                Event::Failed => self.fail(ErrorKind::Io),
                Event::Done => self.after_done(),
                _ => self.fail(ErrorKind::UnexpectedEvent),
            },
        }
    }

    /// The action of a phase that only waits for it has been carried out.
    fn after_done(&mut self) -> (action: Action)
        ensures
            (final(self)@, action) == crate::init::after_done(old(self)@),
    {
        proof {
            use_type_invariant(&*self);
        }
        match self.phase {
            InitPhase::Requesting => {
                self.phase = InitPhase::Counting(0);
                Action::RecvResponse
            },
            // make sure all chips receive inactivation request
            InitPhase::Inactivating(j) => {
                if j + 1 < 2 * INACTIVATE_FROM_CHAIN_ROUNDS {
                    self.phase = InitPhase::Inactivating(j + 1);
                    Self::inactivate(j + 1)
                } else {
                    // Assign address to each chip
                    self.phase = InitPhase::Addressing(0);
                    Self::set_chip_address(0)
                }
            },
            InitPhase::Addressing(i) => {
                if i + 1 < self.chip_count {
                    self.phase = InitPhase::Addressing(i + 1);
                    Self::set_chip_address(i + 1)
                } else {
                    self.phase = InitPhase::PllSetup(0);
                    Self::set_pll(0)
                }
            },
            InitPhase::PllSetup(i) => {
                if i + 1 < self.chip_count {
                    self.phase = InitPhase::PllSetup(i + 1);
                    Self::set_pll(i + 1)
                } else {
                    // configure the hashing chain to operate at desired
                    // baud rate. Note that gate block is enabled to allow
                    // continuous start of chips in the chain
                    let next = Self::configure_hash_chain(TARGET_CHIP_BAUD_RATE, false, true);
                    self.issue(InitPhase::ChainBaud, next)
                }
            },
            InitPhase::ChainBaud => {
                let next = Self::set_ip_core_baud_rate(TARGET_CHIP_BAUD_RATE);
                self.issue(InitPhase::CoreBaud, next)
            },
            InitPhase::CoreBaud => {
                self.phase = InitPhase::TicketMask;
                Self::set_asic_diff(self.asic_difficulty)
            },
            InitPhase::TicketMask => {
                self.phase = InitPhase::TicketMaskReadback;
                Self::read_asic_diff()
            },
            InitPhase::TicketMaskReadback => {
                self.phase = InitPhase::Ready;
                Action::Done
            },
            _ => self.fail(ErrorKind::UnexpectedEvent),
        }
    }
}

} // verus!
