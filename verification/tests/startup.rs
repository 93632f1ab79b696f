use bosminer_am1_s9::command::{
    AddressResponse, ChipRev, Command, ConfigValue, MiscCtrl, Register,
};
use bosminer_am1_s9::config::{
    DEFAULT_PLL_CONFIG, DEFAULT_S9_PLL_FREQUENCY, EXPECTED_VOLTAGE_CTRL_VERSION,
    MAX_CHIPS_ON_CHAIN,
};
use bosminer_am1_s9::error::{ErrorKind, HashboardFault};
use bosminer_am1_s9::hchain_ctl::{HChainCtl, HardwareProbe, PinProbe};
use bosminer_am1_s9::init::{Action, Event, InitPhase, BRINGUP_STEPS, VERSION_STEP};
use bosminer_am1_s9::midstate::{MidstateCount, MidstateCountReg};

const ASIC_DIFFICULTY: usize = 64;
const HASHBOARD_IDX: usize = 8;

/// A hashboard that does what it is told.
struct Board {
    version: u8,
    responses: Vec<AddressResponse>,
    next_response: usize,
}

impl Board {
    fn with_chips(chips: usize) -> Self {
        Board {
            version: EXPECTED_VOLTAGE_CTRL_VERSION,
            responses: (0..chips)
                .map(|_| AddressResponse { chip_rev: ChipRev::Bm1387, addr: 0 })
                .collect(),
            next_response: 0,
        }
    }

    fn perform(&mut self, action: Action) -> Event {
        match action {
            Action::GetVoltageCtrlVersion => Event::Version(self.version),
            Action::RecvResponse => {
                let response = self.responses.get(self.next_response).copied();
                self.next_response += 1;
                Event::Response(response)
            }
            _ => Event::Done,
        }
    }
}

fn good_probe() -> HardwareProbe {
    HardwareProbe { plug_pin: PinProbe::High, rst_pin_available: true, channels_available: true }
}

fn controller(midstates: usize) -> HChainCtl {
    HChainCtl::new(
        &good_probe(),
        HASHBOARD_IDX,
        MidstateCount::new(midstates).unwrap(),
        ASIC_DIFFICULTY,
    )
    .expect("controller")
}

/// Runs the start-up to its end and returns all that was asked for.
fn start_up(ctl: &mut HChainCtl, board: &mut Board) -> Vec<Action> {
    let mut actions = vec![ctl.init()];
    for _ in 0..100_000 {
        let last = *actions.last().unwrap();
        if matches!(last, Action::Done | Action::Fail(_)) {
            return actions;
        }
        let event = board.perform(last);
        actions.push(ctl.step(event));
    }
    panic!("the start-up does not end");
}

fn send(cmd: Command) -> Action {
    Action::SendCommand { cmd, wait: false }
}

fn send_and_wait(cmd: Command) -> Action {
    Action::SendCommand { cmd, wait: true }
}

fn address_request() -> Action {
    send_and_wait(Command::GetStatus {
        chip_address: 0,
        to_all: true,
        register: Register::GetAddress,
    })
}

fn fixed_steps(midstates: usize, reg: MidstateCountReg) -> Vec<Action> {
    vec![
        Action::DisableIpCore,
        Action::EnableIpCore,
        Action::SetBaudClockDiv(26),
        Action::SetWorkTime {
            midstate_count: MidstateCount::new(midstates).unwrap(),
            pll_frequency: 650_000_000,
        },
        Action::SetMidstateCount(reg),
        Action::ResetVoltageCtrl,
        Action::JumpFromLoaderToApp,
        Action::GetVoltageCtrlVersion,
        Action::StartHeartBeat,
        Action::SetInitialVoltage,
        Action::EnableVoltage,
        Action::DisableIpCore,
        Action::SetResetLow,
        Action::DisableVoltage,
        Action::Sleep { millis: 1000 },
        Action::EnableVoltage,
        Action::Sleep { millis: 2000 },
        Action::SetResetHigh,
        Action::EnableIpCore,
        Action::Sleep { millis: 1000 },
    ]
}

fn whole_script(midstates: usize, reg: MidstateCountReg, chips: usize) -> Vec<Action> {
    let mut script = fixed_steps(midstates, reg);
    script.push(address_request());
    for _ in 0..chips + 1 {
        script.push(Action::RecvResponse);
    }
    for _ in 0..3 {
        script.push(send(Command::InactivateFromChain));
        script.push(Action::Sleep { millis: 100 });
    }
    for chip in 0..chips {
        script.push(send(Command::SetChipAddress { chip_address: (4 * chip) as u8 }));
    }
    for chip in 0..chips {
        script.push(send(Command::SetConfig {
            chip_address: (4 * chip) as u8,
            to_all: false,
            value: ConfigValue::Pll(0x21026800),
        }));
    }
    script.push(send_and_wait(Command::SetConfig {
        chip_address: 0,
        to_all: true,
        value: ConfigValue::MiscCtrl(MiscCtrl {
            not_set_baud: false,
            inv_clock: true,
            baud_div: 1,
            gate_block: true,
            mmen: true,
        }),
    }));
    script.push(Action::SetBaudClockDiv(1));
    script.push(send_and_wait(Command::SetConfig {
        chip_address: 0,
        to_all: true,
        value: ConfigValue::TicketMask(ASIC_DIFFICULTY),
    }));
    script.push(send_and_wait(Command::GetStatus {
        chip_address: 0,
        to_all: true,
        register: Register::TicketMask,
    }));
    script.push(Action::Done);
    script
}

fn assigned_addresses(actions: &[Action]) -> Vec<u8> {
    actions
        .iter()
        .filter_map(|action| match action {
            Action::SendCommand { cmd: Command::SetChipAddress { chip_address }, .. } => {
                Some(*chip_address)
            }
            _ => None,
        })
        .collect()
}

#[test]
fn new_controller_knows_its_configuration() {
    let ctl = controller(2);
    assert_eq!(ctl.get_chip_count(), 0);
    assert_eq!(ctl.midstate_count(), MidstateCount::new(2).unwrap());
    assert_eq!(ctl.asic_difficulty(), ASIC_DIFFICULTY);
    assert_eq!(ctl.pll_frequency(), DEFAULT_S9_PLL_FREQUENCY);
    assert_eq!(ctl.pll_frequency(), 650_000_000);
    assert_eq!(ctl.hashboard_idx(), HASHBOARD_IDX);
    assert_eq!(ctl.phase(), InitPhase::Idle);
    assert!(!ctl.is_ready());
    assert!(ctl.chip_iter().is_empty());
}

#[test]
fn controller_needs_the_plug_pin() {
    let probe = HardwareProbe { plug_pin: PinProbe::Unavailable, ..good_probe() };
    let result = HChainCtl::new(&probe, 3, MidstateCount::new(1).unwrap(), 1);
    assert_eq!(
        result.err(),
        Some(ErrorKind::Hashboard(3, HashboardFault::PlugPinUnavailable))
    );
}

#[test]
fn controller_needs_to_read_the_plug_pin() {
    let probe = HardwareProbe { plug_pin: PinProbe::Unreadable, ..good_probe() };
    let result = HChainCtl::new(&probe, 3, MidstateCount::new(1).unwrap(), 1);
    assert_eq!(result.err(), Some(ErrorKind::Hashboard(3, HashboardFault::PlugPinUnreadable)));
}

#[test]
fn controller_needs_a_board_in_the_slot() {
    let probe = HardwareProbe { plug_pin: PinProbe::Low, ..good_probe() };
    let result = HChainCtl::new(&probe, 5, MidstateCount::new(1).unwrap(), 1);
    assert_eq!(result.err(), Some(ErrorKind::Hashboard(5, HashboardFault::NotPresent)));
}

#[test]
fn controller_needs_the_reset_pin() {
    let probe = HardwareProbe { rst_pin_available: false, ..good_probe() };
    let result = HChainCtl::new(&probe, 6, MidstateCount::new(1).unwrap(), 1);
    assert_eq!(
        result.err(),
        Some(ErrorKind::Hashboard(6, HashboardFault::ResetPinUnavailable))
    );
}

#[test]
fn controller_needs_the_channels() {
    let probe = HardwareProbe { channels_available: false, ..good_probe() };
    let result = HChainCtl::new(&probe, 7, MidstateCount::new(1).unwrap(), 1);
    assert_eq!(result.err(), Some(ErrorKind::Hashboard(7, HashboardFault::ChannelUnavailable)));
}

#[test]
fn first_missing_thing_is_reported() {
    let probe = HardwareProbe {
        plug_pin: PinProbe::Low,
        rst_pin_available: false,
        channels_available: false,
    };
    let result = HChainCtl::new(&probe, 1, MidstateCount::new(1).unwrap(), 1);
    assert_eq!(result.err(), Some(ErrorKind::Hashboard(1, HashboardFault::NotPresent)));
    let probe = HardwareProbe {
        plug_pin: PinProbe::High,
        rst_pin_available: false,
        channels_available: false,
    };
    let result = HChainCtl::new(&probe, 1, MidstateCount::new(1).unwrap(), 1);
    assert_eq!(
        result.err(),
        Some(ErrorKind::Hashboard(1, HashboardFault::ResetPinUnavailable))
    );
}

#[test]
fn start_up_of_three_chips() {
    let mut ctl = controller(4);
    let actions = start_up(&mut ctl, &mut Board::with_chips(3));
    assert_eq!(actions, whole_script(4, MidstateCountReg::Four, 3));
    assert_eq!(actions.len(), 32 + 3 * 3 + 1);
    assert_eq!(ctl.get_chip_count(), 3);
    assert!(ctl.is_ready());
    assert_eq!(ctl.phase(), InitPhase::Ready);
    assert_eq!(ctl.chip_iter(), vec![0u8, 4, 8]);
}

#[test]
fn start_up_of_one_chip() {
    let mut ctl = controller(1);
    let actions = start_up(&mut ctl, &mut Board::with_chips(1));
    assert_eq!(actions, whole_script(1, MidstateCountReg::One, 1));
    assert_eq!(ctl.get_chip_count(), 1);
    assert_eq!(assigned_addresses(&actions), vec![0u8]);
}

#[test]
fn start_up_of_the_longest_chain() {
    let mut ctl = controller(2);
    let actions = start_up(&mut ctl, &mut Board::with_chips(63));
    assert_eq!(actions, whole_script(2, MidstateCountReg::Two, 63));
    assert_eq!(ctl.get_chip_count(), 63);
    assert!(ctl.is_ready());
    let addresses = assigned_addresses(&actions);
    assert_eq!(addresses.len(), 63);
    assert_eq!(addresses[62], 248);
    assert_eq!(ctl.chip_iter(), addresses);
}

#[test]
fn addresses_go_out_in_steps_of_four_for_every_chain() {
    for chips in 1..MAX_CHIPS_ON_CHAIN {
        let mut ctl = controller(4);
        let actions = start_up(&mut ctl, &mut Board::with_chips(chips));
        let expected: Vec<u8> = (0..chips).map(|chip| (4 * chip) as u8).collect();
        assert_eq!(assigned_addresses(&actions), expected);
        assert_eq!(ctl.get_chip_count(), chips);
        assert_eq!(actions.last(), Some(&Action::Done));
    }
}

#[test]
fn empty_chain_fails() {
    let mut ctl = controller(4);
    let actions = start_up(&mut ctl, &mut Board::with_chips(0));
    assert_eq!(actions.last(), Some(&Action::Fail(ErrorKind::NoChipsDetected)));
    assert_eq!(actions.len(), 20 + 1 + 1 + 1);
    assert_eq!(ctl.phase(), InitPhase::Failed(ErrorKind::NoChipsDetected));
    assert_eq!(ctl.get_chip_count(), 0);
    assert!(!ctl.is_ready());
    assert!(assigned_addresses(&actions).is_empty());
}

#[test]
fn chain_of_sixty_four_fails() {
    let mut ctl = controller(4);
    let actions = start_up(&mut ctl, &mut Board::with_chips(64));
    assert_eq!(actions.last(), Some(&Action::Fail(ErrorKind::TooManyChips)));
    // every response is fetched before the count is judged
    assert_eq!(actions.iter().filter(|a| **a == Action::RecvResponse).count(), 65);
    assert_eq!(ctl.phase(), InitPhase::Failed(ErrorKind::TooManyChips));
    assert_eq!(ctl.get_chip_count(), 0);
    assert!(assigned_addresses(&actions).is_empty());
}

#[test]
fn overlong_chain_fails() {
    let mut ctl = controller(4);
    let actions = start_up(&mut ctl, &mut Board::with_chips(300));
    assert_eq!(actions.last(), Some(&Action::Fail(ErrorKind::TooManyChips)));
    assert_eq!(actions.iter().filter(|a| **a == Action::RecvResponse).count(), 301);
    assert_eq!(ctl.get_chip_count(), 0);
}

#[test]
fn chip_of_another_revision_fails() {
    let mut ctl = controller(4);
    let mut board = Board::with_chips(5);
    board.responses[2].chip_rev = ChipRev::Other;
    let actions = start_up(&mut ctl, &mut board);
    assert_eq!(
        actions.last(),
        Some(&Action::Fail(ErrorKind::UnexpectedChipRevision { chip: 2 }))
    );
    assert_eq!(ctl.phase(), InitPhase::Failed(ErrorKind::UnexpectedChipRevision { chip: 2 }));
    assert_eq!(ctl.get_chip_count(), 0);
    // the response of the third chip is the last that was fetched
    assert_eq!(board.next_response, 3);
}

#[test]
fn other_firmware_fails() {
    let mut ctl = controller(4);
    let mut board = Board::with_chips(3);
    board.version = 0x04;
    let actions = start_up(&mut ctl, &mut board);
    let error = ErrorKind::UnexpectedVersion { actual: 0x04, expected: 0x03 };
    assert_eq!(actions.last(), Some(&Action::Fail(error)));
    assert_eq!(actions.len(), VERSION_STEP + 2);
    assert_eq!(actions[VERSION_STEP], Action::GetVoltageCtrlVersion);
    assert_eq!(ctl.phase(), InitPhase::Failed(error));
    // the heart beat is not started and the power stays off
    assert!(!actions.contains(&Action::StartHeartBeat));
    assert!(!actions.contains(&Action::EnableVoltage));
}

#[test]
fn failed_action_ends_the_start_up_at_any_step() {
    let steps = whole_script(4, MidstateCountReg::Four, 3).len() - 1;
    for failing in 0..steps {
        let mut ctl = controller(4);
        let mut board = Board::with_chips(3);
        let mut action = ctl.init();
        for _ in 0..failing {
            let event = board.perform(action);
            action = ctl.step(event);
        }
        assert!(!matches!(action, Action::Done | Action::Fail(_)));
        assert_eq!(ctl.step(Event::Failed), Action::Fail(ErrorKind::Io), "step {}", failing);
        assert_eq!(ctl.phase(), InitPhase::Failed(ErrorKind::Io));
        assert!(!ctl.is_ready());
        // and nothing brings it back but a new start
        assert_eq!(ctl.step(Event::Done), Action::Fail(ErrorKind::Io));
        assert_eq!(ctl.step(Event::Response(None)), Action::Fail(ErrorKind::Io));
        assert_eq!(ctl.phase(), InitPhase::Failed(ErrorKind::Io));
    }
}

#[test]
fn event_that_answers_nothing_ends_the_start_up() {
    // a version where none was asked for
    let mut ctl = controller(4);
    ctl.init();
    assert_eq!(ctl.step(Event::Version(3)), Action::Fail(ErrorKind::UnexpectedEvent));
    assert_eq!(ctl.phase(), InitPhase::Failed(ErrorKind::UnexpectedEvent));

    // no version where one was asked for
    let mut ctl = controller(4);
    let mut action = ctl.init();
    while action != Action::GetVoltageCtrlVersion {
        action = ctl.step(Event::Done);
    }
    assert_eq!(ctl.phase(), InitPhase::Bringup(VERSION_STEP));
    assert_eq!(ctl.step(Event::Done), Action::Fail(ErrorKind::UnexpectedEvent));

    // a response during the fixed steps
    let mut ctl = controller(4);
    ctl.init();
    assert_eq!(ctl.step(Event::Response(None)), Action::Fail(ErrorKind::UnexpectedEvent));

    // no response where one was asked for
    let mut ctl = controller(4);
    let mut board = Board::with_chips(3);
    let mut action = ctl.init();
    while action != Action::RecvResponse {
        let event = board.perform(action);
        action = ctl.step(event);
    }
    assert_eq!(ctl.phase(), InitPhase::Counting(0));
    assert_eq!(ctl.step(Event::Done), Action::Fail(ErrorKind::UnexpectedEvent));

    // a response where a command was sent
    let mut ctl = controller(4);
    let mut board = Board::with_chips(1);
    let mut action = ctl.init();
    while action != send(Command::InactivateFromChain) {
        let event = board.perform(action);
        action = ctl.step(event);
    }
    assert_eq!(ctl.phase(), InitPhase::Inactivating(0));
    assert_eq!(ctl.step(Event::Response(None)), Action::Fail(ErrorKind::UnexpectedEvent));
}

#[test]
fn no_event_is_taken_before_the_start() {
    let mut ctl = controller(4);
    assert_eq!(ctl.step(Event::Done), Action::Fail(ErrorKind::UnexpectedEvent));
    assert_eq!(ctl.phase(), InitPhase::Failed(ErrorKind::UnexpectedEvent));
}

#[test]
fn board_that_is_up_stays_up() {
    let mut ctl = controller(4);
    start_up(&mut ctl, &mut Board::with_chips(3));
    for event in [Event::Done, Event::Failed, Event::Version(9), Event::Response(None)] {
        assert_eq!(ctl.step(event), Action::Done);
        assert!(ctl.is_ready());
        assert_eq!(ctl.get_chip_count(), 3);
    }
}

#[test]
fn start_up_can_be_run_again() {
    let mut ctl = controller(4);
    start_up(&mut ctl, &mut Board::with_chips(0));
    assert!(!ctl.is_ready());
    let actions = start_up(&mut ctl, &mut Board::with_chips(2));
    assert_eq!(actions, whole_script(4, MidstateCountReg::Four, 2));
    assert_eq!(ctl.get_chip_count(), 2);

    // a new start forgets the chips
    assert_eq!(ctl.init(), Action::DisableIpCore);
    assert_eq!(ctl.get_chip_count(), 0);
    assert_eq!(ctl.phase(), InitPhase::Bringup(0));
}

#[test]
fn chip_count_is_taken_down_once() {
    let mut ctl = controller(4);
    let mut board = Board::with_chips(3);
    let mut action = ctl.init();
    let mut counts = vec![ctl.get_chip_count()];
    while !matches!(action, Action::Done | Action::Fail(_)) {
        let event = board.perform(action);
        action = ctl.step(event);
        if *counts.last().unwrap() != ctl.get_chip_count() {
            counts.push(ctl.get_chip_count());
        }
    }
    assert_eq!(counts, vec![0, 3]);
}

#[test]
fn phases_follow_the_start_up() {
    let mut ctl = controller(4);
    let mut board = Board::with_chips(2);
    let mut action = ctl.init();
    let mut phases = vec![ctl.phase()];
    while !matches!(action, Action::Done | Action::Fail(_)) {
        let event = board.perform(action);
        action = ctl.step(event);
        phases.push(ctl.phase());
    }
    let mut expected: Vec<InitPhase> = (0..BRINGUP_STEPS).map(InitPhase::Bringup).collect();
    expected.push(InitPhase::Requesting);
    expected.extend([InitPhase::Counting(0), InitPhase::Counting(1), InitPhase::Counting(2)]);
    expected.extend((0..6).map(InitPhase::Inactivating));
    expected.extend([InitPhase::Addressing(0), InitPhase::Addressing(1)]);
    expected.extend([InitPhase::PllSetup(0), InitPhase::PllSetup(1)]);
    expected.extend([
        InitPhase::ChainBaud,
        InitPhase::CoreBaud,
        InitPhase::TicketMask,
        InitPhase::TicketMaskReadback,
        InitPhase::Ready,
    ]);
    assert_eq!(phases, expected);
}

#[test]
fn chips_change_speed_before_the_ip_core() {
    let mut ctl = controller(4);
    let actions = start_up(&mut ctl, &mut Board::with_chips(3));
    let chips = actions
        .iter()
        .position(|a| {
            matches!(
                a,
                Action::SendCommand {
                    cmd: Command::SetConfig { value: ConfigValue::MiscCtrl(_), .. },
                    ..
                }
            )
        })
        .unwrap();
    let core = actions.iter().rposition(|a| matches!(a, Action::SetBaudClockDiv(_))).unwrap();
    assert_eq!(core, chips + 1);
    assert_eq!(actions[core], Action::SetBaudClockDiv(1));
    assert_eq!(DEFAULT_PLL_CONFIG, 0x21026800);
}
