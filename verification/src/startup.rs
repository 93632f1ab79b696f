//! The start-up as a whole: what the controller asks for, in which order,
//! when everything it asks for is done, and where it stops when the chain
//! is empty or overlong.

use crate::baud::lemma_default_baud_settings;
use crate::command::{AddressResponse, ChipRev, Command, ConfigValue, MiscCtrl};
use crate::config::{
    EXPECTED_VOLTAGE_CTRL_VERSION, INACTIVATE_FROM_CHAIN_ROUNDS, INIT_DELAY_MS,
    MAX_CHIPS_ON_CHAIN,
};
use crate::error::ErrorKind;
use crate::init::{
    address_action, address_request, bringup_action, inactivate_action, init_next, init_start,
    pll_action, send_and_wait, ticket_mask_action, ticket_mask_readback_action, Action, CtlState,
    Event, InitPhase, BRINGUP_STEPS, VERSION_STEP,
};
use crate::trace::{lemma_run_concat, lemma_run_steps};
use vstd::prelude::*;

verus! {

/// The start-up as a machine.
pub open spec fn init_machine() -> spec_fn(CtlState, Event) -> (CtlState, Action) {
    |s: CtlState, event: Event| init_next(s, event)
}

/// Where the controller ends up, and all that it has asked for on the way,
/// when the actions it hands out end with `events`, oldest first.
pub open spec fn run(s: CtlState, events: Seq<Event>) -> (CtlState, Seq<Action>) {
    crate::trace::run(init_machine(), s, events)
}

/// `n` times `Event::Done`.
pub open spec fn done_events(n: nat) -> Seq<Event> {
    Seq::new(n, |i: int| Event::Done)
}

/// The outcomes of the fixed steps when all goes well: each is done, and
/// the voltage controller reports the expected version.
pub open spec fn bringup_events() -> Seq<Event> {
    Seq::new(
        BRINGUP_STEPS as nat,
        |i: int|
            if i == VERSION_STEP {
                Event::Version(EXPECTED_VOLTAGE_CTRL_VERSION)
            } else {
                Event::Done
            },
    )
}

/// What the command channel yields when it holds `responses` and then
/// nothing more.
pub open spec fn response_events(responses: Seq<AddressResponse>) -> Seq<Event> {
    Seq::new(responses.len(), |i: int| Event::Response(Some(responses[i]))).push(
        Event::Response(None),
    )
}

/// Every response comes from a chip of the supported revision.
pub open spec fn all_supported(responses: Seq<AddressResponse>) -> bool {
    forall|i: int|
        0 <= i < responses.len() ==> (#[trigger] responses[i]).chip_rev == ChipRev::Bm1387
}

/// The outcomes of a chip enumeration that goes well: the request leaves,
/// the channel yields `responses`, and every command after that is sent.
pub open spec fn enumeration_events(responses: Seq<AddressResponse>) -> Seq<Event> {
    seq![Event::Done] + response_events(responses) + done_events(
        (2 * INACTIVATE_FROM_CHAIN_ROUNDS + responses.len() - 1) as nat,
    )
}

/// The outcomes of a start-up that goes well on a chain that answers with
/// `responses`.
pub open spec fn startup_events(responses: Seq<AddressResponse>) -> Seq<Event> {
    bringup_events() + enumeration_events(responses) + done_events(responses.len() + 5)
}

/// Setting up the IP core: off and on, the divisor for the rate of chips
/// fresh out of reset, the work time, the midstate count.
pub open spec fn ip_core_script(s: CtlState) -> Seq<Action> {
    seq![
        Action::DisableIpCore,
        Action::EnableIpCore,
        Action::SetBaudClockDiv(26),
        Action::SetWorkTime { midstate_count: s.midstate_count, pll_frequency: s.pll_frequency },
        Action::SetMidstateCount(s.midstate_count.spec_reg()),
    ]
}

/// Bringing the voltage controller up and the power on.
pub open spec fn power_up_script() -> Seq<Action> {
    seq![
        Action::ResetVoltageCtrl,
        Action::JumpFromLoaderToApp,
        Action::GetVoltageCtrlVersion,
        Action::StartHeartBeat,
        Action::SetInitialVoltage,
        Action::EnableVoltage,
    ]
}

/// A clean power-on reset of all chips: into reset, power off, wait, power
/// on, wait, out of reset, wait.
pub open spec fn reset_script() -> Seq<Action> {
    seq![
        Action::DisableIpCore,
        Action::SetResetLow,
        Action::DisableVoltage,
        Action::Sleep { millis: INIT_DELAY_MS },
        Action::EnableVoltage,
        Action::Sleep { millis: 2000 },
        Action::SetResetHigh,
        Action::EnableIpCore,
        Action::Sleep { millis: INIT_DELAY_MS },
    ]
}

/// Counting `chips` chips and giving each its address: once for every
/// chip and once more the channel is asked for a response, three times the
/// chips are told to leave the chain and given time to do so, and then the
/// addresses go out in the order of the chain, 0 first.
pub open spec fn enumeration_script(chips: nat) -> Seq<Action> {
    Seq::new(chips + 1, |i: int| Action::RecvResponse) + Seq::new(
        2 * INACTIVATE_FROM_CHAIN_ROUNDS as nat,
        |j: int| inactivate_action(j),
    ) + Seq::new(chips, |i: int| address_action(i))
}

/// Loading the PLL of every chip, in the order of the chain.
pub open spec fn pll_script(chips: nat) -> Seq<Action> {
    Seq::new(chips, |i: int| pll_action(i))
}

/// Going to full speed: the chips are set to the target baud rate, with
/// gradual start enabled, before the IP core is; then the difficulty is
/// set on every chip and asked back.
pub open spec fn speed_up_script(s: CtlState) -> Seq<Action> {
    seq![
        send_and_wait(
            Command::SetConfig {
                chip_address: 0,
                to_all: true,
                value: ConfigValue::MiscCtrl(
                    MiscCtrl {
                        not_set_baud: false,
                        inv_clock: true,
                        baud_div: 1,
                        gate_block: true,
                        mmen: true,
                    },
                ),
            },
        ),
        Action::SetBaudClockDiv(1),
        ticket_mask_action(s.asic_difficulty),
        ticket_mask_readback_action(),
    ]
}

/// Every action of a start-up that goes well on a chain of `chips` chips.
pub open spec fn startup_script(s: CtlState, chips: nat) -> Seq<Action> {
    ip_core_script(s) + power_up_script() + reset_script() + seq![address_request()]
        + enumeration_script(chips) + pll_script(chips) + speed_up_script(s) + seq![Action::Done]
}

/// Once the start-up has failed it stays failed, whatever comes in, and
/// answers everything with its error.
pub proof fn lemma_failure_is_final(s: CtlState, events: Seq<Event>)
    requires
        s.phase is Failed,
    ensures
        run(s, events) == (s, Seq::new(events.len(), |i: int| Action::Fail(s.phase->Failed_0))),
    decreases events.len(),
{
    let fails = |i: int| Action::Fail(s.phase->Failed_0);
    if events.len() == 0 {
        assert(Seq::new(events.len(), fails) =~= Seq::<Action>::empty());
    } else {
        lemma_failure_is_final(s, events.drop_last());
        assert(Seq::new((events.len() - 1) as nat, fails).push(Action::Fail(s.phase->Failed_0))
            =~= Seq::new(events.len(), fails));
    }
}

/// An action that cannot be carried out ends a start-up that is under way,
/// at whatever step.
pub proof fn lemma_failed_action_aborts(s: CtlState)
    requires
        !(s.phase is Idle || s.phase is Ready || s.phase is Failed),
    ensures
        init_next(s, Event::Failed) == (
            s.at(InitPhase::Failed(ErrorKind::Io)),
            Action::Fail(ErrorKind::Io),
        ),
{
}

/// The start-up keeps a controller well formed and its configuration as it
/// is, and writes the chip count once: when the channel has run dry after
/// a number of good responses that a chain can have.
pub proof fn lemma_step_keeps(s: CtlState, event: Event)
    requires
        s.wf(),
    ensures
        init_next(s, event).0.wf(),
        init_next(s, event).0.midstate_count == s.midstate_count,
        init_next(s, event).0.asic_difficulty == s.asic_difficulty,
        init_next(s, event).0.pll_frequency == s.pll_frequency,
        init_next(s, event).0.hashboard_idx == s.hashboard_idx,
        init_next(s, event).0.chip_count != s.chip_count ==> s.phase is Counting
            && event == Event::Response(None) && init_next(s, event).0.chip_count
            == s.phase->Counting_0,
{
}

/// The fixed part of the start-up: started on any controller and with
/// every step done, it runs through the IP core set-up, the power-up and
/// the reset pulse, in this order, and ends with the address request.
pub proof fn lemma_bringup(s: CtlState)
    ensures
        ({
            let (started, first) = init_start(s);
            let (end, rest) = run(started, bringup_events());
            &&& end == CtlState { chip_count: 0, phase: InitPhase::Requesting, ..s }
            &&& seq![first] + rest == ip_core_script(s) + power_up_script() + reset_script()
                + seq![address_request()]
        }),
{
    lemma_default_baud_settings();
    let base = CtlState { chip_count: 0, ..s };
    let state_at = |i: int|
        if i < BRINGUP_STEPS {
            base.at(InitPhase::Bringup(i as usize))
        } else {
            base.at(InitPhase::Requesting)
        };
    let event_at = |i: int|
        if i == VERSION_STEP {
            Event::Version(EXPECTED_VOLTAGE_CTRL_VERSION)
        } else {
            Event::Done
        };
    let action_at = |i: int|
        if i + 1 < BRINGUP_STEPS {
            bringup_action(s, i + 1)->Ok_0
        } else {
            address_request()
        };
    assert forall|i: int| 0 <= i < BRINGUP_STEPS implies init_next(
        #[trigger] state_at(i),
        event_at(i),
    ) == (state_at(i + 1), action_at(i)) by {
        assert(bringup_action(state_at(i), i + 1) == bringup_action(s, i + 1));
        assert(bringup_action(s, i + 1) is Ok);
    }
    lemma_run_steps(init_machine(), BRINGUP_STEPS as nat, state_at, event_at, action_at);
    let (started, first) = init_start(s);
    assert(started == state_at(0));
    assert(bringup_events() =~= Seq::new(BRINGUP_STEPS as nat, event_at));
    let script = ip_core_script(s) + power_up_script() + reset_script() + seq![address_request()];
    let actions = seq![first] + Seq::new(BRINGUP_STEPS as nat, action_at);
    assert(actions.len() == script.len());
    assert forall|i: int| 0 <= i < script.len() implies actions[i] == script[i] by {
        if i > 0 {
            assert(actions[i] == action_at(i - 1));
        }
    }
    assert(actions =~= script);
}

/// Where an enumeration that goes well stands after `i` events.
spec fn enumeration_state(s: CtlState, chips: int, i: int) -> CtlState {
    let rounds = 2 * INACTIVATE_FROM_CHAIN_ROUNDS as int;
    let counted = CtlState { chip_count: chips as usize, ..s };
    if i == 0 {
        s
    } else if i <= chips + 1 {
        s.at(InitPhase::Counting((i - 1) as usize))
    } else if i < chips + 2 + rounds {
        counted.at(InitPhase::Inactivating((i - (chips + 2)) as usize))
    } else {
        counted.at(InitPhase::Addressing((i - (chips + 2 + rounds)) as usize))
    }
}

/// The event with number `i` of an enumeration that goes well.
spec fn enumeration_event(responses: Seq<AddressResponse>, i: int) -> Event {
    if i == 0 {
        Event::Done
    } else if i <= responses.len() {
        Event::Response(Some(responses[i - 1]))
    } else if i == responses.len() + 1 {
        Event::Response(None)
    } else {
        Event::Done
    }
}

/// The action that answers event `i` of an enumeration that goes well.
spec fn enumeration_action(chips: int, i: int) -> Action {
    let rounds = 2 * INACTIVATE_FROM_CHAIN_ROUNDS as int;
    if i <= chips {
        Action::RecvResponse
    } else if i < chips + 1 + rounds {
        inactivate_action(i - (chips + 1))
    } else {
        address_action(i - (chips + 1 + rounds))
    }
}

proof fn lemma_enumeration_step(s: CtlState, responses: Seq<AddressResponse>, i: int)
    requires
        s.phase is Requesting,
        1 <= responses.len() < MAX_CHIPS_ON_CHAIN,
        all_supported(responses),
        0 <= i < 2 * responses.len() + 2 * INACTIVATE_FROM_CHAIN_ROUNDS + 1,
    ensures
        init_next(
            enumeration_state(s, responses.len() as int, i),
            enumeration_event(responses, i),
        ) == (
            enumeration_state(s, responses.len() as int, i + 1),
            enumeration_action(responses.len() as int, i),
        ),
{
    if 1 <= i <= responses.len() {
        assert(responses[i - 1].chip_rev == ChipRev::Bm1387);
    }
}

proof fn lemma_enumeration_events(responses: Seq<AddressResponse>)
    requires
        1 <= responses.len(),
    ensures
        enumeration_events(responses) == Seq::new(
            (2 * responses.len() + 2 * INACTIVATE_FROM_CHAIN_ROUNDS + 1) as nat,
            |i: int| enumeration_event(responses, i),
        ),
{
    let n = (2 * responses.len() + 2 * INACTIVATE_FROM_CHAIN_ROUNDS + 1) as nat;
    let events = Seq::new(n, |i: int| enumeration_event(responses, i));
    assert(enumeration_events(responses).len() == n);
    assert forall|i: int| 0 <= i < n implies enumeration_events(responses)[i] == events[i] by {}
    assert(enumeration_events(responses) =~= events);
}

proof fn lemma_enumeration_script(chips: nat)
    requires
        1 <= chips,
    ensures
        enumeration_script(chips) == Seq::new(
            (2 * chips + 2 * INACTIVATE_FROM_CHAIN_ROUNDS + 1) as nat,
            |i: int| enumeration_action(chips as int, i),
        ),
{
    let n = (2 * chips + 2 * INACTIVATE_FROM_CHAIN_ROUNDS + 1) as nat;
    let actions = Seq::new(n, |i: int| enumeration_action(chips as int, i));
    assert(enumeration_script(chips).len() == n);
    assert forall|i: int| 0 <= i < n implies enumeration_script(chips)[i] == actions[i] by {}
    assert(enumeration_script(chips) =~= actions);
}

/// Chip enumeration on a chain of 1 to 63 supported chips: the controller
/// counts the chips, takes the count down, and assigns the addresses
/// 0, 4, 8, ... in the order of the chain.
pub proof fn lemma_enumeration(s: CtlState, responses: Seq<AddressResponse>)
    requires
        s.phase is Requesting,
        1 <= responses.len() < MAX_CHIPS_ON_CHAIN,
        all_supported(responses),
    ensures
        ({
            let chips = responses.len();
            let (end, actions) = run(s, enumeration_events(responses));
            &&& end == CtlState {
                chip_count: chips as usize,
                phase: InitPhase::Addressing((chips - 1) as usize),
                ..s
            }
            &&& actions == enumeration_script(chips)
        }),
{
    let chips = responses.len();
    let n = (2 * chips + 2 * INACTIVATE_FROM_CHAIN_ROUNDS + 1) as nat;
    let state_at = |i: int| enumeration_state(s, chips as int, i);
    let event_at = |i: int| enumeration_event(responses, i);
    let action_at = |i: int| enumeration_action(chips as int, i);
    assert forall|i: int| 0 <= i < n implies (init_machine())(#[trigger] state_at(i), event_at(i))
        == (state_at(i + 1), action_at(i)) by {
        lemma_enumeration_step(s, responses, i);
    }
    lemma_run_steps(init_machine(), n, state_at, event_at, action_at);
    lemma_enumeration_events(responses);
    lemma_enumeration_script(chips);
}

/// An empty chain: when the channel has no response at all, the start-up
/// fails for want of chips, and no chip count is taken down.
pub proof fn lemma_no_chips(s: CtlState)
    requires
        s.phase is Requesting,
    ensures
        run(s, seq![Event::Done] + response_events(Seq::empty())) == (
            s.at(InitPhase::Failed(ErrorKind::NoChipsDetected)),
            seq![Action::RecvResponse, Action::Fail(ErrorKind::NoChipsDetected)],
        ),
{
    let events = seq![Event::Done, Event::Response(None)];
    assert(seq![Event::Done] + response_events(Seq::empty()) =~= events);
    assert(events.drop_last() =~= seq![Event::Done]);
    assert(seq![Event::Done].drop_last() =~= Seq::<Event>::empty());
    assert(run(s, Seq::<Event>::empty()) == (s, Seq::<Action>::empty()));
    assert(run(s, seq![Event::Done]) == (
        s.at(InitPhase::Counting(0)),
        Seq::<Action>::empty().push(Action::RecvResponse),
    ));
    assert(Seq::<Action>::empty().push(Action::RecvResponse).push(
        Action::Fail(ErrorKind::NoChipsDetected),
    ) =~= seq![Action::RecvResponse, Action::Fail(ErrorKind::NoChipsDetected)]);
}

/// An overlong chain: when 64 or more supported chips answer, the channel
/// is read until it is dry and the start-up fails then, with no chip count
/// taken down.
pub proof fn lemma_too_many_chips(s: CtlState, responses: Seq<AddressResponse>)
    requires
        s.phase is Requesting,
        responses.len() >= MAX_CHIPS_ON_CHAIN,
        all_supported(responses),
    ensures
        ({
            let (end, actions) = run(s, seq![Event::Done] + response_events(responses));
            &&& end == s.at(InitPhase::Failed(ErrorKind::TooManyChips))
            &&& actions == Seq::new(responses.len() + 1, |i: int| Action::RecvResponse).push(
                Action::Fail(ErrorKind::TooManyChips),
            )
        }),
{
    let k = responses.len() as int;
    let max = MAX_CHIPS_ON_CHAIN as int;
    let n = (k + 2) as nat;
    let state_at = |i: int|
        if i == 0 {
            s
        } else if i <= k + 1 {
            s.at(
                InitPhase::Counting(
                    if i - 1 < max {
                        (i - 1) as usize
                    } else {
                        MAX_CHIPS_ON_CHAIN
                    },
                ),
            )
        } else {
            s.at(InitPhase::Failed(ErrorKind::TooManyChips))
        };
    let event_at = |i: int|
        if i == 0 {
            Event::Done
        } else if i <= k {
            Event::Response(Some(responses[i - 1]))
        } else {
            Event::Response(None)
        };
    let action_at = |i: int|
        if i <= k {
            Action::RecvResponse
        } else {
            Action::Fail(ErrorKind::TooManyChips)
        };
    assert forall|i: int| 0 <= i < n implies init_next(#[trigger] state_at(i), event_at(i)) == (
        state_at(i + 1),
        action_at(i),
    ) by {
        if 1 <= i <= k {
            assert(responses[i - 1].chip_rev == ChipRev::Bm1387);
        }
    }
    lemma_run_steps(init_machine(), n, state_at, event_at, action_at);
    assert(seq![Event::Done] + response_events(responses) =~= Seq::new(n, event_at));
    assert(Seq::new(responses.len() + 1, |i: int| Action::RecvResponse).push(
        Action::Fail(ErrorKind::TooManyChips),
    ) =~= Seq::new(n, action_at));
}

/// A chip of another revision ends the enumeration where it is met.
pub proof fn lemma_unexpected_revision(s: CtlState, seen: usize, response: AddressResponse)
    requires
        s.phase == InitPhase::Counting(seen),
        response.chip_rev != ChipRev::Bm1387,
    ensures
        init_next(s, Event::Response(Some(response))) == (
            s.at(InitPhase::Failed(ErrorKind::UnexpectedChipRevision { chip: seen })),
            Action::Fail(ErrorKind::UnexpectedChipRevision { chip: seen }),
        ),
{
}

/// A voltage controller with another firmware ends the start-up when it
/// reports its version.
pub proof fn lemma_unexpected_version(s: CtlState, version: u8)
    requires
        s.phase == InitPhase::Bringup(VERSION_STEP),
        version != EXPECTED_VOLTAGE_CTRL_VERSION,
    ensures
        init_next(s, Event::Version(version)).1 == Action::Fail(
            ErrorKind::UnexpectedVersion {
                actual: version,
                expected: EXPECTED_VOLTAGE_CTRL_VERSION,
            },
        ),
        init_next(s, Event::Version(version)).0.phase is Failed,
{
}

/// From the last address to the end: with every command sent, the PLL of
/// every chip is loaded in the order of the chain; then the chips and,
/// after them, the IP core go to the target baud rate; then the difficulty
/// is set and asked back, and the board is up.
pub proof fn lemma_configuration(s: CtlState)
    requires
        s.wf(),
        s.phase == InitPhase::Addressing((s.chip_count - 1) as usize),
    ensures
        run(s, done_events(s.chip_count as nat + 5)) == (
            s.at(InitPhase::Ready),
            pll_script(s.chip_count as nat) + speed_up_script(s) + seq![Action::Done],
        ),
{
    lemma_default_baud_settings();
    let k = s.chip_count as int;
    let n = (k + 5) as nat;
    let speed_up = speed_up_script(s);
    let state_at = |i: int|
        if i == 0 {
            s
        } else if i <= k {
            s.at(InitPhase::PllSetup((i - 1) as usize))
        } else if i == k + 1 {
            s.at(InitPhase::ChainBaud)
        } else if i == k + 2 {
            s.at(InitPhase::CoreBaud)
        } else if i == k + 3 {
            s.at(InitPhase::TicketMask)
        } else if i == k + 4 {
            s.at(InitPhase::TicketMaskReadback)
        } else {
            s.at(InitPhase::Ready)
        };
    let event_at = |i: int| Event::Done;
    let action_at = |i: int|
        if i < k {
            pll_action(i)
        } else if i < k + 4 {
            speed_up[i - k]
        } else {
            Action::Done
        };
    assert forall|i: int| 0 <= i < n implies init_next(#[trigger] state_at(i), event_at(i)) == (
        state_at(i + 1),
        action_at(i),
    ) by {}
    lemma_run_steps(init_machine(), n, state_at, event_at, action_at);
    assert(done_events(n) =~= Seq::new(n, event_at));
    assert(pll_script(k as nat) + speed_up + seq![Action::Done] =~= Seq::new(n, action_at));
}

/// The start-up in full. Started on any controller, with every action
/// carried out, the expected firmware in the voltage controller and a
/// chain of 1 to 63 supported chips, it asks for exactly the actions of
/// `startup_script`, in that order, and leaves the controller up, with the
/// number of chips taken down and nothing else changed.
pub proof fn lemma_startup(s: CtlState, responses: Seq<AddressResponse>)
    requires
        1 <= responses.len() < MAX_CHIPS_ON_CHAIN,
        all_supported(responses),
    ensures
        ({
            let (started, first) = init_start(s);
            let (end, rest) = run(started, startup_events(responses));
            &&& end == CtlState {
                chip_count: responses.len() as usize,
                phase: InitPhase::Ready,
                ..s
            }
            &&& seq![first] + rest == startup_script(s, responses.len())
        }),
{
    let chips = responses.len();
    let (started, first) = init_start(s);
    let requesting = CtlState { chip_count: 0, phase: InitPhase::Requesting, ..s };
    let addressed = CtlState {
        chip_count: chips as usize,
        phase: InitPhase::Addressing((chips - 1) as usize),
        ..s
    };
    lemma_bringup(s);
    lemma_enumeration(requesting, responses);
    lemma_configuration(addressed);
    let enumeration = enumeration_events(responses);
    let configuration = done_events(chips + 5);
    lemma_run_concat(init_machine(), started, bringup_events(), enumeration);
    lemma_run_concat(init_machine(), started, bringup_events() + enumeration, configuration);
    let bringup = run(started, bringup_events()).1;
    assert(speed_up_script(addressed) == speed_up_script(s));
    assert(seq![first] + (bringup + enumeration_script(chips) + (pll_script(chips)
        + speed_up_script(s) + seq![Action::Done])) =~= (seq![first] + bringup)
        + enumeration_script(chips) + pll_script(chips) + speed_up_script(s) + seq![Action::Done]);
}

} // verus!
