//! The polling loop as a state machine.
//!
//! The loop itself waits for a timer and talks to the meter, which this
//! library cannot do. What it decides is here: [`step`] takes the state of the
//! loop and the event that just happened, and answers with the next state,
//! the measurement to report, if the event completed one, and the action to
//! perform next. A driver performs the action, turns its outcome into the next
//! event and calls [`step`] again.
//!
//! One cycle starts with a timer tick and reads every measurement of the
//! catalog once, in catalog order, two registers at a time. At most one read
//! is outstanding at any moment. The first fault stops the loop for good.

use crate::decode::{decode_registers, spec_decode};
use crate::input_register::{
    generate_input_register,
    lemma_catalog_holds_no_kind_twice,
    spec_all_kinds,
    spec_successor,
    InputRegister,
    CATALOG_LEN,
    REGISTERS_PER_MEASUREMENT,
};
use vstd::prelude::*;

verus! {

/// Why the loop stopped.
#[derive(Clone, Copy, Debug, PartialEq, Eq, Structural)]
pub enum PollFault {
    /// The transport could not complete a read.
    ReadFailed,
    /// A read returned a number of registers other than one measurement
    /// occupies.
    MalformedPayload,
    /// An event arrived that the loop was not waiting for.
    UnexpectedEvent,
}

/// What the loop is waiting for.
#[derive(Clone, Copy, Debug, PartialEq, Eq, Structural)]
pub enum PollState {
    /// Between two cycles: waiting for the timer.
    AwaitingTick,
    /// In a cycle: the read of `kind` is outstanding.
    AwaitingRegisters { kind: InputRegister },
    /// Stopped by a fault; nothing will be read or reported any more.
    Stopped { fault: PollFault },
}

/// What happened outside the loop.
#[derive(Debug, PartialEq, Eq)]
pub enum PollEvent {
    /// The timer fired.
    Tick,
    /// The outstanding read returned these registers.
    RegistersRead { words: Vec<u16> },
    /// The outstanding read failed.
    ReadFailed,
}

/// An event as the rules of the loop see it: the registers of a read result
/// as a sequence.
pub enum PollEventView {
    Tick,
    RegistersRead { words: Seq<u16> },
    ReadFailed,
}

impl View for PollEvent {
    type V = PollEventView;

    open spec fn view(&self) -> PollEventView {
        match self {
            PollEvent::Tick => PollEventView::Tick,
            PollEvent::RegistersRead { words } => PollEventView::RegistersRead { words: words@ },
            PollEvent::ReadFailed => PollEventView::ReadFailed,
        }
    }
}

/// What the driver has to do next.
#[derive(Clone, Copy, Debug, PartialEq, Eq, Structural)]
pub enum PollAction {
    /// Wait for the next timer tick.
    WaitForTick,
    /// Read `count` input registers starting at `address`.
    ReadInputRegisters { address: u16, count: u16 },
    /// Give up: the loop has stopped with `fault`.
    Stop { fault: PollFault },
}

/// A measurement that was read: which one, and the bit pattern of its value
/// as an IEEE-754 single-precision number.
#[derive(Clone, Copy, Debug, PartialEq, Eq, Structural)]
pub struct Reading {
    pub kind: InputRegister,
    pub bits: u32,
}

/// The answer of the loop to one event.
#[derive(Clone, Copy, Debug, PartialEq, Eq)]
pub struct PollStep {
    /// The state after the event.
    pub state: PollState,
    /// The measurement that the event completed, to be reported now.
    pub reading: Option<Reading>,
    /// What to do next.
    pub action: PollAction,
}

/// What a run of the loop did, as seen from outside.
pub struct PollRun {
    /// The state after the last event.
    pub state: PollState,
    /// The measurements reported, in the order of reporting.
    pub readings: Seq<Reading>,
    /// The action answered to each event, in the order of the events.
    pub actions: Seq<PollAction>,
}

/// The read that fetches a measurement.
pub open spec fn spec_request_for(kind: InputRegister) -> PollAction {
    PollAction::ReadInputRegisters {
        address: kind.spec_address(),
        count: REGISTERS_PER_MEASUREMENT,
    }
}

/// The loop before its first event: between cycles, with nothing to report
/// and the timer to wait for.
pub open spec fn spec_start() -> PollStep {
    PollStep { state: PollState::AwaitingTick, reading: None, action: PollAction::WaitForTick }
}

/// The answer that stops the loop.
pub open spec fn spec_stop(fault: PollFault) -> PollStep {
    PollStep {
        state: PollState::Stopped { fault },
        reading: None,
        action: PollAction::Stop { fault },
    }
}

/// Whether the event is a read result that holds one measurement: exactly the
/// registers that one measurement occupies, no fewer and no more.
pub open spec fn spec_carries_measurement(event: PollEventView) -> bool {
    event matches PollEventView::RegistersRead { words } && words.len()
        == REGISTERS_PER_MEASUREMENT
}

/// Whether the event is the one that the state waits for: a tick between
/// cycles, a read result with exactly one measurement in a cycle. A stopped
/// loop waits for nothing.
pub open spec fn spec_awaits(state: PollState, event: PollEventView) -> bool {
    match state {
        PollState::AwaitingTick => event is Tick,
        PollState::AwaitingRegisters { .. } => spec_carries_measurement(event),
        PollState::Stopped { .. } => false,
    }
}

/// The answer to the registers of `kind`: the measurement is reported, and
/// the cycle goes on with the next measurement of the catalog or, after the
/// last one, ends.
pub open spec fn spec_report(kind: InputRegister, bits: u32) -> PollStep {
    let reading = Some(Reading { kind, bits });
    match spec_successor(kind) {
        Some(following) => PollStep {
            state: PollState::AwaitingRegisters { kind: following },
            reading,
            action: spec_request_for(following),
        },
        None => PollStep {
            state: PollState::AwaitingTick,
            reading,
            action: PollAction::WaitForTick,
        },
    }
}

/// The transition function of the loop.
///
/// - Once stopped, the loop stays stopped with the same fault, whatever
///   happens.
/// - Between cycles a tick starts a cycle with the read of the first
///   measurement of the catalog.
/// - In a cycle, a read result of exactly two registers is decoded and
///   reported. Any other number of registers stops the loop, and so does a
///   failed read.
/// - Any other event is one the loop was not waiting for, and stops it.
pub open spec fn spec_step(state: PollState, event: PollEventView) -> PollStep {
    match state {
        PollState::Stopped { fault } => spec_stop(fault),
        PollState::AwaitingTick => match event {
            PollEventView::Tick => PollStep {
                state: PollState::AwaitingRegisters { kind: spec_all_kinds()[0] },
                reading: None,
                action: spec_request_for(spec_all_kinds()[0]),
            },
            _ => spec_stop(PollFault::UnexpectedEvent),
        },
        PollState::AwaitingRegisters { kind } => match event {
            PollEventView::RegistersRead { words } => match spec_decode(words) {
                Some(bits) => spec_report(kind, bits),
                None => spec_stop(PollFault::MalformedPayload),
            },
            PollEventView::ReadFailed => spec_stop(PollFault::ReadFailed),
            PollEventView::Tick => spec_stop(PollFault::UnexpectedEvent),
        },
    }
}

/// What the loop does from `start` on a sequence of events: the events are
/// answered one after the other, each from the state that the one before
/// left.
pub open spec fn spec_run(start: PollState, events: Seq<PollEventView>) -> PollRun
    decreases events.len(),
{
    if events.len() == 0 {
        PollRun { state: start, readings: Seq::empty(), actions: Seq::empty() }
    } else {
        let earlier = spec_run(start, events.drop_last());
        let answer = spec_step(earlier.state, events.last());
        PollRun {
            state: answer.state,
            readings: match answer.reading {
                Some(reading) => earlier.readings.push(reading),
                None => earlier.readings,
            },
            actions: earlier.actions.push(answer.action),
        }
    }
}

/// The measurement that a fault-free cycle reports in place `i`, given the
/// events of the cycle: the tick first, then one read result for each
/// measurement.
pub open spec fn spec_reading_in_cycle(events: Seq<PollEventView>, i: int) -> Reading {
    Reading { kind: spec_all_kinds()[i], bits: spec_decode(events[i + 1]->words)->0 }
}

/// The measurements that a fault-free cycle reports: one for each measurement
/// of the catalog, in catalog order, each decoded from its own read result.
pub open spec fn spec_cycle_readings(events: Seq<PollEventView>) -> Seq<Reading> {
    Seq::new(CATALOG_LEN as nat, |i: int| spec_reading_in_cycle(events, i))
}

/// The actions of a fault-free cycle: one read for each measurement of the
/// catalog, in catalog order, and then the wait for the next tick.
pub open spec fn spec_cycle_actions() -> Seq<PollAction> {
    Seq::new(
        CATALOG_LEN as nat + 1,
        |i: int|
            if i < CATALOG_LEN {
                spec_request_for(spec_all_kinds()[i])
            } else {
                PollAction::WaitForTick
            },
    )
}

/// The state of a fault-free cycle after the tick and `n` read results.
pub open spec fn spec_state_in_cycle(n: int) -> PollState {
    if n < CATALOG_LEN {
        PollState::AwaitingRegisters { kind: spec_all_kinds()[n] }
    } else {
        PollState::AwaitingTick
    }
}

/// Whether `events` starts with a tick that is followed by at least `n` good
/// read results: each holds exactly the two registers of one measurement.
pub open spec fn spec_cycle_goes_well(events: Seq<PollEventView>, n: int) -> bool {
    &&& n < events.len()
    &&& events[0] is Tick
    &&& forall|i: int| 1 <= i <= n ==> spec_carries_measurement(#[trigger] events[i])
}

/// The fault that an event raises in a cycle when it is not a good read
/// result: a failed read, a read result of another length than two
/// registers, or a tick.
pub open spec fn spec_fault_in_cycle(event: PollEventView) -> PollFault {
    match event {
        PollEventView::ReadFailed => PollFault::ReadFailed,
        PollEventView::RegistersRead { .. } => PollFault::MalformedPayload,
        PollEventView::Tick => PollFault::UnexpectedEvent,
    }
}

/// The loop before its first event.
pub fn start() -> (first: PollStep)
    ensures
        first == spec_start(),
{
    PollStep { state: PollState::AwaitingTick, reading: None, action: PollAction::WaitForTick }
}

/// The read that fetches a measurement: two input registers from the address
/// that the catalog gives.
pub fn request_for(kind: InputRegister) -> (action: PollAction)
    ensures
        action == spec_request_for(kind),
{
    let register = generate_input_register(kind);
    PollAction::ReadInputRegisters { address: register.address, count: REGISTERS_PER_MEASUREMENT }
}

/// Answers one event: the next state, the measurement to report, and the
/// action to perform.
///
/// Every state answers every event; see [`spec_step`] for the rules. The
/// loop goes on exactly when the event is the one that the state waited for,
/// and a measurement is reported exactly when that event is a read result.
pub fn step(state: PollState, event: &PollEvent) -> (answer: PollStep)
    ensures
        answer == spec_step(state, event@),
        answer.state is Stopped <==> !spec_awaits(state, event@),
        answer.reading is Some <==> state is AwaitingRegisters && spec_awaits(state, event@),
        answer.reading matches Some(reading) ==> reading.kind == state->kind && Some(reading.bits)
            == spec_decode(event@->words),
{
    match state {
        PollState::Stopped { fault } => stop(fault),
        PollState::AwaitingTick => match event {
            PollEvent::Tick => {
                let kind = InputRegister::first();
                PollStep {
                    state: PollState::AwaitingRegisters { kind },
                    reading: None,
                    action: request_for(kind),
                }
            },
            _ => stop(PollFault::UnexpectedEvent),
        },
        PollState::AwaitingRegisters { kind } => match event {
            PollEvent::RegistersRead { words } => match decode_registers(words.as_slice()) {
                Some(bits) => report(kind, bits),
                None => stop(PollFault::MalformedPayload),
            },
            PollEvent::ReadFailed => stop(PollFault::ReadFailed),
            PollEvent::Tick => stop(PollFault::UnexpectedEvent),
        },
    }
}

fn stop(fault: PollFault) -> (answer: PollStep)
    ensures
        answer == spec_stop(fault),
{
    PollStep { state: PollState::Stopped { fault }, reading: None, action: PollAction::Stop { fault } }
}

fn report(kind: InputRegister, bits: u32) -> (answer: PollStep)
    ensures
        answer == spec_report(kind, bits),
{
    let reading = Some(Reading { kind, bits });
    match kind.successor() {
        Some(following) => PollStep {
            state: PollState::AwaitingRegisters { kind: following },
            reading,
            action: request_for(following),
        },
        None => PollStep { state: PollState::AwaitingTick, reading, action: PollAction::WaitForTick },
    }
}

/// A measurement is reported exactly when the loop is waiting for registers
/// and the event brings exactly one measurement; the measurement reported is the
/// one that was waited for, with the pattern decoded from the event.
pub proof fn lemma_reading_needs_measurement(state: PollState, event: PollEventView)
    ensures
        spec_step(state, event).reading is Some <==> state is AwaitingRegisters
            && spec_carries_measurement(event),
        spec_step(state, event).reading matches Some(reading) ==> reading.kind == state->kind
            && Some(reading.bits) == spec_decode(event->words),
{
}

/// While the loop runs, a read is requested exactly when the next state waits
/// for its registers, and the read is the one for the measurement waited for:
/// there is never a read outstanding that the state does not know of.
pub proof fn lemma_one_read_outstanding(state: PollState, event: PollEventView)
    ensures
        spec_step(state, event).action is ReadInputRegisters <==> spec_step(
            state,
            event,
        ).state is AwaitingRegisters,
        spec_step(state, event).state matches PollState::AwaitingRegisters { kind }
            ==> spec_step(state, event).action == spec_request_for(kind),
        spec_step(state, event).action is WaitForTick <==> spec_step(
            state,
            event,
        ).state is AwaitingTick,
{
}

/// Running the loop on one sequence of events and then on another is running
/// it on the two joined.
pub proof fn lemma_run_continues(
    start: PollState,
    events: Seq<PollEventView>,
    more: Seq<PollEventView>,
)
    ensures
        spec_run(start, events + more).state == spec_run(
            spec_run(start, events).state,
            more,
        ).state,
        spec_run(start, events + more).readings == spec_run(start, events).readings + spec_run(
            spec_run(start, events).state,
            more,
        ).readings,
        spec_run(start, events + more).actions == spec_run(start, events).actions + spec_run(
            spec_run(start, events).state,
            more,
        ).actions,
    decreases more.len(),
{
    if more.len() > 0 {
        lemma_run_continues(start, events, more.drop_last());
        assert((events + more).drop_last() =~= events + more.drop_last());
    }
}

/// A stopped loop stays stopped: whatever events follow, the state keeps its
/// fault, nothing is reported, and every answer is to stop.
pub proof fn lemma_stopped_is_final(fault: PollFault, events: Seq<PollEventView>)
    ensures
        spec_run(PollState::Stopped { fault }, events).state == (PollState::Stopped { fault }),
        spec_run(PollState::Stopped { fault }, events).readings == Seq::<Reading>::empty(),
        spec_run(PollState::Stopped { fault }, events).actions == Seq::new(
            events.len(),
            |i: int| PollAction::Stop { fault },
        ),
    decreases events.len(),
{
    if events.len() > 0 {
        lemma_stopped_is_final(fault, events.drop_last());
    }
}

/// After the tick and `n` good read results the cycle has reported the first
/// `n` measurements of the catalog and asked for the first `n + 1` actions of
/// a fault-free cycle.
pub proof fn lemma_cycle_so_far(events: Seq<PollEventView>, n: int)
    requires
        0 <= n <= CATALOG_LEN,
        spec_cycle_goes_well(events, n),
    ensures
        spec_run(PollState::AwaitingTick, events.take(n + 1)).state == spec_state_in_cycle(n),
        spec_run(PollState::AwaitingTick, events.take(n + 1)).readings == spec_cycle_readings(
            events,
        ).take(n),
        spec_run(PollState::AwaitingTick, events.take(n + 1)).actions
            == spec_cycle_actions().take(n + 1),
    decreases n,
{
    assert(events.take(n + 1).drop_last() =~= events.take(n));
    if n > 0 {
        lemma_cycle_so_far(events, n - 1);
        lemma_catalog_holds_no_kind_twice(n - 1);
        assert(spec_successor(spec_all_kinds()[n - 1]) == if n < CATALOG_LEN {
            Some(spec_all_kinds()[n])
        } else {
            None
        });
    }
}

/// A cycle without faults reports the whole catalog in order.
///
/// When a tick is followed by one good read result for each measurement, the
/// loop asks for the measurements in catalog order, each with a read of two
/// registers at its address, reports each measurement with the pattern
/// decoded from its own read result, and ends between cycles, waiting for the
/// next tick.
pub proof fn lemma_cycle_reports_catalog_in_order(events: Seq<PollEventView>)
    requires
        events.len() == CATALOG_LEN + 1,
        spec_cycle_goes_well(events, CATALOG_LEN as int),
    ensures
        spec_run(PollState::AwaitingTick, events).state == PollState::AwaitingTick,
        spec_run(PollState::AwaitingTick, events).readings == spec_cycle_readings(events),
        spec_run(PollState::AwaitingTick, events).actions == spec_cycle_actions(),
{
    lemma_cycle_so_far(events, CATALOG_LEN as int);
    assert(events.take(CATALOG_LEN + 1) =~= events);
}

/// The first fault of a cycle ends all reporting.
///
/// When the tick is followed by `k` good read results and then by an event
/// that is no good read result, the loop stops with the fault of that event.
/// Exactly the `k` measurements read before it are reported, and whatever
/// events follow, nothing more is reported and every answer is to stop.
pub proof fn lemma_fault_ends_reporting(events: Seq<PollEventView>, k: int)
    requires
        0 <= k < CATALOG_LEN,
        k + 1 < events.len(),
        spec_cycle_goes_well(events, k),
        !spec_carries_measurement(events[k + 1]),
    ensures
        spec_run(PollState::AwaitingTick, events).state == (PollState::Stopped {
            fault: spec_fault_in_cycle(events[k + 1]),
        }),
        spec_run(PollState::AwaitingTick, events).readings == spec_cycle_readings(events).take(k),
        spec_run(PollState::AwaitingTick, events).actions == spec_cycle_actions().take(k + 1)
            + Seq::new(
            (events.len() - k - 1) as nat,
            |i: int| PollAction::Stop { fault: spec_fault_in_cycle(events[k + 1]) },
        ),
{
    let upto = events.take(k + 2);
    let after = events.skip(k + 2);
    lemma_cycle_so_far(events, k);
    assert(upto.drop_last() =~= events.take(k + 1));
    lemma_run_continues(PollState::AwaitingTick, upto, after);
    lemma_stopped_is_final(spec_fault_in_cycle(events[k + 1]), after);
    assert(upto + after =~= events);
}

} // verus!
