//! The change watcher, as a verified state machine.
//!
//! One watch call opens a short-lived kernel notification channel,
//! binds it to the link-change group, arms the caller's optional read
//! timeout, performs exactly one receive, and releases the channel on
//! every path that opened one. The operating system work itself —
//! opening, binding, arming, receiving, closing — happens outside this
//! library; a driver performs each [`WatchAction`] the machine asks
//! for and feeds the outcome back as a [`WatchEvent`]. The machine
//! decides everything else: the order of the steps, how each outcome
//! is classified, and when the channel must be closed.

use vstd::prelude::*;

use crate::error::NetError;

verus! {

/// How many bytes of room one receive offers the kernel: generous
/// headroom for a single notification datagram, whose contents are
/// never parsed — arrival alone is the signal.
pub const RECV_BUFFER_LEN: usize = 65536;

/// What one watch call reports.
#[derive(Clone, Copy, PartialEq, Eq, Structural, Debug)]
pub enum WatchOutcome {
    /// An event arrived: the interface list may have changed.
    Changed,
    /// The caller's timeout elapsed with no event.
    TimedOut,
    /// Creating or binding the channel failed with this code.
    SetupFailed(i32),
    /// Arming the timeout or receiving failed with this code.
    IoFailed(i32),
}

/// Where one watch call stands. `Start` is before anything happened;
/// `Opened`, `Bound` and `Armed` mark the setup steps done so far;
/// `Done` carries the classified outcome and is terminal.
#[derive(Clone, Copy, PartialEq, Eq, Structural, Debug)]
pub enum WatchPhase {
    Start,
    Opened,
    Bound,
    Armed,
    Done(WatchOutcome),
}

/// What the driver observed while performing the action the machine
/// asked for, with the operating system's error code where one exists.
#[derive(Clone, Copy, PartialEq, Eq, Structural, Debug)]
pub enum WatchEvent {
    OpenOk,
    OpenFailed(i32),
    BindOk,
    BindFailed(i32),
    ArmOk,
    ArmFailed(i32),
    RecvOk,
    RecvTimedOut,
    RecvFailed(i32),
}

/// What the driver must do next. In phase `Start` the driver opens the
/// channel unprompted; every later step names its follow-up here.
/// `CloseChannel` both releases the channel and ends the call;
/// `Finish` ends the call when no channel was ever opened.
#[derive(Clone, Copy, PartialEq, Eq, Structural, Debug)]
pub enum WatchAction {
    BindChannel,
    ArmTimeout,
    Receive,
    CloseChannel,
    Finish,
}

/// Which events a phase can receive: each setup or receive step
/// reports exactly its own outcome, and `Done` receives nothing.
pub open spec fn accepts(phase: WatchPhase, event: WatchEvent) -> bool {
    match (phase, event) {
        (WatchPhase::Start, WatchEvent::OpenOk) => true,
        (WatchPhase::Start, WatchEvent::OpenFailed(_)) => true,
        (WatchPhase::Opened, WatchEvent::BindOk) => true,
        (WatchPhase::Opened, WatchEvent::BindFailed(_)) => true,
        (WatchPhase::Bound, WatchEvent::ArmOk) => true,
        (WatchPhase::Bound, WatchEvent::ArmFailed(_)) => true,
        (WatchPhase::Armed, WatchEvent::RecvOk) => true,
        (WatchPhase::Armed, WatchEvent::RecvTimedOut) => true,
        (WatchPhase::Armed, WatchEvent::RecvFailed(_)) => true,
        _ => false,
    }
}

/// The transition table: the next phase and the action the driver
/// performs next. Setup failures are classified as `SetupFailed`, a
/// receive timeout as `TimedOut` and every other failure as
/// `IoFailed`; every path that opened the channel ends in
/// `CloseChannel`, and the one path that never opened it ends in
/// `Finish`. On a pair that `accepts` refuses the machine stands
/// still.
pub open spec fn step_spec(phase: WatchPhase, event: WatchEvent) -> (WatchPhase, WatchAction) {
    match (phase, event) {
        (WatchPhase::Start, WatchEvent::OpenOk) => (WatchPhase::Opened, WatchAction::BindChannel),
        (WatchPhase::Start, WatchEvent::OpenFailed(c)) => (
            WatchPhase::Done(WatchOutcome::SetupFailed(c)),
            WatchAction::Finish,
        ),
        (WatchPhase::Opened, WatchEvent::BindOk) => (WatchPhase::Bound, WatchAction::ArmTimeout),
        (WatchPhase::Opened, WatchEvent::BindFailed(c)) => (
            WatchPhase::Done(WatchOutcome::SetupFailed(c)),
            WatchAction::CloseChannel,
        ),
        (WatchPhase::Bound, WatchEvent::ArmOk) => (WatchPhase::Armed, WatchAction::Receive),
        (WatchPhase::Bound, WatchEvent::ArmFailed(c)) => (
            WatchPhase::Done(WatchOutcome::IoFailed(c)),
            WatchAction::CloseChannel,
        ),
        (WatchPhase::Armed, WatchEvent::RecvOk) => (
            WatchPhase::Done(WatchOutcome::Changed),
            WatchAction::CloseChannel,
        ),
        (WatchPhase::Armed, WatchEvent::RecvTimedOut) => (
            WatchPhase::Done(WatchOutcome::TimedOut),
            WatchAction::CloseChannel,
        ),
        (WatchPhase::Armed, WatchEvent::RecvFailed(c)) => (
            WatchPhase::Done(WatchOutcome::IoFailed(c)),
            WatchAction::CloseChannel,
        ),
        _ => (phase, WatchAction::Finish),
    }
}

/// Performs one step of the watch machine.
///
/// Returns the next phase and the driver's next action, or `None`
/// when the event is not one the phase can receive.
pub fn watch_step(phase: WatchPhase, event: WatchEvent) -> (r: Option<(WatchPhase, WatchAction)>)
    ensures
        r is Some <==> accepts(phase, event),
        (r matches Some(pa) ==> pa == step_spec(phase, event)),
{
    match (phase, event) {
        (WatchPhase::Start, WatchEvent::OpenOk) => Some(
            (WatchPhase::Opened, WatchAction::BindChannel),
        ),
        (WatchPhase::Start, WatchEvent::OpenFailed(c)) => Some(
            (WatchPhase::Done(WatchOutcome::SetupFailed(c)), WatchAction::Finish),
        ),
        (WatchPhase::Opened, WatchEvent::BindOk) => Some(
            (WatchPhase::Bound, WatchAction::ArmTimeout),
        ),
        (WatchPhase::Opened, WatchEvent::BindFailed(c)) => Some(
            (WatchPhase::Done(WatchOutcome::SetupFailed(c)), WatchAction::CloseChannel),
        ),
        (WatchPhase::Bound, WatchEvent::ArmOk) => Some((WatchPhase::Armed, WatchAction::Receive)),
        (WatchPhase::Bound, WatchEvent::ArmFailed(c)) => Some(
            (WatchPhase::Done(WatchOutcome::IoFailed(c)), WatchAction::CloseChannel),
        ),
        (WatchPhase::Armed, WatchEvent::RecvOk) => Some(
            (WatchPhase::Done(WatchOutcome::Changed), WatchAction::CloseChannel),
        ),
        (WatchPhase::Armed, WatchEvent::RecvTimedOut) => Some(
            (WatchPhase::Done(WatchOutcome::TimedOut), WatchAction::CloseChannel),
        ),
        (WatchPhase::Armed, WatchEvent::RecvFailed(c)) => Some(
            (WatchPhase::Done(WatchOutcome::IoFailed(c)), WatchAction::CloseChannel),
        ),
        _ => None,
    }
}

/// What one watch call returns for each classified outcome.
pub open spec fn outcome_result_spec(o: WatchOutcome) -> Result<(), NetError> {
    match o {
        WatchOutcome::Changed => Ok(()),
        WatchOutcome::TimedOut => Err(NetError::WatchTimedOut),
        WatchOutcome::SetupFailed(c) => Err(NetError::ChannelSetupFailed(c)),
        WatchOutcome::IoFailed(c) => Err(NetError::WatchIOFailed(c)),
    }
}

/// Maps a finished watch to the caller's result: success when an event
/// arrived, and each failure under its own error kind.
pub fn outcome_to_result(o: WatchOutcome) -> (r: Result<(), NetError>)
    ensures
        r == outcome_result_spec(o),
{
    match o {
        WatchOutcome::Changed => Ok(()),
        WatchOutcome::TimedOut => Err(NetError::WatchTimedOut),
        WatchOutcome::SetupFailed(c) => Err(NetError::ChannelSetupFailed(c)),
        WatchOutcome::IoFailed(c) => Err(NetError::WatchIOFailed(c)),
    }
}

/// Whether the notification channel is open in a phase: it opens on
/// entry to `Opened` and is released by the time the call is done.
pub open spec fn channel_open(phase: WatchPhase) -> bool {
    match phase {
        WatchPhase::Start => false,
        WatchPhase::Opened => true,
        WatchPhase::Bound => true,
        WatchPhase::Armed => true,
        WatchPhase::Done(_) => false,
    }
}

/// Whether an action releases the channel.
pub open spec fn closes_channel(a: WatchAction) -> bool {
    a is CloseChannel
}

/// Whether a step acquires the channel: only a successful open does.
pub open spec fn opens_channel(phase: WatchPhase, event: WatchEvent) -> bool {
    phase is Start && event is OpenOk
}

/// Law: every accepted step keeps exact account of the channel. A
/// close is issued only while the channel is open and only on the
/// step that finishes the call, and the finishing step closes the
/// channel exactly when one is open — nothing leaks and nothing is
/// released twice.
pub proof fn lemma_step_resource_discipline(phase: WatchPhase, event: WatchEvent)
    requires
        accepts(phase, event),
    ensures
        closes_channel(step_spec(phase, event).1) ==> channel_open(phase),
        !(step_spec(phase, event).0 is Done) ==> !closes_channel(step_spec(phase, event).1),
        (step_spec(phase, event).0 is Done) ==> (closes_channel(step_spec(phase, event).1)
            <==> channel_open(phase)),
        channel_open(step_spec(phase, event).0) == ((channel_open(phase) || opens_channel(
            phase,
            event,
        )) && !closes_channel(step_spec(phase, event).1)),
{
}

/// Law: `Done` is terminal — a finished watch receives no further
/// event, so its closing step cannot be repeated.
pub proof fn lemma_done_terminal(o: WatchOutcome, event: WatchEvent)
    ensures
        !accepts(WatchPhase::Done(o), event),
{
}

/// Law: outcomes are classified one-to-one. The machine reports a
/// timeout exactly when the receive timed out — never for another
/// failure — success exactly when an event arrived, and a setup
/// failure exactly for a failed open or bind, carrying its code.
pub proof fn lemma_outcome_classification(phase: WatchPhase, event: WatchEvent)
    requires
        accepts(phase, event),
    ensures
        (step_spec(phase, event).0 == WatchPhase::Done(WatchOutcome::TimedOut)) <==> (
        event is RecvTimedOut),
        (step_spec(phase, event).0 == WatchPhase::Done(WatchOutcome::Changed)) <==> (
        event is RecvOk),
        (step_spec(phase, event).0 matches WatchPhase::Done(WatchOutcome::SetupFailed(c)) ==> (
        event == WatchEvent::OpenFailed(c) || event == WatchEvent::BindFailed(c))),
        (event matches WatchEvent::OpenFailed(c) ==> step_spec(phase, event).0 == WatchPhase::Done(
            WatchOutcome::SetupFailed(c),
        )),
        (event matches WatchEvent::BindFailed(c) ==> step_spec(phase, event).0 == WatchPhase::Done(
            WatchOutcome::SetupFailed(c),
        )),
{
}

/// The phase a run of events leads to.
pub open spec fn run_phase(phase: WatchPhase, events: Seq<WatchEvent>) -> WatchPhase
    decreases events.len(),
{
    if events.len() == 0 {
        phase
    } else {
        run_phase(step_spec(phase, events[0]).0, events.drop_first())
    }
}

/// Whether a run only ever feeds a phase an event it can receive.
pub open spec fn run_accepted(phase: WatchPhase, events: Seq<WatchEvent>) -> bool
    decreases events.len(),
{
    if events.len() == 0 {
        true
    } else {
        accepts(phase, events[0]) && run_accepted(step_spec(phase, events[0]).0, events.drop_first())
    }
}

/// How many steps of a run release the channel.
pub open spec fn run_closes(phase: WatchPhase, events: Seq<WatchEvent>) -> int
    decreases events.len(),
{
    if events.len() == 0 {
        0
    } else {
        (if closes_channel(step_spec(phase, events[0]).1) {
            1int
        } else {
            0int
        }) + run_closes(step_spec(phase, events[0]).0, events.drop_first())
    }
}

/// How many steps of a run acquire the channel.
pub open spec fn run_opens(phase: WatchPhase, events: Seq<WatchEvent>) -> int
    decreases events.len(),
{
    if events.len() == 0 {
        0
    } else {
        (if opens_channel(phase, events[0]) {
            1int
        } else {
            0int
        }) + run_opens(step_spec(phase, events[0]).0, events.drop_first())
    }
}

/// Law: over any accepted run, channel acquisitions and releases
/// balance against the channel's state at the two ends.
pub proof fn lemma_run_balance(phase: WatchPhase, events: Seq<WatchEvent>)
    requires
        run_accepted(phase, events),
    ensures
        run_closes(phase, events) + (if channel_open(run_phase(phase, events)) {
            1int
        } else {
            0int
        }) == (if channel_open(phase) {
            1int
        } else {
            0int
        }) + run_opens(phase, events),
    decreases events.len(),
{
    if events.len() > 0 {
        lemma_step_resource_discipline(phase, events[0]);
        lemma_run_balance(step_spec(phase, events[0]).0, events.drop_first());
    }
}

/// Law: once past `Start`, a run never acquires the channel again —
/// no transition leads back to `Start`.
pub proof fn lemma_no_reopen(phase: WatchPhase, events: Seq<WatchEvent>)
    requires
        run_accepted(phase, events),
        !(phase is Start),
    ensures
        run_opens(phase, events) == 0,
    decreases events.len(),
{
    if events.len() > 0 {
        lemma_no_reopen(step_spec(phase, events[0]).0, events.drop_first());
    }
}

/// Law: one watch call acquires the channel at most once.
pub proof fn lemma_open_at_most_once(events: Seq<WatchEvent>)
    requires
        run_accepted(WatchPhase::Start, events),
    ensures
        run_opens(WatchPhase::Start, events) <= 1,
    decreases events.len(),
{
    if events.len() > 0 {
        lemma_no_reopen(step_spec(WatchPhase::Start, events[0]).0, events.drop_first());
    }
}

/// Law: a completed watch call leaks nothing and releases nothing
/// twice. Over any accepted run from `Start` that reaches `Done`, the
/// channel is released exactly as often as it was acquired — at most
/// once.
pub proof fn lemma_watch_releases_exactly_once(events: Seq<WatchEvent>)
    requires
        run_accepted(WatchPhase::Start, events),
        run_phase(WatchPhase::Start, events) is Done,
    ensures
        run_closes(WatchPhase::Start, events) == run_opens(WatchPhase::Start, events),
        run_closes(WatchPhase::Start, events) <= 1,
{
    lemma_run_balance(WatchPhase::Start, events);
    lemma_open_at_most_once(events);
}

} // verus!
