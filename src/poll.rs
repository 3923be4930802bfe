use vstd::prelude::*;

use crate::decode::DecodeError;
use crate::report::Device;
use crate::system::{new_system, system_after, system_wf, SystemStats, SystemView};

verus! {

/// Where the polling cycle stands.
#[derive(Debug, Clone, Copy, PartialEq, Eq, Structural)]
pub enum Phase {
    /// No handle on the sensor engine yet.
    Idle,
    /// The engine is available and no poll is outstanding.
    Ready,
    /// A poll is outstanding.
    PollInFlight,
}

/// What happens to the polling cycle.
#[derive(Debug, Clone, Copy, PartialEq, Eq, Structural)]
pub enum PollEvent {
    /// The handle on the sensor engine was acquired.
    EngineReady,
    /// The one-second timer fired.
    Tick,
    /// The outstanding poll came back with a decoded report.
    Completed,
    /// The outstanding poll failed to fetch or decode.
    Failed,
}

/// What the caller is to do after an event.
#[derive(Debug, Clone, Copy, PartialEq, Eq, Structural)]
pub enum PollAction {
    Nothing,
    /// Fetch and decode a report off the event thread.
    StartPoll,
    /// Apply the decoded report.
    Apply,
    /// Leave the state as it is and report the error.
    Report,
}

/// The transition of the polling cycle. A tick starts a poll only when the
/// engine is ready and none is outstanding; a tick while a poll is out, or
/// before the engine is available, is dropped; a completion returns to
/// `Ready`, whether the poll succeeded or not.
pub open spec fn step(p: Phase, e: PollEvent) -> (Phase, PollAction) {
    match (p, e) {
        (Phase::Idle, PollEvent::EngineReady) => (Phase::Ready, PollAction::Nothing),
        (Phase::Ready, PollEvent::Tick) => (Phase::PollInFlight, PollAction::StartPoll),
        (Phase::PollInFlight, PollEvent::Completed) => (Phase::Ready, PollAction::Apply),
        (Phase::PollInFlight, PollEvent::Failed) => (Phase::Ready, PollAction::Report),
        _ => (p, PollAction::Nothing),
    }
}

/// Computes the transition of the polling cycle.
pub fn next_phase(p: Phase, e: PollEvent) -> (r: (Phase, PollAction))
    ensures
        r == step(p, e),
{
    match (p, e) {
        (Phase::Idle, PollEvent::EngineReady) => (Phase::Ready, PollAction::Nothing),
        (Phase::Ready, PollEvent::Tick) => (Phase::PollInFlight, PollAction::StartPoll),
        (Phase::PollInFlight, PollEvent::Completed) => (Phase::Ready, PollAction::Apply),
        (Phase::PollInFlight, PollEvent::Failed) => (Phase::Ready, PollAction::Report),
        _ => (p, PollAction::Nothing),
    }
}

/// The phase after a sequence of events.
pub open spec fn phase_after(p: Phase, es: Seq<PollEvent>) -> Phase
    decreases es.len(),
{
    if es.len() == 0 {
        p
    } else {
        step(phase_after(p, es.drop_last()), es.last()).0
    }
}

/// Whatever the events, a poll is started only from `Ready` and leaves the
/// cycle in `PollInFlight`, so no second poll starts before the first has
/// completed or failed.
pub proof fn lemma_one_poll_in_flight(p: Phase, e: PollEvent)
    ensures
        step(p, e).1 == PollAction::StartPoll ==> p == Phase::Ready && step(p, e).0
            == Phase::PollInFlight,
        p == Phase::PollInFlight ==> step(p, e).1 != PollAction::StartPoll,
        p == Phase::Idle ==> step(p, e).1 == PollAction::Nothing,
{
}

pub struct DashboardView {
    pub phase: Phase,
    pub stats: SystemView,
}

/// The polling cycle together with the statistics it maintains.
#[derive(Debug, Clone)]
pub struct Dashboard {
    phase: Phase,
    stats: SystemStats,
}

impl View for Dashboard {
    type V = DashboardView;

    closed spec fn view(&self) -> DashboardView {
        DashboardView { phase: self.phase, stats: self.stats@ }
    }
}

impl Dashboard {
    /// Nothing known yet, waiting for the engine.
    pub fn new() -> (r: Dashboard)
        ensures
            r@.phase == Phase::Idle,
            r@.stats == new_system(),
            system_wf(r@.stats),
    {
        Dashboard { phase: Phase::Idle, stats: SystemStats::new() }
    }

    /// The engine handle was acquired.
    pub fn engine_ready(&mut self)
        ensures
            final(self)@.phase == step(old(self)@.phase, PollEvent::EngineReady).0,
            final(self)@.stats == old(self)@.stats,
    {
        self.phase = next_phase(self.phase, PollEvent::EngineReady).0;
    }

    /// The timer fired; returns whether the caller is to start a poll.
    pub fn tick(&mut self) -> (start: bool)
        ensures
            final(self)@.phase == step(old(self)@.phase, PollEvent::Tick).0,
            start == (step(old(self)@.phase, PollEvent::Tick).1 == PollAction::StartPoll),
            start == (old(self)@.phase == Phase::Ready),
            final(self)@.stats == old(self)@.stats,
    {
        let (p, a) = next_phase(self.phase, PollEvent::Tick);
        self.phase = p;
        a == PollAction::StartPoll
    }

    /// The outstanding poll finished. A decoded report is applied; an error
    /// leaves every statistic as it was and is handed back for reporting. A
    /// result that arrives with no poll outstanding is dropped. Since a report
    /// is decoded whole before anything is applied, and applying it cannot
    /// fail, a poll changes either everything it reports or nothing.
    pub fn finish_poll(&mut self, result: Result<Vec<Device>, DecodeError>) -> (r: Option<
        DecodeError,
    >)
        requires
            system_wf(old(self)@.stats),
        ensures
            system_wf(final(self)@.stats),
            final(self)@.phase == step(
                old(self)@.phase,
                if result is Ok {
                    PollEvent::Completed
                } else {
                    PollEvent::Failed
                },
            ).0,
            old(self)@.phase == Phase::PollInFlight ==> match result {
                Ok(ds) => final(self)@.stats == system_after(old(self)@.stats, ds@) && r is None,
                Err(e) => final(self)@.stats == old(self)@.stats && r == Some(e),
            },
            old(self)@.phase != Phase::PollInFlight ==> final(self)@.stats == old(self)@.stats
                && r is None,
    {
        let event = match &result {
            Ok(_) => PollEvent::Completed,
            Err(_) => PollEvent::Failed,
        };
        let (p, a) = next_phase(self.phase, event);
        self.phase = p;
        match result {
            Ok(ds) => {
                if a == PollAction::Apply {
                    self.stats.update(&ds);
                }
                None
            },
            Err(e) => {
                if a == PollAction::Report {
                    Some(e)
                } else {
                    None
                }
            },
        }
    }

    pub fn phase(&self) -> (r: Phase)
        ensures
            r == self@.phase,
    {
        self.phase
    }

    pub fn stats(&self) -> (r: &SystemStats)
        ensures
            r@ == self@.stats,
    {
        &self.stats
    }
}

} // verus!
