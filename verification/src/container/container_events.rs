//! Reporting the resource usage of a running container.
//!
//! The monitor decides; its driver acts. The driver performs the action that
//! the monitor asks for (refresh the container's status, build its cgroup
//! manager, fetch a statistics snapshot, print a text, sleep) and hands the
//! outcome back as an event, until the monitor asks it to finish. The driver
//! may also ask the monitor to stop between any two actions.

use crate::container::state::ContainerStatus;
use crate::error::LibcontainerError;
use libcgroups::common::AnyManagerError;
use libcgroups::stats::Stats;
use vstd::prelude::*;

verus! {

/// A statistics snapshot of `libcgroups`. The monitor never looks inside it:
/// it only has it written as JSON.
#[verifier::external_type_specification]
#[verifier::external_body]
pub struct ExStats(libcgroups::stats::Stats);

/// What the monitor asks its driver to do next.
#[derive(Debug)]
pub enum MonitorAction {
    /// Read the container's status anew from where it is kept.
    RefreshStatus,
    /// Build the cgroup manager for the container.
    CreateManager,
    /// Fetch one statistics snapshot from the cgroup manager.
    FetchStats,
    /// Print this text: one snapshot, as pretty-printed JSON.
    Emit(String),
    /// Wait this many seconds.
    Sleep(u64),
    /// Return this result: the run is over.
    Finish(Result<(), LibcontainerError>),
}

/// What the driver reports back to the monitor.
#[derive(Debug)]
pub enum MonitorEvent {
    /// The outcome of `RefreshStatus`: the status just read.
    Status(Result<ContainerStatus, LibcontainerError>),
    /// The outcome of `CreateManager`.
    Manager(Result<(), LibcontainerError>),
    /// The outcome of `FetchStats`: the snapshot, written as JSON.
    Snapshot(Result<String, LibcontainerError>),
    /// The text of `Emit` has been printed.
    Emitted,
    /// The time of `Sleep` has passed.
    Slept,
    /// The caller wants the run to end.
    StopRequested,
}

/// Writes a statistics snapshot as pretty-printed JSON, by
/// `serde_json::to_string_pretty`. Nothing is claimed of the text: the
/// snapshot holds hash maps, whose entries come out in an order that differs
/// from one process to the next.
#[verifier::external_body]
fn to_pretty_json(stats: &Stats) -> (outcome: Result<String, serde_json::Error>) {
    serde_json::to_string_pretty(stats)
}

impl MonitorEvent {
    /// The failure that this event reports, if it reports one.
    pub open spec fn failure(self) -> Option<LibcontainerError> {
        match self {
            MonitorEvent::Status(Err(cause)) => Some(cause),
            MonitorEvent::Manager(Err(cause)) => Some(cause),
            MonitorEvent::Snapshot(Err(cause)) => Some(cause),
            _ => None,
        }
    }

    /// The event that reports the outcome of writing a snapshot as JSON: the
    /// text, or the serialization failure.
    pub open spec fn of_rendering(outcome: Result<String, serde_json::Error>) -> MonitorEvent {
        match outcome {
            Ok(text) => MonitorEvent::Snapshot(Ok(text)),
            Err(cause) => MonitorEvent::Snapshot(
                Err(LibcontainerError::OtherSerialization(cause)),
            ),
        }
    }

    /// The event that reports the outcome of writing a snapshot as JSON.
    pub fn rendered(outcome: Result<String, serde_json::Error>) -> (event: MonitorEvent)
        ensures
            event == MonitorEvent::of_rendering(outcome),
    {
        match outcome {
            Ok(text) => MonitorEvent::Snapshot(Ok(text)),
            Err(cause) => MonitorEvent::Snapshot(Err(LibcontainerError::from(cause))),
        }
    }

    /// The event that reports what the cgroup manager answered to
    /// `FetchStats`. A failure of the manager is passed on as it is; a
    /// snapshot is written as JSON, which gives its text or a serialization
    /// failure.
    pub fn fetched(answer: Result<Stats, AnyManagerError>) -> (event: MonitorEvent)
        ensures
            match answer {
                Ok(_) => exists|outcome: Result<String, serde_json::Error>|
                    event == MonitorEvent::of_rendering(outcome),
                Err(cause) => event == MonitorEvent::Snapshot(
                    Err(LibcontainerError::CgroupManager(cause)),
                ),
            },
    {
        match answer {
            Ok(stats) => {
                let outcome = to_pretty_json(&stats);
                MonitorEvent::rendered(outcome)
            },
            Err(cause) => MonitorEvent::Snapshot(Err(LibcontainerError::from(cause))),
        }
    }
}

/// What the monitor is waiting for.
#[derive(Clone, Copy, Debug, PartialEq, Eq, Structural)]
pub enum MonitorPhase {
    AwaitingStatus,
    AwaitingManager,
    AwaitingStats,
    AwaitingEmit,
    AwaitingSleep,
    Finished,
}

/// The monitor of one report: whether it prints once or for ever, how long it
/// waits between two snapshots, and how far it has come.
#[derive(Clone, Copy, Debug, PartialEq, Eq, Structural)]
pub struct StatusMonitor {
    /// Seconds between two snapshots when repeating.
    pub interval: u32,
    /// Whether to print one snapshot and end.
    pub once: bool,
    /// What the monitor is waiting for.
    pub phase: MonitorPhase,
}

impl StatusMonitor {
    /// The monitor of a report that has not begun: it waits for the
    /// container's status.
    pub open spec fn started(interval: u32, once: bool) -> StatusMonitor {
        StatusMonitor { interval, once, phase: MonitorPhase::AwaitingStatus }
    }

    /// This monitor in another phase.
    pub open spec fn at(self, phase: MonitorPhase) -> StatusMonitor {
        StatusMonitor { phase, ..self }
    }

    /// This monitor at its end, with the result that the run returns.
    pub open spec fn ended(self, result: Result<(), LibcontainerError>) -> (
        StatusMonitor,
        Option<MonitorAction>,
    ) {
        (self.at(MonitorPhase::Finished), Some(MonitorAction::Finish(result)))
    }

    /// This monitor in its next phase, with the action that leads there.
    pub open spec fn asking(self, phase: MonitorPhase, action: MonitorAction) -> (
        StatusMonitor,
        Option<MonitorAction>,
    ) {
        (self.at(phase), Some(action))
    }

    /// Whether `event` is the outcome that the monitor waits for.
    pub open spec fn awaits(self, event: MonitorEvent) -> bool {
        match (self.phase, event) {
            (MonitorPhase::AwaitingStatus, MonitorEvent::Status(_)) => true,
            (MonitorPhase::AwaitingManager, MonitorEvent::Manager(_)) => true,
            (MonitorPhase::AwaitingStats, MonitorEvent::Snapshot(_)) => true,
            (MonitorPhase::AwaitingEmit, MonitorEvent::Emitted) => true,
            (MonitorPhase::AwaitingSleep, MonitorEvent::Slept) => true,
            _ => false,
        }
    }

    /// The monitor after `event`, and the action it asks for, if any.
    ///
    /// A finished monitor takes no event. A request to stop ends the run with
    /// success. An event that the monitor does not wait for changes nothing
    /// and asks for nothing. A failure ends the run with that failure. A
    /// status other than `Running` ends it with `IncorrectStatus`, and a
    /// printed snapshot ends it with success when printing once. Every other
    /// outcome leads to the next action.
    pub open spec fn after(self, event: MonitorEvent) -> (StatusMonitor, Option<MonitorAction>) {
        if self.phase == MonitorPhase::Finished {
            (self, None)
        } else if event is StopRequested {
            self.ended(Ok(()))
        } else if !self.awaits(event) {
            (self, None)
        } else if let Some(cause) = event.failure() {
            self.ended(Err(cause))
        } else {
            match event {
                MonitorEvent::Status(status) => {
                    if status == Ok::<ContainerStatus, LibcontainerError>(ContainerStatus::Running) {
                        self.asking(MonitorPhase::AwaitingManager, MonitorAction::CreateManager)
                    } else {
                        self.ended(Err(LibcontainerError::IncorrectStatus))
                    }
                },
                MonitorEvent::Snapshot(Ok(text)) => self.asking(
                    MonitorPhase::AwaitingEmit,
                    MonitorAction::Emit(text),
                ),
                MonitorEvent::Emitted if self.once => self.ended(Ok(())),
                MonitorEvent::Emitted => self.asking(
                    MonitorPhase::AwaitingSleep,
                    MonitorAction::Sleep(self.interval as u64),
                ),
                // The manager is ready, or the sleep is over.
                _ => self.asking(MonitorPhase::AwaitingStats, MonitorAction::FetchStats),
            }
        }
    }

    /// Begins a report: the monitor, and its first action, which is always to
    /// read the container's status anew.
    pub fn begin(interval: u32, once: bool) -> (r: (StatusMonitor, MonitorAction))
        ensures
            r.0 == StatusMonitor::started(interval, once),
            r.1 == MonitorAction::RefreshStatus,
    {
        (
            StatusMonitor { interval, once, phase: MonitorPhase::AwaitingStatus },
            MonitorAction::RefreshStatus,
        )
    }

    fn end(&mut self, result: Result<(), LibcontainerError>) -> (action: Option<MonitorAction>)
        ensures
            (*final(self), action) == old(self).ended(result),
    {
        self.phase = MonitorPhase::Finished;
        Some(MonitorAction::Finish(result))
    }

    fn ask(&mut self, phase: MonitorPhase, action: MonitorAction) -> (asked: Option<MonitorAction>)
        ensures
            (*final(self), asked) == old(self).asking(phase, action),
    {
        self.phase = phase;
        Some(action)
    }

    /// Takes the outcome of the last action and says what to do next; `None`
    /// when the event is not one the monitor waits for.
    pub fn step(&mut self, event: MonitorEvent) -> (action: Option<MonitorAction>)
        ensures
            (*final(self), action) == old(self).after(event),
    {
        match self.phase {
            MonitorPhase::Finished => None,
            MonitorPhase::AwaitingStatus => match event {
                MonitorEvent::StopRequested => self.end(Ok(())),
                MonitorEvent::Status(Ok(status)) => {
                    if status == ContainerStatus::Running {
                        self.ask(MonitorPhase::AwaitingManager, MonitorAction::CreateManager)
                    } else {
                        self.end(Err(LibcontainerError::IncorrectStatus))
                    }
                },
                MonitorEvent::Status(Err(cause)) => self.end(Err(cause)),
                _ => None,
            },
            MonitorPhase::AwaitingManager => match event {
                MonitorEvent::StopRequested => self.end(Ok(())),
                MonitorEvent::Manager(Ok(())) => self.ask(
                    MonitorPhase::AwaitingStats,
                    MonitorAction::FetchStats,
                ),
                MonitorEvent::Manager(Err(cause)) => self.end(Err(cause)),
                _ => None,
            },
            MonitorPhase::AwaitingStats => match event {
                MonitorEvent::StopRequested => self.end(Ok(())),
                MonitorEvent::Snapshot(Ok(text)) => self.ask(
                    MonitorPhase::AwaitingEmit,
                    MonitorAction::Emit(text),
                ),
                MonitorEvent::Snapshot(Err(cause)) => self.end(Err(cause)),
                _ => None,
            },
            MonitorPhase::AwaitingEmit => match event {
                MonitorEvent::StopRequested => self.end(Ok(())),
                MonitorEvent::Emitted => {
                    if self.once {
                        self.end(Ok(()))
                    } else {
                        let seconds: u64 = self.interval as u64;
                        self.ask(MonitorPhase::AwaitingSleep, MonitorAction::Sleep(seconds))
                    }
                },
                _ => None,
            },
            MonitorPhase::AwaitingSleep => match event {
                MonitorEvent::StopRequested => self.end(Ok(())),
                MonitorEvent::Slept => self.ask(
                    MonitorPhase::AwaitingStats,
                    MonitorAction::FetchStats,
                ),
                _ => None,
            },
        }
    }

    /// The monitor after it has taken all of `events`, in order.
    pub open spec fn after_all(self, events: Seq<MonitorEvent>) -> StatusMonitor
        decreases events.len(),
    {
        if events.len() == 0 {
            self
        } else {
            self.after(events.first()).0.after_all(events.drop_first())
        }
    }

    /// The actions that the monitor asks for while it takes `events`, in
    /// order.
    pub open spec fn actions(self, events: Seq<MonitorEvent>) -> Seq<MonitorAction>
        decreases events.len(),
    {
        if events.len() == 0 {
            Seq::empty()
        } else {
            let (next, action) = self.after(events.first());
            let later = next.actions(events.drop_first());
            match action {
                Some(action) => seq![action] + later,
                None => later,
            }
        }
    }

    /// The events of a repeating report in which each of `texts` is fetched,
    /// printed and followed by a sleep.
    pub open spec fn rounds(texts: Seq<String>) -> Seq<MonitorEvent>
        decreases texts.len(),
    {
        if texts.len() == 0 {
            Seq::empty()
        } else {
            seq![
                MonitorEvent::Snapshot(Ok(texts.first())),
                MonitorEvent::Emitted,
                MonitorEvent::Slept,
            ] + Self::rounds(texts.drop_first())
        }
    }

    /// What a repeating monitor asks for during `rounds(texts)`: for each
    /// text to print it, to sleep for `interval` seconds, and to fetch again.
    pub open spec fn round_actions(interval: u32, texts: Seq<String>) -> Seq<MonitorAction>
        decreases texts.len(),
    {
        if texts.len() == 0 {
            Seq::empty()
        } else {
            seq![
                MonitorAction::Emit(texts.first()),
                MonitorAction::Sleep(interval as u64),
                MonitorAction::FetchStats,
            ] + Self::round_actions(interval, texts.drop_first())
        }
    }

    /// A run is its first step, followed by the run of the rest.
    pub proof fn lemma_first_event(self, event: MonitorEvent, rest: Seq<MonitorEvent>)
        ensures
            self.after_all(seq![event] + rest) == self.after(event).0.after_all(rest),
            self.actions(seq![event] + rest) == match self.after(event).1 {
                Some(action) => seq![action] + self.after(event).0.actions(rest),
                None => self.after(event).0.actions(rest),
            },
    {
        let events = seq![event] + rest;
        assert(events.first() == event);
        assert(events.drop_first() =~= rest);
    }

    /// A run of two parts is the run of the first, followed by the run of
    /// the second from where the first ended.
    pub proof fn lemma_events_in_turn(self, front: Seq<MonitorEvent>, back: Seq<MonitorEvent>)
        ensures
            self.after_all(front + back) == self.after_all(front).after_all(back),
            self.actions(front + back) == self.actions(front) + self.after_all(front).actions(
                back,
            ),
        decreases front.len(),
    {
        if front.len() == 0 {
            assert(front + back =~= back);
            assert(self.actions(front) + self.actions(back) =~= self.actions(back));
        } else {
            let (next, action) = self.after(front.first());
            assert(front + back =~= seq![front.first()] + (front.drop_first() + back));
            self.lemma_first_event(front.first(), front.drop_first() + back);
            next.lemma_events_in_turn(front.drop_first(), back);
            let later = next.actions(front.drop_first());
            let last = next.after_all(front.drop_first()).actions(back);
            match action {
                Some(action) => {
                    assert(seq![action] + (later + last) =~= (seq![action] + later) + last);
                },
                None => {},
            }
        }
    }

    /// A finished monitor stays as it is and asks for nothing more, whatever
    /// it is told.
    pub proof fn law_finished_is_final(self, events: Seq<MonitorEvent>)
        requires
            self.phase == MonitorPhase::Finished,
        ensures
            self.after_all(events) == self,
            self.actions(events) == Seq::<MonitorAction>::empty(),
        decreases events.len(),
    {
        if events.len() > 0 {
            self.law_finished_is_final(events.drop_first());
        }
    }

    /// The monitor asks for a cgroup manager exactly when it waits for the
    /// container's status and is told that the status just read is `Running`.
    pub proof fn law_manager_only_when_running(self, event: MonitorEvent)
        ensures
            self.after(event).1 == Some(MonitorAction::CreateManager) <==> self.phase
                == MonitorPhase::AwaitingStatus && event == MonitorEvent::Status(
                Ok(ContainerStatus::Running),
            ),
    {
    }

    /// Nothing follows the end: in any run, an action to finish is the last
    /// action. So a failure is returned once, and nothing is tried again.
    pub proof fn law_finish_comes_last(self, events: Seq<MonitorEvent>, k: int)
        requires
            0 <= k < self.actions(events).len(),
            self.actions(events)[k] is Finish,
        ensures
            k == self.actions(events).len() - 1,
        decreases events.len(),
    {
        if events.len() > 0 {
            let (next, action) = self.after(events.first());
            let later = next.actions(events.drop_first());
            match action {
                Some(action) => {
                    if action is Finish {
                        next.law_finished_is_final(events.drop_first());
                    } else {
                        assert(self.actions(events)[k] == later[k - 1]);
                        next.law_finish_comes_last(events.drop_first(), k - 1);
                    }
                },
                None => {
                    next.law_finish_comes_last(events.drop_first(), k);
                },
            }
        }
    }

    /// A report on a container that is not running asks for one thing only,
    /// whatever follows: to finish with `IncorrectStatus`. In particular it
    /// never asks for a cgroup manager.
    pub proof fn law_not_running_is_refused(
        interval: u32,
        once: bool,
        status: ContainerStatus,
        rest: Seq<MonitorEvent>,
    )
        requires
            status != ContainerStatus::Running,
        ensures
            Self::started(interval, once).actions(seq![MonitorEvent::Status(Ok(status))] + rest)
                == seq![MonitorAction::Finish(Err(LibcontainerError::IncorrectStatus))],
    {
        let start = Self::started(interval, once);
        let event = MonitorEvent::Status(Ok(status));
        start.lemma_first_event(event, rest);
        start.after(event).0.law_finished_is_final(rest);
        let only = seq![MonitorAction::Finish(Err(LibcontainerError::IncorrectStatus))];
        assert(only + Seq::<MonitorAction>::empty() =~= only);
    }

    /// A report that prints once, on a running container whose manager and
    /// snapshot are to be had, fetches one snapshot, prints it, and finishes
    /// with success, whatever follows. It never sleeps.
    pub proof fn law_once_prints_once(interval: u32, text: String, rest: Seq<MonitorEvent>)
        ensures
            Self::started(interval, true).actions(
                seq![
                    MonitorEvent::Status(Ok(ContainerStatus::Running)),
                    MonitorEvent::Manager(Ok(())),
                    MonitorEvent::Snapshot(Ok(text)),
                    MonitorEvent::Emitted,
                ] + rest,
            ) == seq![
                MonitorAction::CreateManager,
                MonitorAction::FetchStats,
                MonitorAction::Emit(text),
                MonitorAction::Finish(Ok(())),
            ],
    {
        let status = MonitorEvent::Status(Ok(ContainerStatus::Running));
        let manager = MonitorEvent::Manager(Ok(()));
        let snapshot = MonitorEvent::Snapshot(Ok(text));
        let m0 = Self::started(interval, true);
        let m1 = m0.at(MonitorPhase::AwaitingManager);
        let m2 = m0.at(MonitorPhase::AwaitingStats);
        let m3 = m0.at(MonitorPhase::AwaitingEmit);
        let m4 = m0.at(MonitorPhase::Finished);
        let e3 = seq![MonitorEvent::Emitted] + rest;
        let e2 = seq![snapshot] + e3;
        let e1 = seq![manager] + e2;
        assert(seq![status, manager, snapshot, MonitorEvent::Emitted] + rest =~= seq![status] + e1);
        m0.lemma_first_event(status, e1);
        m1.lemma_first_event(manager, e2);
        m2.lemma_first_event(snapshot, e3);
        m3.lemma_first_event(MonitorEvent::Emitted, rest);
        m4.law_finished_is_final(rest);
        assert(m0.actions(seq![status] + e1) =~= seq![
            MonitorAction::CreateManager,
            MonitorAction::FetchStats,
            MonitorAction::Emit(text),
            MonitorAction::Finish(Ok(())),
        ]);
    }

    /// A monitor that repeats and waits for a snapshot goes through any
    /// number of rounds and is then where it was: it has asked to print each
    /// text, to sleep after each, and to fetch again, and not to finish.
    pub proof fn law_repeating_goes_on(self, texts: Seq<String>)
        requires
            self.phase == MonitorPhase::AwaitingStats,
            !self.once,
        ensures
            self.after_all(Self::rounds(texts)) == self,
            self.actions(Self::rounds(texts)) == Self::round_actions(self.interval, texts),
        decreases texts.len(),
    {
        if texts.len() > 0 {
            let text = texts.first();
            let later = Self::rounds(texts.drop_first());
            let printing = self.at(MonitorPhase::AwaitingEmit);
            let sleeping = self.at(MonitorPhase::AwaitingSleep);
            let e2 = seq![MonitorEvent::Slept] + later;
            let e1 = seq![MonitorEvent::Emitted] + e2;
            assert(Self::rounds(texts) =~= seq![MonitorEvent::Snapshot(Ok(text))] + e1);
            self.lemma_first_event(MonitorEvent::Snapshot(Ok(text)), e1);
            printing.lemma_first_event(MonitorEvent::Emitted, e2);
            sleeping.lemma_first_event(MonitorEvent::Slept, later);
            assert(sleeping.at(MonitorPhase::AwaitingStats) == self);
            self.law_repeating_goes_on(texts.drop_first());
            assert(self.actions(Self::rounds(texts)) =~= Self::round_actions(
                self.interval,
                texts,
            ));
        }
    }

    /// A repeating report ends at the first snapshot that fails, with that
    /// failure and without another try: after as many rounds as there are
    /// `texts` it has printed each of them once, slept once after each, and
    /// finishes with the failure of the fetch that followed, whatever comes
    /// after.
    pub proof fn law_repeating_ends_at_first_failure(
        interval: u32,
        texts: Seq<String>,
        cause: LibcontainerError,
        rest: Seq<MonitorEvent>,
    )
        ensures
            Self::started(interval, false).actions(
                seq![MonitorEvent::Status(Ok(ContainerStatus::Running)), MonitorEvent::Manager(Ok(()))]
                    + Self::rounds(texts) + seq![MonitorEvent::Snapshot(Err(cause))] + rest,
            ) == seq![MonitorAction::CreateManager, MonitorAction::FetchStats]
                + Self::round_actions(interval, texts) + seq![MonitorAction::Finish(Err(cause))],
    {
        let status = MonitorEvent::Status(Ok(ContainerStatus::Running));
        let manager = MonitorEvent::Manager(Ok(()));
        let failure = MonitorEvent::Snapshot(Err(cause));
        let m0 = Self::started(interval, false);
        let m1 = m0.at(MonitorPhase::AwaitingManager);
        let m2 = m0.at(MonitorPhase::AwaitingStats);
        let m3 = m0.at(MonitorPhase::Finished);
        let end = seq![failure] + rest;
        let e2 = Self::rounds(texts) + end;
        let e1 = seq![manager] + e2;
        assert(seq![status, manager] + Self::rounds(texts) + seq![failure] + rest =~= seq![status]
            + e1);
        m0.lemma_first_event(status, e1);
        m1.lemma_first_event(manager, e2);
        m2.lemma_events_in_turn(Self::rounds(texts), end);
        m2.law_repeating_goes_on(texts);
        m2.lemma_first_event(failure, rest);
        m3.law_finished_is_final(rest);
        assert(m0.actions(seq![status] + e1) =~= seq![
            MonitorAction::CreateManager,
            MonitorAction::FetchStats,
        ] + Self::round_actions(interval, texts) + seq![MonitorAction::Finish(Err(cause))]);
    }
}

} // verus!
