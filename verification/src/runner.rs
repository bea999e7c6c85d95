//! One asynchronous probe run, as a machine that its caller drives.
//!
//! The caller owns the thread and the sink. It hands the machine what happened
//! and does what the machine answers: deliver a notification, make a connection
//! attempt. The machine sees to it that a run is announced once and ended once.
//!
//! One machine is one run. A notification carries no mark of its run: a caller
//! with several runs under way keeps one machine for each and tells their
//! notifications apart by the machine that gave them out. A run that has begun
//! cannot be called off; it ends with the connection attempt.

use vstd::prelude::*;
use crate::client::{SSHClient, SSHClientView};
use crate::notification::{notification_of, ProbeNotification, ProbeNotificationView};
use crate::outcome::{probe_result_of, ConnectAttempt, ConnectAttemptView};
use crate::request::{ConnectRequest, ConnectRequestView};

verus! {

/// How far a run has come.
#[derive(Clone, Copy, Debug, PartialEq, Eq, Structural)]
pub enum RunnerPhase {
    /// Nothing has been announced.
    Idle,
    /// The run has been announced and the check is under way.
    Probing,
    /// The terminal notification has been given out.
    Done,
}

/// What the caller reports to the machine.
#[derive(Clone, Debug, PartialEq, Eq)]
pub enum RunnerEvent {
    /// The run is to begin.
    Start,
    /// The connection attempt has come to an end.
    Attempted { attempt: ConnectAttempt },
    /// The check broke off without a report of its own.
    Faulted { detail: String },
}

/// An event, as contracts see it.
pub enum RunnerEventView {
    Start,
    Attempted { attempt: ConnectAttemptView },
    Faulted { detail: Seq<char> },
}

impl View for RunnerEvent {
    type V = RunnerEventView;

    open spec fn view(&self) -> RunnerEventView {
        match *self {
            RunnerEvent::Start => RunnerEventView::Start,
            RunnerEvent::Attempted { attempt } => RunnerEventView::Attempted { attempt: attempt@ },
            RunnerEvent::Faulted { detail } => RunnerEventView::Faulted { detail: detail@ },
        }
    }
}

/// What the machine asks of the caller.
#[derive(Clone, Debug, PartialEq, Eq)]
pub enum RunnerAction {
    /// Deliver the notification, then make the connection attempt, off the
    /// thread that asked for the run, and report how it ended.
    Announce { notification: ProbeNotification, request: ConnectRequest },
    /// Deliver the notification; the run is over.
    Conclude { notification: ProbeNotification },
    /// The event has no place in the run: do nothing.
    Nothing,
}

/// An action, as contracts see it.
pub enum RunnerActionView {
    Announce { notification: ProbeNotificationView, request: ConnectRequestView },
    Conclude { notification: ProbeNotificationView },
    Nothing,
}

impl View for RunnerAction {
    type V = RunnerActionView;

    open spec fn view(&self) -> RunnerActionView {
        match *self {
            RunnerAction::Announce { notification, request } => RunnerActionView::Announce {
                notification: notification@,
                request: request@,
            },
            RunnerAction::Conclude { notification } => RunnerActionView::Conclude {
                notification: notification@,
            },
            RunnerAction::Nothing => RunnerActionView::Nothing,
        }
    }
}

impl RunnerActionView {
    /// The notifications that the action has the caller deliver.
    pub open spec fn notifications(self) -> Seq<ProbeNotificationView> {
        match self {
            RunnerActionView::Announce { notification, .. } => seq![notification],
            RunnerActionView::Conclude { notification } => seq![notification],
            RunnerActionView::Nothing => Seq::empty(),
        }
    }
}

/// One run: the target, the time allowed, and how far the run has come.
pub struct Runner {
    client: SSHClient,
    timeout_secs: Option<u64>,
    phase: RunnerPhase,
}

/// A run, as contracts see it.
pub struct RunnerView {
    pub client: SSHClientView,
    pub timeout_secs: Option<u64>,
    pub phase: RunnerPhase,
}

impl RunnerView {
    /// The run and the action after one event.
    ///
    /// `Start` counts only while nothing has been announced: it announces the
    /// run and asks for the connection attempt. The end of the attempt, or a
    /// fault, counts only while the check is under way: it ends the run with
    /// the notification of that outcome. Any other event changes nothing and
    /// asks for nothing.
    pub open spec fn step(self, event: RunnerEventView) -> (RunnerView, RunnerActionView) {
        match (self.phase, event) {
            (RunnerPhase::Idle, RunnerEventView::Start) => (
                RunnerView { phase: RunnerPhase::Probing, ..self },
                RunnerActionView::Announce {
                    notification: ProbeNotificationView::Started,
                    request: self.client.connect_request(self.timeout_secs),
                },
            ),
            (RunnerPhase::Probing, RunnerEventView::Attempted { attempt }) => (
                RunnerView { phase: RunnerPhase::Done, ..self },
                RunnerActionView::Conclude {
                    notification: notification_of(probe_result_of(attempt)),
                },
            ),
            (RunnerPhase::Probing, RunnerEventView::Faulted { detail }) => (
                RunnerView { phase: RunnerPhase::Done, ..self },
                RunnerActionView::Conclude {
                    notification: ProbeNotificationView::Failed { message: detail },
                },
            ),
            _ => (self, RunnerActionView::Nothing),
        }
    }

    /// The run after a sequence of events, and the notifications given out on
    /// the way, in order.
    pub open spec fn trace(self, events: Seq<RunnerEventView>) -> (
        RunnerView,
        Seq<ProbeNotificationView>,
    )
        decreases events.len(),
    {
        if events.len() == 0 {
            (self, Seq::empty())
        } else {
            let (before, sent) = self.trace(events.drop_last());
            let (after, action) = before.step(events.last());
            (after, sent + action.notifications())
        }
    }
}

impl View for Runner {
    type V = RunnerView;

    closed spec fn view(&self) -> RunnerView {
        RunnerView { client: self.client@, timeout_secs: self.timeout_secs, phase: self.phase }
    }
}

impl Runner {
    /// A run of a reachability check of `client` that has not begun. The check
    /// is given `timeout_secs` seconds, or the default where none is given.
    pub fn new(client: SSHClient, timeout_secs: Option<u64>) -> (runner: Runner)
        ensures
            runner@ == (RunnerView { client: client@, timeout_secs, phase: RunnerPhase::Idle }),
    {
        Runner { client, timeout_secs, phase: RunnerPhase::Idle }
    }

    /// How far the run has come.
    pub fn phase(&self) -> (phase: RunnerPhase)
        ensures
            phase == self@.phase,
    {
        self.phase
    }

    /// The target of the run.
    pub fn client(&self) -> (client: &SSHClient)
        ensures
            client@ == self@.client,
    {
        &self.client
    }

    /// Takes one event and answers with what the caller is to do.
    pub fn step(&mut self, event: RunnerEvent) -> (action: RunnerAction)
        ensures
            (final(self)@, action@) == old(self)@.step(event@),
    {
        match self.phase {
            RunnerPhase::Idle => match event {
                RunnerEvent::Start => {
                    let request: ConnectRequest = self.client.connect_request(self.timeout_secs);
                    self.phase = RunnerPhase::Probing;
                    RunnerAction::Announce { notification: ProbeNotification::Started, request }
                },
                _ => RunnerAction::Nothing,
            },
            RunnerPhase::Probing => match event {
                RunnerEvent::Attempted { attempt } => {
                    let result = self.client.check_connection(attempt);
                    self.phase = RunnerPhase::Done;
                    RunnerAction::Conclude { notification: ProbeNotification::for_result(result) }
                },
                RunnerEvent::Faulted { detail } => {
                    self.phase = RunnerPhase::Done;
                    RunnerAction::Conclude {
                        notification: ProbeNotification::Failed { message: detail },
                    }
                },
                RunnerEvent::Start => RunnerAction::Nothing,
            },
            RunnerPhase::Done => RunnerAction::Nothing,
        }
    }
}

/// Whether `sent` is what a run in `phase` has given out: nothing before the
/// run is announced, `Started` alone while the check is under way, and
/// `Started` with one terminal notification behind it once the run is over.
pub open spec fn sent_matches_phase(phase: RunnerPhase, sent: Seq<ProbeNotificationView>) -> bool {
    match phase {
        RunnerPhase::Idle => sent.len() == 0,
        RunnerPhase::Probing => sent.len() == 1 && sent[0] is Started,
        RunnerPhase::Done => sent.len() == 2 && sent[0] is Started && sent[1].is_terminal(),
    }
}

/// Events taken one sequence after another are taken as one sequence: the
/// second sequence goes on where the first ended, and what it gives out comes
/// behind what the first gave out.
pub proof fn lemma_trace_concat(
    run: RunnerView,
    first: Seq<RunnerEventView>,
    second: Seq<RunnerEventView>,
)
    ensures
        run.trace(first + second).0 == run.trace(first).0.trace(second).0,
        run.trace(first + second).1 == run.trace(first).1 + run.trace(first).0.trace(second).1,
    decreases second.len(),
{
    if second.len() == 0 {
        assert(first + second =~= first);
        assert(run.trace(first).1 + Seq::<ProbeNotificationView>::empty() =~= run.trace(first).1);
    } else {
        lemma_trace_concat(run, first, second.drop_last());
        assert((first + second).drop_last() =~= first + second.drop_last());
        assert((first + second).last() == second.last());
        let middle = run.trace(first).0;
        let (before, sent) = middle.trace(second.drop_last());
        let action = before.step(second.last()).1;
        assert(run.trace(first).1 + (sent + action.notifications()) =~= (run.trace(first).1 + sent)
            + action.notifications());
    }
}

/// Whatever events come in, and in whatever order, a run that had not begun
/// has given out nothing, or `Started` alone, or `Started` and then one
/// terminal notification: never a terminal notification first, never a second
/// `Started`, never a third notification. Which of the three it is can be read
/// off the phase. The target and the time allowed stay as they were.
pub proof fn lemma_trace_shape(run: RunnerView, events: Seq<RunnerEventView>)
    requires
        run.phase is Idle,
    ensures
        sent_matches_phase(run.trace(events).0.phase, run.trace(events).1),
        run.trace(events).0.client == run.client,
        run.trace(events).0.timeout_secs == run.timeout_secs,
    decreases events.len(),
{
    if events.len() > 0 {
        lemma_trace_shape(run, events.drop_last());
    }
}

/// A run that is begun and whose connection attempt comes to an end gives out
/// exactly two notifications: `Started`, then the one that reports the outcome
/// of the attempt. It is then over, and no later event gives out another.
pub proof fn lemma_run_of_attempt(
    run: RunnerView,
    attempt: ConnectAttemptView,
    later: Seq<RunnerEventView>,
)
    requires
        run.phase is Idle,
    ensures
        run.trace(seq![RunnerEventView::Start, RunnerEventView::Attempted { attempt }] + later).1
            == seq![ProbeNotificationView::Started, notification_of(probe_result_of(attempt))],
        run.trace(
            seq![RunnerEventView::Start, RunnerEventView::Attempted { attempt }] + later,
        ).0.phase is Done,
{
    lemma_run_to_end(run, RunnerEventView::Attempted { attempt }, later);
}

/// A run that is begun and whose check breaks off gives out exactly two
/// notifications: `Started`, then `Failed` with the detail of the fault. It is
/// then over, and no later event gives out another.
pub proof fn lemma_run_of_fault(run: RunnerView, detail: Seq<char>, later: Seq<RunnerEventView>)
    requires
        run.phase is Idle,
    ensures
        run.trace(seq![RunnerEventView::Start, RunnerEventView::Faulted { detail }] + later).1
            == seq![
            ProbeNotificationView::Started,
            ProbeNotificationView::Failed { message: detail },
        ],
        run.trace(
            seq![RunnerEventView::Start, RunnerEventView::Faulted { detail }] + later,
        ).0.phase is Done,
{
    lemma_run_to_end(run, RunnerEventView::Faulted { detail }, later);
}

/// What `Start`, one event that ends the check, and any later events give out.
proof fn lemma_run_to_end(run: RunnerView, ending: RunnerEventView, later: Seq<RunnerEventView>)
    requires
        run.phase is Idle,
        !(ending is Start),
    ensures
        run.trace(seq![RunnerEventView::Start, ending] + later).0.phase is Done,
        run.trace(seq![RunnerEventView::Start, ending] + later).1 == seq![
            ProbeNotificationView::Started,
            (RunnerView { phase: RunnerPhase::Probing, ..run }).step(ending).1->Conclude_notification,
        ],
{
    let both = seq![RunnerEventView::Start, ending];
    let one = seq![RunnerEventView::Start];
    assert(both.drop_last() =~= one);
    assert(one.drop_last() =~= Seq::<RunnerEventView>::empty());
    assert(run.trace(one.drop_last()) == (run, Seq::<ProbeNotificationView>::empty()));
    assert(run.trace(one).1 =~= seq![ProbeNotificationView::Started]);
    assert(run.trace(one).0 == (RunnerView { phase: RunnerPhase::Probing, ..run }));
    let last = (RunnerView { phase: RunnerPhase::Probing, ..run }).step(ending).1->Conclude_notification;
    assert(run.trace(both).1 =~= seq![ProbeNotificationView::Started, last]);
    lemma_trace_concat(run, both, later);
    lemma_done_is_final(run.trace(both).0, later);
    assert(run.trace(both).1 + Seq::<ProbeNotificationView>::empty() =~= run.trace(both).1);
}

/// A run that is over stays as it is and gives out nothing more, whatever
/// events still come in.
pub proof fn lemma_done_is_final(run: RunnerView, events: Seq<RunnerEventView>)
    requires
        run.phase is Done,
    ensures
        run.trace(events).0 == run,
        run.trace(events).1 == Seq::<ProbeNotificationView>::empty(),
    decreases events.len(),
{
    if events.len() > 0 {
        lemma_done_is_final(run, events.drop_last());
        assert(run.trace(events).1 =~= Seq::<ProbeNotificationView>::empty());
    }
}

/// The notifications of a run are made from the events alone. Two runs in one
/// phase that take the same events give out the same notifications, whatever
/// their targets are: nothing of a target, and so nothing of its password,
/// reaches the sink.
pub proof fn lemma_notifications_ignore_target(
    run: RunnerView,
    other: RunnerView,
    events: Seq<RunnerEventView>,
)
    requires
        run.phase == other.phase,
    ensures
        run.trace(events).1 == other.trace(events).1,
        run.trace(events).0.phase == other.trace(events).0.phase,
    decreases events.len(),
{
    if events.len() > 0 {
        lemma_notifications_ignore_target(run, other, events.drop_last());
    }
}

} // verus!
