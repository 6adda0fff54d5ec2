//! The continuous poll loop as a state machine. It waits on a timer, checks
//! the session's state, polls, hands out what the poll brought, and waits
//! again, until the session is seen unregistered or cancellation is asked
//! for. Whoever drives it performs the actions and reports the events.

use vstd::prelude::*;

use crate::interaction_log::LogEntry;
use crate::server_comm::PollError;

verus! {

/// Where the loop is.
#[derive(Debug, Clone, Copy, PartialEq, Eq, Structural)]
pub enum LogStreamState {
    WaitingOnTimer,
    WaitingOnServer,
    Terminated,
}

/// What the driver reports.
#[derive(Debug)]
pub enum LogStreamEvent {
    /// The poll period elapsed; `registered` is the session's state then.
    TimerFired { registered: bool },
    /// The poll started last has finished with this result.
    PollCompleted(Result<Option<Vec<LogEntry>>, PollError>),
    /// The consumer asked the loop to stop.
    CancelRequested,
}

/// What the driver does next.
#[derive(Debug, Clone, Copy, PartialEq, Eq, Structural)]
pub enum LogStreamAction {
    /// Start waiting one poll period.
    StartTimer,
    /// Poll the server.
    StartPoll,
    /// Keep waiting for what is already under way.
    KeepWaiting,
    /// The loop is over; nothing more comes.
    Finish,
}

/// One item handed out by the loop.
#[derive(Debug)]
pub enum LogPollResult {
    Error(PollError),
    NoNewLogs,
    ReceivedNewLog(LogEntry),
}

/// The state after an event. The loop ends on cancellation, and when the
/// session is seen unregistered; once ended it stays ended.
pub open spec fn next_state(s: LogStreamState, e: LogStreamEvent) -> LogStreamState {
    match s {
        LogStreamState::Terminated => LogStreamState::Terminated,
        _ => match e {
            LogStreamEvent::CancelRequested => LogStreamState::Terminated,
            LogStreamEvent::TimerFired { registered } => if !registered {
                LogStreamState::Terminated
            } else if s == LogStreamState::WaitingOnTimer {
                LogStreamState::WaitingOnServer
            } else {
                s
            },
            LogStreamEvent::PollCompleted(_) => if s == LogStreamState::WaitingOnServer {
                LogStreamState::WaitingOnTimer
            } else {
                s
            },
        },
    }
}

/// The items an event hands out: the entries of a completed poll in order,
/// its error, or `NoNewLogs` for an empty poll where empty polls are reported.
pub open spec fn step_items(s: LogStreamState, e: LogStreamEvent, report_empty_polls: bool) -> Seq<LogPollResult> {
    if s == LogStreamState::WaitingOnServer {
        match e {
            LogStreamEvent::PollCompleted(Ok(Some(logs))) => logs@.map_values(
                |l: LogEntry| LogPollResult::ReceivedNewLog(l),
            ),
            LogStreamEvent::PollCompleted(Ok(None)) => if report_empty_polls {
                seq![LogPollResult::NoNewLogs]
            } else {
                Seq::empty()
            },
            LogStreamEvent::PollCompleted(Err(err)) => seq![LogPollResult::Error(err)],
            _ => Seq::empty(),
        }
    } else {
        Seq::empty()
    }
}

/// What the driver does after an event from state `s`.
pub open spec fn action_after(s: LogStreamState, e: LogStreamEvent) -> LogStreamAction {
    let t = next_state(s, e);
    if t == LogStreamState::Terminated {
        LogStreamAction::Finish
    } else if t == s {
        LogStreamAction::KeepWaiting
    } else if t == LogStreamState::WaitingOnServer {
        LogStreamAction::StartPoll
    } else {
        LogStreamAction::StartTimer
    }
}

/// The state after a sequence of events.
pub open spec fn run_state(s: LogStreamState, events: Seq<LogStreamEvent>) -> LogStreamState
    decreases events.len(),
{
    if events.len() == 0 {
        s
    } else {
        next_state(run_state(s, events.drop_last()), events.last())
    }
}

/// The items that the `i`-th event of a sequence hands out.
pub open spec fn items_at(s: LogStreamState, events: Seq<LogStreamEvent>, i: int, report_empty_polls: bool) -> Seq<LogPollResult> {
    step_items(run_state(s, events.take(i)), events[i], report_empty_polls)
}

/// The loop over a session.
#[derive(Debug)]
pub struct LogStream {
    pub state: LogStreamState,
    /// Whether an empty poll hands out `NoNewLogs` or nothing.
    pub report_empty_polls: bool,
}

impl LogStream {
    /// A loop that starts by waiting one poll period.
    pub fn new(report_empty_polls: bool) -> (r: LogStream)
        ensures
            r.state == LogStreamState::WaitingOnTimer,
            r.report_empty_polls == report_empty_polls,
    {
        LogStream { state: LogStreamState::WaitingOnTimer, report_empty_polls }
    }

    /// Whether the loop is over.
    pub fn is_terminated(&self) -> (r: bool)
        ensures
            r == (self.state == LogStreamState::Terminated),
    {
        match self.state {
            LogStreamState::Terminated => true,
            _ => false,
        }
    }

    /// Takes one event: moves the state, and returns the items to hand out and
    /// what to do next.
    pub fn step(&mut self, event: LogStreamEvent) -> (r: (Vec<LogPollResult>, LogStreamAction))
        ensures
            final(self).state == next_state(old(self).state, event),
            final(self).report_empty_polls == old(self).report_empty_polls,
            r.0@ == step_items(old(self).state, event, old(self).report_empty_polls),
            r.1 == action_after(old(self).state, event),
    {
        let s = self.state;
        let ghost e = event;
        let mut items: Vec<LogPollResult> = Vec::new();
        let next = match s {
            LogStreamState::Terminated => LogStreamState::Terminated,
            _ => match event {
                LogStreamEvent::CancelRequested => LogStreamState::Terminated,
                LogStreamEvent::TimerFired { registered } => {
                    if !registered {
                        LogStreamState::Terminated
                    } else if s == LogStreamState::WaitingOnTimer {
                        LogStreamState::WaitingOnServer
                    } else {
                        s
                    }
                },
                LogStreamEvent::PollCompleted(result) => {
                    if s == LogStreamState::WaitingOnServer {
                        match result {
                            Ok(Some(logs)) => {
                                let ghost all = logs@;
                                assert(all.len() == logs.len());
                                let mut rest = logs;
                                let mut k: usize = 0;
                                while rest.len() > 0
                                    invariant
                                        k + rest@.len() == all.len(),
                                        all.len() <= usize::MAX,
                                        rest@ == all.skip(k as int),
                                        items@ == all.take(k as int).map_values(
                                            |l: LogEntry| LogPollResult::ReceivedNewLog(l),
                                        ),
                                    decreases rest.len(),
                                {
                                    let l = rest.remove(0);
                                    assert(all.skip(k + 1) =~= all.skip(k as int).drop_first());
                                    items.push(LogPollResult::ReceivedNewLog(l));
                                    assert(all.take(k + 1) =~= all.take(k as int).push(l));
                                    k = k + 1;
                                    assert(items@ =~= all.take(k as int).map_values(
                                        |l: LogEntry| LogPollResult::ReceivedNewLog(l),
                                    ));
                                }
                                assert(all.take(k as int) =~= all);
                            },
                            Ok(None) => {
                                if self.report_empty_polls {
                                    items.push(LogPollResult::NoNewLogs);
                                }
                            },
                            Err(err) => {
                                items.push(LogPollResult::Error(err));
                            },
                        }
                        LogStreamState::WaitingOnTimer
                    } else {
                        s
                    }
                },
            },
        };
        let action = if next == LogStreamState::Terminated {
            LogStreamAction::Finish
        } else if next == s {
            LogStreamAction::KeepWaiting
        } else if next == LogStreamState::WaitingOnServer {
            LogStreamAction::StartPoll
        } else {
            LogStreamAction::StartTimer
        };
        self.state = next;
        assert(items@ =~= step_items(s, e, self.report_empty_polls));
        (items, action)
    }
}

/// Once the loop sees the session unregistered it is over: from that event
/// on, no event hands out anything and the state stays `Terminated`. An
/// in-flight poll that finishes before that event is the only one that can
/// still hand out items after the session was deregistered.
pub proof fn lemma_stream_ends_once_unregistered(
    start: LogStreamState,
    events: Seq<LogStreamEvent>,
    k: int,
    report_empty_polls: bool,
)
    requires
        0 <= k < events.len(),
        events[k] matches LogStreamEvent::TimerFired { registered } && !registered,
    ensures
        forall|i: int|
            k < i <= events.len() ==> #[trigger] run_state(start, events.take(i))
                == LogStreamState::Terminated,
        forall|i: int|
            k <= i < events.len() ==> (#[trigger] items_at(start, events, i, report_empty_polls)).len()
                == 0,
{
    assert forall|i: int| k < i <= events.len() implies #[trigger] run_state(start, events.take(i))
        == LogStreamState::Terminated by {
        lemma_terminated_from(start, events, k, i);
    }
    assert forall|i: int| k <= i < events.len() implies (#[trigger] items_at(
        start,
        events,
        i,
        report_empty_polls,
    )).len() == 0 by {
        if i > k {
            lemma_terminated_from(start, events, k, i);
        }
    }
}

proof fn lemma_terminated_from(start: LogStreamState, events: Seq<LogStreamEvent>, k: int, i: int)
    requires
        0 <= k < i <= events.len(),
        events[k] matches LogStreamEvent::TimerFired { registered } && !registered,
    ensures
        run_state(start, events.take(i)) == LogStreamState::Terminated,
    decreases i - k,
{
    assert(events.take(i).drop_last() =~= events.take(i - 1));
    assert(events.take(i).last() == events[i - 1]);
    if i > k + 1 {
        lemma_terminated_from(start, events, k, i - 1);
    }
}

} // verus!
