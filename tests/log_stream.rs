use interactsh_rs::interaction_log::{LogEntry, RawLog};
use interactsh_rs::log_stream::{LogPollResult, LogStream, LogStreamAction, LogStreamEvent, LogStreamState};
use interactsh_rs::server_comm::PollError;

fn raw(s: &str) -> LogEntry {
    LogEntry::RawLog(RawLog { log_entry: s.to_string() })
}

/// A session double that stays registered for `polls_before_flip` polls and
/// then reports itself unregistered.
struct FlippingSession {
    polls_done: usize,
    polls_before_flip: usize,
}

impl FlippingSession {
    fn registered(&self) -> bool {
        self.polls_done < self.polls_before_flip
    }

    fn poll(&mut self) -> Result<Option<Vec<LogEntry>>, PollError> {
        self.polls_done += 1;
        Ok(Some(vec![raw(&format!("log {}", self.polls_done))]))
    }
}

#[test]
fn stream_ends_once_the_session_is_unregistered() {
    for flip in 0..4 {
        let mut session = FlippingSession { polls_done: 0, polls_before_flip: flip };
        let mut stream = LogStream::new(false);
        let mut yielded = Vec::new();
        let mut action = LogStreamAction::StartTimer;
        let mut steps = 0;
        while action != LogStreamAction::Finish {
            steps += 1;
            assert!(steps < 100);
            let event = match action {
                LogStreamAction::StartTimer | LogStreamAction::KeepWaiting => {
                    LogStreamEvent::TimerFired { registered: session.registered() }
                }
                LogStreamAction::StartPoll => LogStreamEvent::PollCompleted(session.poll()),
                LogStreamAction::Finish => unreachable!(),
            };
            let (items, next) = stream.step(event);
            yielded.extend(items);
            action = next;
        }
        assert_eq!(session.polls_done, flip);
        assert_eq!(yielded.len(), flip);
        assert!(stream.is_terminated());
        let (items, next) = stream.step(LogStreamEvent::PollCompleted(Ok(Some(vec![raw("late")]))));
        assert!(items.is_empty());
        assert_eq!(next, LogStreamAction::Finish);
        let (items, _) = stream.step(LogStreamEvent::TimerFired { registered: true });
        assert!(items.is_empty());
        assert_eq!(stream.state, LogStreamState::Terminated);
    }
}

#[test]
fn stream_hands_out_entries_errors_and_empty_polls() {
    let mut stream = LogStream::new(true);
    assert_eq!(stream.step(LogStreamEvent::TimerFired { registered: true }).1, LogStreamAction::StartPoll);
    let (items, next) = stream.step(LogStreamEvent::PollCompleted(Ok(Some(vec![raw("a"), raw("b")]))));
    assert_eq!(next, LogStreamAction::StartTimer);
    assert_eq!(items.len(), 2);
    assert!(matches!(&items[0], LogPollResult::ReceivedNewLog(e) if *e == raw("a")));
    assert!(matches!(&items[1], LogPollResult::ReceivedNewLog(e) if *e == raw("b")));
    stream.step(LogStreamEvent::TimerFired { registered: true });
    let (items, _) = stream.step(LogStreamEvent::PollCompleted(Ok(None)));
    assert!(matches!(items.as_slice(), [LogPollResult::NoNewLogs]));
    stream.step(LogStreamEvent::TimerFired { registered: true });
    let (items, next) = stream.step(LogStreamEvent::PollCompleted(Err(PollError::PollFailure)));
    assert!(matches!(items.as_slice(), [LogPollResult::Error(PollError::PollFailure)]));
    assert_eq!(next, LogStreamAction::StartTimer);
    let (items, next) = stream.step(LogStreamEvent::PollCompleted(Ok(None)));
    assert!(items.is_empty());
    assert_eq!(next, LogStreamAction::KeepWaiting);

    let mut quiet = LogStream::new(false);
    quiet.step(LogStreamEvent::TimerFired { registered: true });
    assert!(quiet.step(LogStreamEvent::PollCompleted(Ok(None))).0.is_empty());
}

#[test]
fn cancellation_ends_the_stream() {
    let mut stream = LogStream::new(false);
    stream.step(LogStreamEvent::TimerFired { registered: true });
    let (items, next) = stream.step(LogStreamEvent::CancelRequested);
    assert!(items.is_empty());
    assert_eq!(next, LogStreamAction::Finish);
    let (items, _) = stream.step(LogStreamEvent::PollCompleted(Ok(Some(vec![raw("x")]))));
    assert!(items.is_empty());
}
