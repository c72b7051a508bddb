use jawn::{
    get_first_thread_msg_content, get_text_content, user_msg, AsstId, ContentProblem, Dispatch,
    DispatchAction, FileId, MessageContent, RunId, RunStatus, SessionError, ThreadId,
    ThreadMessage, POLLING_DURATION,
};

fn tid(s: &str) -> ThreadId {
    ThreadId(s.to_string())
}

fn text_msg(s: &str) -> ThreadMessage {
    ThreadMessage { content: vec![MessageContent::Text(s.to_string())] }
}

fn started(max_polls: u64) -> Dispatch {
    let (mut d, _) = Dispatch::new(tid("T1"), AsstId("A1".to_string()), "hello".to_string(), max_polls);
    let _ = d.on_appended();
    let _ = d.on_run_created(RunId("R1".to_string()));
    d
}

#[test]
fn dispatch_counts_calls_until_completed() {
    let polls_seen = [RunStatus::Queued, RunStatus::InProgress, RunStatus::Completed];
    let (mut appends, mut run_creates, mut run_reads, mut lists) = (0, 0, 0, 0);
    let (mut d, mut action) =
        Dispatch::new(tid("T1"), AsstId("A1".to_string()), "hello".to_string(), 100);
    let mut next_status = 0;
    let reply = loop {
        action = match action {
            DispatchAction::AppendMessage(t, m) => {
                assert_eq!(t, tid("T1"));
                assert_eq!(m.role, "user");
                assert_eq!(m.content, "hello");
                appends += 1;
                d.on_appended()
            }
            DispatchAction::CreateRun(t, a) => {
                assert_eq!((t, a), (tid("T1"), AsstId("A1".to_string())));
                run_creates += 1;
                d.on_run_created(RunId("R1".to_string()))
            }
            DispatchAction::PollRun(_, r) | DispatchAction::WaitThenPoll(_, r, _) => {
                assert_eq!(r, RunId("R1".to_string()));
                run_reads += 1;
                let s = polls_seen[next_status];
                next_status += 1;
                d.on_polled(s)
            }
            DispatchAction::ListMessages(t) => {
                assert_eq!(t, tid("T1"));
                lists += 1;
                d.on_messages(&vec![text_msg("hi there"), text_msg("older")])
            }
            DispatchAction::Done(r) => break r,
        };
    };
    assert_eq!(reply, Ok("hi there".to_string()));
    assert_eq!((appends, run_creates, run_reads, lists), (1, 1, 3, 1));
}

#[test]
fn pending_run_waits_between_reads() {
    let mut d = started(10);
    assert_eq!(
        d.on_polled(RunStatus::Queued),
        DispatchAction::WaitThenPoll(tid("T1"), RunId("R1".to_string()), POLLING_DURATION)
    );
    assert_eq!(POLLING_DURATION, 500);
    assert_eq!(d.polls, 1);
}

#[test]
fn failed_states_are_reported_without_fetching() {
    for s in [
        RunStatus::Failed,
        RunStatus::Cancelled,
        RunStatus::Cancelling,
        RunStatus::Expired,
        RunStatus::RequiresAction,
    ] {
        let mut d = started(10);
        assert_eq!(d.on_polled(s), DispatchAction::Done(Err(SessionError::RunFailed(s))));
    }
}

#[test]
fn run_still_going_after_last_read_times_out() {
    let mut d = started(2);
    assert!(matches!(d.on_polled(RunStatus::InProgress), DispatchAction::WaitThenPoll(..)));
    assert_eq!(d.on_polled(RunStatus::Queued), DispatchAction::Done(Err(SessionError::Timeout)));
}

#[test]
fn image_only_reply_is_a_content_error() {
    let mut d = started(10);
    assert_eq!(d.on_polled(RunStatus::Completed), DispatchAction::ListMessages(tid("T1")));
    let msgs = vec![ThreadMessage { content: vec![MessageContent::ImageFile(FileId("F1".to_string()))] }];
    assert_eq!(
        d.on_messages(&msgs),
        DispatchAction::Done(Err(SessionError::Content(ContentProblem::ImageUnsupported)))
    );
}

#[test]
fn content_extraction_cases() {
    assert_eq!(get_text_content(&text_msg("abc")), Ok("abc".to_string()));
    assert_eq!(
        get_text_content(&ThreadMessage { content: vec![] }),
        Err(SessionError::Content(ContentProblem::NoContent))
    );
    assert_eq!(
        get_first_thread_msg_content(&vec![]),
        Err(SessionError::Content(ContentProblem::NoMessage))
    );
    let m = user_msg("yo".to_string());
    assert_eq!((m.role.as_str(), m.content.as_str()), ("user", "yo"));
}
