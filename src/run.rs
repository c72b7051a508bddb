use vstd::prelude::*;

use crate::error::{ContentProblem, SessionError};
use crate::ids::{AsstId, FileId, RunId, ThreadId};

verus! {

/// Pause between two reads of a run that is still going, in milliseconds.
pub const POLLING_DURATION: u64 = 500;

/// How many of the newest messages are fetched once a run completes.
pub const REPLY_FETCH_LIMIT: u64 = 1;

/// The state of a run, as the service reports it on each read.
#[derive(Debug, Clone, Copy, PartialEq, Eq, Structural)]
pub enum RunStatus {
    Queued,
    InProgress,
    RequiresAction,
    Cancelling,
    Cancelled,
    Failed,
    Completed,
    Expired,
}

/// Whether a run in this state is still going.
pub open spec fn is_pending(s: RunStatus) -> bool {
    s == RunStatus::Queued || s == RunStatus::InProgress
}

/// One part of a message.
#[derive(Debug, Clone, PartialEq, Eq)]
pub enum MessageContent {
    Text(String),
    ImageFile(FileId),
}

/// A message of a thread, with its parts in order.
#[derive(Debug, Clone, PartialEq, Eq)]
pub struct ThreadMessage {
    pub content: Vec<MessageContent>,
}

/// A message that the user adds to a thread.
#[derive(Debug, Clone, PartialEq, Eq)]
pub struct UserMessage {
    pub role: String,
    pub content: String,
}

/// The text a message stands for: its first part, when that is text.
pub open spec fn text_of(parts: Seq<MessageContent>) -> Result<Seq<char>, ContentProblem> {
    if parts.len() == 0 {
        Err(ContentProblem::NoContent)
    } else {
        match parts[0] {
            MessageContent::Text(t) => Ok(t@),
            MessageContent::ImageFile(_) => Err(ContentProblem::ImageUnsupported),
        }
    }
}

/// The reply a list of messages, newest first, stands for.
pub open spec fn reply_of(messages: Seq<ThreadMessage>) -> Result<Seq<char>, ContentProblem> {
    if messages.len() == 0 {
        Err(ContentProblem::NoMessage)
    } else {
        text_of(messages[0].content@)
    }
}

/// Whether `r` is the outcome `spec` describes, with a content problem
/// reported as a content error.
pub open spec fn matches_reply(r: Result<String, SessionError>, spec: Result<Seq<char>, ContentProblem>) -> bool {
    match spec {
        Ok(t) => r matches Ok(s) && s@ == t,
        Err(p) => r == Err::<String, SessionError>(SessionError::Content(p)),
    }
}

/// A message from the user holding `content`.
pub fn user_msg(content: String) -> (r: UserMessage)
    ensures
        r.role@ == "user"@,
        r.content == content,
{
    UserMessage { role: "user".to_owned(), content }
}

/// The text of a message: its first part, which must be text.
pub fn get_text_content(msg: &ThreadMessage) -> (r: Result<String, SessionError>)
    ensures
        matches_reply(r, text_of(msg.content@)),
{
    if msg.content.len() == 0 {
        Err(SessionError::Content(ContentProblem::NoContent))
    } else {
        match &msg.content[0] {
            MessageContent::Text(t) => Ok(t.clone()),
            MessageContent::ImageFile(_) => Err(SessionError::Content(ContentProblem::ImageUnsupported)),
        }
    }
}

/// The text of the newest message of a listing, newest first.
pub fn get_first_thread_msg_content(messages: &Vec<ThreadMessage>) -> (r: Result<String, SessionError>)
    ensures
        matches_reply(r, reply_of(messages@)),
{
    if messages.len() == 0 {
        Err(SessionError::Content(ContentProblem::NoMessage))
    } else {
        get_text_content(&messages[0])
    }
}

/// Where a dispatch stands.
#[derive(Debug, Clone, Copy, PartialEq, Eq, Structural)]
pub enum DispatchPhase {
    Appending,
    StartingRun,
    Polling,
    Fetching,
    Finished,
}

/// What the caller is to do next for a dispatch.
#[derive(Debug, PartialEq, Eq)]
pub enum DispatchAction {
    /// Add this message to the thread, then report with `on_appended`.
    AppendMessage(ThreadId, UserMessage),
    /// Start a run of the assistant over the thread, then report its id with
    /// `on_run_created`.
    CreateRun(ThreadId, AsstId),
    /// Read the run at once, then report its state with `on_polled`.
    PollRun(ThreadId, RunId),
    /// Wait this many milliseconds, read the run, then report its state with
    /// `on_polled`.
    WaitThenPoll(ThreadId, RunId, u64),
    /// Fetch the newest messages of the thread, up to `REPLY_FETCH_LIMIT`,
    /// newest first, then report them with `on_messages`.
    ListMessages(ThreadId),
    /// The dispatch is over, with the reply or the reason it failed.
    Done(Result<String, SessionError>),
}

/// Sends one message to a thread and follows the run it starts until the
/// run ends, then yields the reply. At most `max_polls` reads of the run are
/// made; a run still going after them ends the dispatch with a timeout (the
/// run itself is left running on the service).
#[derive(Debug, Clone, PartialEq, Eq)]
pub struct Dispatch {
    pub thread_id: ThreadId,
    pub asst_id: AsstId,
    pub max_polls: u64,
    pub polls: u64,
    pub run_id: Option<RunId>,
    pub phase: DispatchPhase,
}

impl Dispatch {
    /// Once started, a run is followed until the dispatch is over.
    pub open spec fn wf(&self) -> bool {
        (self.phase == DispatchPhase::Polling || self.phase == DispatchPhase::Fetching)
            ==> self.run_id is Some
    }

    /// Starts a dispatch of `text`: the first step appends it as a user
    /// message.
    pub fn new(thread_id: ThreadId, asst_id: AsstId, text: String, max_polls: u64) -> (r: (
        Dispatch,
        DispatchAction,
    ))
        ensures
            r.0.wf(),
            r.0.thread_id == thread_id,
            r.0.asst_id == asst_id,
            r.0.max_polls == max_polls,
            r.0.polls == 0,
            r.0.run_id is None,
            r.0.phase == DispatchPhase::Appending,
            r.1 matches DispatchAction::AppendMessage(t, m) && t == thread_id && m.role@ == "user"@
                && m.content == text,
    {
        let t = thread_id.duplicate();
        (
            Dispatch {
                thread_id,
                asst_id,
                max_polls,
                polls: 0,
                run_id: None,
                phase: DispatchPhase::Appending,
            },
            DispatchAction::AppendMessage(t, user_msg(text)),
        )
    }

    /// The message is in the thread: a run is started.
    pub fn on_appended(&mut self) -> (r: DispatchAction)
        requires
            old(self).wf(),
            old(self).phase == DispatchPhase::Appending,
        ensures
            final(self).wf(),
            r == DispatchAction::CreateRun(old(self).thread_id, old(self).asst_id),
            *final(self) == (Dispatch { phase: DispatchPhase::StartingRun, ..*old(self) }),
    {
        self.phase = DispatchPhase::StartingRun;
        DispatchAction::CreateRun(self.thread_id.duplicate(), self.asst_id.duplicate())
    }

    /// The run is started: it is read at once.
    pub fn on_run_created(&mut self, run_id: RunId) -> (r: DispatchAction)
        requires
            old(self).wf(),
            old(self).phase == DispatchPhase::StartingRun,
        ensures
            final(self).wf(),
            r == DispatchAction::PollRun(old(self).thread_id, run_id),
            *final(self) == (Dispatch {
                phase: DispatchPhase::Polling,
                run_id: Some(run_id),
                ..*old(self)
            }),
    {
        let r = run_id.duplicate();
        self.phase = DispatchPhase::Polling;
        self.run_id = Some(run_id);
        DispatchAction::PollRun(self.thread_id.duplicate(), r)
    }

    /// A read of the run: a completed run leads to fetching the reply, a run
    /// still going to another read after a pause while reads are left, and
    /// any other state ends the dispatch with that state.
    pub fn on_polled(&mut self, status: RunStatus) -> (r: DispatchAction)
        requires
            old(self).wf(),
            old(self).phase == DispatchPhase::Polling,
        ensures
            final(self).wf(),
            final(self).thread_id == old(self).thread_id,
            final(self).asst_id == old(self).asst_id,
            final(self).max_polls == old(self).max_polls,
            final(self).run_id == old(self).run_id,
            final(self).polls == if old(self).polls < u64::MAX {
                old(self).polls + 1
            } else {
                old(self).polls as int
            },
            status == RunStatus::Completed ==> r == DispatchAction::ListMessages(old(self).thread_id)
                && final(self).phase == DispatchPhase::Fetching,
            is_pending(status) && final(self).polls < old(self).max_polls ==> r
                == DispatchAction::WaitThenPoll(
                old(self).thread_id,
                old(self).run_id->Some_0,
                POLLING_DURATION,
            ) && final(self).phase == DispatchPhase::Polling,
            is_pending(status) && final(self).polls >= old(self).max_polls ==> r
                == DispatchAction::Done(Err(SessionError::Timeout)) && final(self).phase
                == DispatchPhase::Finished,
            !is_pending(status) && status != RunStatus::Completed ==> r == DispatchAction::Done(
                Err(SessionError::RunFailed(status)),
            ) && final(self).phase == DispatchPhase::Finished,
    {
        if self.polls < u64::MAX {
            self.polls = self.polls + 1;
        }
        match status {
            RunStatus::Completed => {
                self.phase = DispatchPhase::Fetching;
                DispatchAction::ListMessages(self.thread_id.duplicate())
            },
            RunStatus::Queued | RunStatus::InProgress => {
                if self.polls < self.max_polls {
                    let run = self.run_id.as_ref().unwrap().duplicate();
                    DispatchAction::WaitThenPoll(self.thread_id.duplicate(), run, POLLING_DURATION)
                } else {
                    self.phase = DispatchPhase::Finished;
                    DispatchAction::Done(Err(SessionError::Timeout))
                }
            },
            _ => {
                self.phase = DispatchPhase::Finished;
                DispatchAction::Done(Err(SessionError::RunFailed(status)))
            },
        }
    }

    /// The newest messages of the thread: the reply is the text of the newest.
    pub fn on_messages(&mut self, messages: &Vec<ThreadMessage>) -> (r: DispatchAction)
        requires
            old(self).wf(),
            old(self).phase == DispatchPhase::Fetching,
        ensures
            final(self).wf(),
            r matches DispatchAction::Done(res) && matches_reply(res, reply_of(messages@)),
            *final(self) == (Dispatch { phase: DispatchPhase::Finished, ..*old(self) }),
    {
        self.phase = DispatchPhase::Finished;
        DispatchAction::Done(get_first_thread_msg_content(messages))
    }
}

/// A completed run whose thread holds only a message made of an image gives
/// a content error, never a text, empty or not.
pub proof fn lemma_image_only_rejected(messages: Seq<ThreadMessage>, image: FileId)
    requires
        messages.len() == 1,
        messages[0].content@ == seq![MessageContent::ImageFile(image)],
    ensures
        reply_of(messages) == Err::<Seq<char>, ContentProblem>(ContentProblem::ImageUnsupported),
        forall|r: Result<String, SessionError>|
            matches_reply(r, reply_of(messages)) ==> r == Err::<String, SessionError>(
                SessionError::Content(ContentProblem::ImageUnsupported),
            ),
{
}

} // verus!
