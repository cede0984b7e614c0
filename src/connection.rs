use vstd::prelude::*;
use crate::chat::Inbound;
use crate::domain::UserId;
use crate::message::{ClientToServer, ServerToClient};

verus! {

/// What a connection's reader task sees next on its transport.
#[derive(Debug)]
pub enum ReaderEvent {
    /// A text frame, decoded; `None` where it was not a well-formed frame.
    Frame(Option<ClientToServer>),
    /// End of stream, or a transport error.
    Closed,
}

/// What the reader task does with it.
#[derive(Debug)]
pub enum ReaderAction {
    /// Hand the message to the dispatcher and read on.
    Forward(Inbound),
    /// Drop the frame and read on.
    Skip,
    /// End the task.
    Stop,
}

/// The reader's decision for connection of `user`: a `send` frame goes to the
/// dispatcher under `user`; a frame that is inert or could not be decoded is
/// dropped without ending the connection; a closed transport ends the task.
pub fn reader_step(user: UserId, event: ReaderEvent) -> (r: ReaderAction)
    ensures
        event is Closed ==> r is Stop,
        event matches ReaderEvent::Frame(Some(ClientToServer::Send(m))) ==> r == ReaderAction::Forward(
            Inbound { sender: user, content: m.content },
        ),
        event matches ReaderEvent::Frame(Some(ClientToServer::HistoryFetched)) ==> r is Skip,
        event matches ReaderEvent::Frame(None) ==> r is Skip,
{
    match event {
        ReaderEvent::Frame(Some(ClientToServer::Send(m))) => ReaderAction::Forward(
            Inbound { sender: user, content: m.content },
        ),
        ReaderEvent::Frame(Some(ClientToServer::HistoryFetched)) => ReaderAction::Skip,
        ReaderEvent::Frame(None) => ReaderAction::Skip,
        ReaderEvent::Closed => ReaderAction::Stop,
    }
}

/// What a connection's writer task sees next.
#[derive(Debug)]
pub enum WriterEvent {
    /// A frame taken from the mailbox.
    Outgoing(ServerToClient),
    /// The last frame was written to the transport.
    Written,
    /// Writing the last frame failed.
    WriteFailed,
    /// The mailbox's sending side is gone.
    MailboxClosed,
}

/// What the writer task does next.
#[derive(Debug)]
pub enum WriterAction {
    /// Write this frame to the transport.
    Write(ServerToClient),
    /// Wait for the next frame of the mailbox.
    Wait,
    /// End the task; a failed write is not retried.
    Stop,
}

/// The writer's decision: frames are written in mailbox order; a closed mailbox
/// or a failed write ends the task.
pub fn writer_step(event: WriterEvent) -> (r: WriterAction)
    ensures
        event matches WriterEvent::Outgoing(f) ==> r == WriterAction::Write(f),
        event is Written ==> r is Wait,
        event is WriteFailed ==> r is Stop,
        event is MailboxClosed ==> r is Stop,
{
    match event {
        WriterEvent::Outgoing(f) => WriterAction::Write(f),
        WriterEvent::Written => WriterAction::Wait,
        WriterEvent::WriteFailed => WriterAction::Stop,
        WriterEvent::MailboxClosed => WriterAction::Stop,
    }
}

/// One of the two tasks that serve a connection.
#[derive(Clone, Copy, Debug, PartialEq, Eq, Structural)]
pub enum ConnTask {
    Reader,
    Writer,
}

/// Which of a connection's tasks still run.
pub struct SupervisorView {
    pub reader_running: bool,
    pub writer_running: bool,
}

/// The view after `task` has ended.
pub open spec fn after_end(s: SupervisorView, task: ConnTask) -> SupervisorView {
    SupervisorView {
        reader_running: s.reader_running && task != ConnTask::Reader,
        writer_running: s.writer_running && task != ConnTask::Writer,
    }
}

/// Whether the end of `task` is the one after which no task runs.
pub open spec fn releases_on(s: SupervisorView, task: ConnTask) -> bool {
    (s.reader_running || s.writer_running) && !after_end(s, task).reader_running && !after_end(
        s,
        task,
    ).writer_running
}

/// Where the supervisor of a fresh connection stands after the tasks in
/// `ended` have ended, one after another.
pub open spec fn supervised(ended: Seq<ConnTask>) -> SupervisorView
    decreases ended.len(),
{
    if ended.len() == 0 {
        SupervisorView { reader_running: true, writer_running: true }
    } else {
        after_end(supervised(ended.drop_last()), ended.last())
    }
}

/// How many times the supervisor of a fresh connection says to release it
/// while the tasks in `ended` end, one after another.
pub open spec fn release_count(ended: Seq<ConnTask>) -> nat
    decreases ended.len(),
{
    if ended.len() == 0 {
        0
    } else {
        release_count(ended.drop_last()) + if releases_on(
            supervised(ended.drop_last()),
            ended.last(),
        ) {
            1nat
        } else {
            0nat
        }
    }
}

proof fn lemma_supervised_running(ended: Seq<ConnTask>)
    ensures
        supervised(ended).reader_running == !ended.contains(ConnTask::Reader),
        supervised(ended).writer_running == !ended.contains(ConnTask::Writer),
    decreases ended.len(),
{
    if ended.len() > 0 {
        let prefix = ended.drop_last();
        lemma_supervised_running(prefix);
        lemma_contains_after_push(prefix, ended.last(), ConnTask::Reader);
        lemma_contains_after_push(prefix, ended.last(), ConnTask::Writer);
        assert(prefix.push(ended.last()) =~= ended);
    }
}

proof fn lemma_contains_after_push(s: Seq<ConnTask>, last: ConnTask, t: ConnTask)
    ensures
        s.push(last).contains(t) == (s.contains(t) || last == t),
{
    let p = s.push(last);
    if s.contains(t) {
        let i = choose|i: int| 0 <= i < s.len() && s[i] == t;
        assert(p[i] == t);
    }
    if last == t {
        assert(p[s.len() as int] == t);
    }
    if p.contains(t) {
        let i = choose|i: int| 0 <= i < p.len() && p[i] == t;
        if i < s.len() {
            assert(s[i] == t);
        }
    }
}

/// However a connection's tasks end, and in whatever order, its supervisor
/// says to release it once if both the reader and the writer have ended, and
/// not at all before that.
pub proof fn lemma_released_exactly_once(ended: Seq<ConnTask>)
    ensures
        release_count(ended) == (if ended.contains(ConnTask::Reader) && ended.contains(
            ConnTask::Writer,
        ) {
            1nat
        } else {
            0nat
        }),
    decreases ended.len(),
{
    if ended.len() > 0 {
        let prefix = ended.drop_last();
        lemma_released_exactly_once(prefix);
        lemma_supervised_running(prefix);
        lemma_contains_after_push(prefix, ended.last(), ConnTask::Reader);
        lemma_contains_after_push(prefix, ended.last(), ConnTask::Writer);
        assert(prefix.push(ended.last()) =~= ended);
    }
}

/// Watches a connection's reader and writer, and says when the connection is
/// to be taken out of the registry: once, after both have ended.
#[derive(Debug)]
pub struct Supervisor {
    reader_running: bool,
    writer_running: bool,
}

impl Supervisor {
    pub closed spec fn view(&self) -> SupervisorView {
        SupervisorView { reader_running: self.reader_running, writer_running: self.writer_running }
    }

    pub fn new() -> (r: Supervisor)
        ensures
            r@ == (SupervisorView { reader_running: true, writer_running: true }),
    {
        Supervisor { reader_running: true, writer_running: true }
    }

    /// Records that `task` has ended; `true` exactly when the connection is now
    /// to be released.
    pub fn task_ended(&mut self, task: ConnTask) -> (release: bool)
        ensures
            final(self)@ == after_end(old(self)@, task),
            release == releases_on(old(self)@, task),
    {
        let was_running = self.reader_running || self.writer_running;
        match task {
            ConnTask::Reader => {
                self.reader_running = false;
            },
            ConnTask::Writer => {
                self.writer_running = false;
            },
        }
        was_running && !self.reader_running && !self.writer_running
    }

    /// Whether both tasks have ended.
    pub fn finished(&self) -> (r: bool)
        ensures
            r == (!self@.reader_running && !self@.writer_running),
    {
        !self.reader_running && !self.writer_running
    }
}

} // verus!
