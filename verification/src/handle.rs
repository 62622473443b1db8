//! The consumer's end of a connection: two queues, and the promise that
//! the end of the connection is always told, and told once.

use crate::messages::{CommandView, ResponseView, WorkerCommand, WorkerResponse};
use std::sync::mpsc::{Receiver, Sender, TryRecvError};
use vstd::prelude::*;

verus! {

/// `std::sync::mpsc::Sender`: the sending end of a queue. It is carried
/// through as it is; nothing is known of what the queue holds.
#[verifier::external_type_specification]
#[verifier::external_body]
#[verifier::reject_recursive_types(T)]
pub struct ExSender<T>(Sender<T>);

/// `std::sync::mpsc::Receiver`: the receiving end of a queue. It is carried
/// through as it is; nothing is known of what the queue holds.
#[verifier::external_type_specification]
#[verifier::external_body]
#[verifier::reject_recursive_types(T)]
pub struct ExReceiver<T>(Receiver<T>);

/// What one look into the response queue finds.
#[derive(Debug)]
pub enum Poll {
    /// A response was waiting.
    Message(WorkerResponse),
    /// Nothing is waiting, and the worker may still send.
    Empty,
    /// Nothing is waiting, and the worker has gone.
    Closed,
}

/// Model of a [`Poll`].
pub enum PollView {
    Message(ResponseView),
    Empty,
    Closed,
}

impl View for Poll {
    type V = PollView;

    open spec fn view(&self) -> PollView {
        match *self {
            Poll::Message(response) => PollView::Message(response@),
            Poll::Empty => PollView::Empty,
            Poll::Closed => PollView::Closed,
        }
    }
}

/// `Sender::send`: puts the command into the queue without waiting. When
/// the receiving end is gone the command is dropped; the call does not
/// panic in either case. Nothing is stated of the queue.
#[verifier::external_body]
fn enqueue(commands: &Sender<WorkerCommand>, command: WorkerCommand)
    opens_invariants none
    no_unwind
{
    let _ = commands.send(command);
}

/// `Receiver::try_recv`: takes the next response if one is waiting, without
/// blocking. Which of the three cases comes depends on what the other end
/// has done so far, so nothing is stated of the result.
#[verifier::external_body]
fn look(responses: &Receiver<WorkerResponse>) -> (res: Poll) {
    match responses.try_recv() {
        Ok(response) => Poll::Message(response),
        Err(TryRecvError::Empty) => Poll::Empty,
        Err(TryRecvError::Disconnected) => Poll::Closed,
    }
}

/// What the consumer is handed for one look into the queue, and whether
/// the end of the connection has been told after it. A response that was
/// waiting is handed on. A closed queue is told as `Disconnected`, unless
/// the end has been told before.
pub open spec fn deliver_spec(ended: bool, poll: PollView) -> (bool, Option<ResponseView>) {
    match poll {
        PollView::Message(response) => (ended || response.is_terminal(), Some(response)),
        PollView::Empty => (ended, None),
        PollView::Closed => if ended {
            (true, None)
        } else {
            (true, Some(ResponseView::Disconnected))
        },
    }
}

/// The view of an optional response.
pub open spec fn response_view(response: Option<WorkerResponse>) -> Option<ResponseView> {
    match response {
        Some(r) => Some(r@),
        None => None,
    }
}

/// Decides what the consumer is handed for one look into the queue;
/// `ended` says whether the end of the connection has been told.
pub fn deliver(ended: &mut bool, poll: Poll) -> (res: Option<WorkerResponse>)
    ensures
        (*final(ended), response_view(res)) == deliver_spec(*old(ended), poll@),
{
    match poll {
        Poll::Message(response) => {
            if response.is_terminal() {
                *ended = true;
            }
            Some(response)
        },
        Poll::Empty => None,
        Poll::Closed => {
            if *ended {
                None
            } else {
                *ended = true;
                Some(WorkerResponse::Disconnected)
            }
        },
    }
}

/// What the consumer is handed over a run of looks, and whether the end
/// has been told after them.
pub open spec fn observed(ended: bool, polls: Seq<PollView>) -> (bool, Seq<ResponseView>)
    decreases polls.len(),
{
    if polls.len() == 0 {
        (ended, Seq::empty())
    } else {
        let (before, handed) = observed(ended, polls.drop_last());
        let (after, response) = deliver_spec(before, polls.last());
        (
            after,
            match response {
                Some(r) => handed.push(r),
                None => handed,
            },
        )
    }
}

/// The responses that were waiting in a run of looks.
pub open spec fn waiting(polls: Seq<PollView>) -> Seq<ResponseView>
    decreases polls.len(),
{
    if polls.len() == 0 {
        Seq::empty()
    } else {
        match polls.last() {
            PollView::Message(response) => waiting(polls.drop_last()).push(response),
            _ => waiting(polls.drop_last()),
        }
    }
}

/// The end is never missed: when a look finds the queue closed, the
/// consumer has by then been handed a terminal response, the worker's own
/// or the `Disconnected` that stands in for it, and the end counts as told.
pub proof fn lemma_end_is_told(ended: bool, polls: Seq<PollView>, at: int)
    requires
        !ended,
        0 <= at < polls.len(),
        polls[at] is Closed,
    ensures
        observed(ended, polls).0,
        exists|i: int|
            0 <= i < observed(ended, polls).1.len() && (#[trigger] observed(
                ended,
                polls,
            ).1[i]).is_terminal(),
    decreases polls.len(),
{
    let (before, handed) = observed(ended, polls.drop_last());
    let (after, response) = deliver_spec(before, polls.last());
    let all = observed(ended, polls).1;
    if at < polls.len() - 1 {
        assert(polls.drop_last()[at] == polls[at]);
        lemma_end_is_told(ended, polls.drop_last(), at);
        let i = choose|i: int| 0 <= i < handed.len() && (#[trigger] handed[i]).is_terminal();
        assert(all[i] == handed[i]);
    } else if before {
        lemma_told_means_handed(ended, polls.drop_last());
        let i = choose|i: int| 0 <= i < handed.len() && (#[trigger] handed[i]).is_terminal();
        assert(all[i] == handed[i]);
    } else {
        assert(all[handed.len() as int] == ResponseView::Disconnected);
    }
}

/// The end counts as told only after a terminal response was handed out.
pub proof fn lemma_told_means_handed(ended: bool, polls: Seq<PollView>)
    requires
        !ended,
        observed(ended, polls).0,
    ensures
        exists|i: int|
            0 <= i < observed(ended, polls).1.len() && (#[trigger] observed(
                ended,
                polls,
            ).1[i]).is_terminal(),
    decreases polls.len(),
{
    if polls.len() > 0 {
        let (before, handed) = observed(ended, polls.drop_last());
        let all = observed(ended, polls).1;
        if before {
            lemma_told_means_handed(ended, polls.drop_last());
            let i = choose|i: int| 0 <= i < handed.len() && (#[trigger] handed[i]).is_terminal();
            assert(all[i] == handed[i]);
        } else {
            assert(all[handed.len() as int].is_terminal());
        }
    }
}

/// The end is told once: after it has been told, the consumer is handed
/// what was waiting in the queue and nothing else, however often the queue
/// is found closed.
pub proof fn lemma_end_is_told_once(polls: Seq<PollView>)
    ensures
        observed(true, polls) == (true, waiting(polls)),
    decreases polls.len(),
{
    if polls.len() > 0 {
        lemma_end_is_told_once(polls.drop_last());
    }
}

/// Model of a [`WorkerHandle`]: its two queues, whether the end of the
/// connection has been told to the consumer, and the commands that the
/// handle has put into its queue so far, in order.
pub struct HandleView {
    pub commands: Sender<WorkerCommand>,
    pub responses: Receiver<WorkerResponse>,
    pub ended: bool,
    pub handed: Seq<CommandView>,
}

/// The consumer's end of a connection. Commands go in, responses come
/// out; neither call waits for the worker. The handle keeps a record of
/// the commands that it has put into the queue.
pub struct WorkerHandle {
    commands: Sender<WorkerCommand>,
    responses: Receiver<WorkerResponse>,
    ended: bool,
    handed: Ghost<Seq<CommandView>>,
}

impl View for WorkerHandle {
    type V = HandleView;

    closed spec fn view(&self) -> HandleView {
        HandleView {
            commands: self.commands,
            responses: self.responses,
            ended: self.ended,
            handed: self.handed@,
        }
    }
}

impl WorkerHandle {
    /// Whether the end of the connection has been told to the consumer.
    pub open spec fn ended(&self) -> bool {
        self@.ended
    }

    /// The queue into which the handle puts its commands.
    pub open spec fn commands(&self) -> Sender<WorkerCommand> {
        self@.commands
    }

    /// The queue from which the handle takes its responses.
    pub open spec fn responses(&self) -> Receiver<WorkerResponse> {
        self@.responses
    }

    /// The commands that the handle has put into its queue, in order.
    pub open spec fn handed(&self) -> Seq<CommandView> {
        self@.handed
    }

    /// A handle on the two queues that lead to a worker: commands go into
    /// the first, responses are taken from the second, the end of the
    /// connection has not been told yet, and no command has been handed
    /// over.
    pub fn new(commands: Sender<WorkerCommand>, responses: Receiver<WorkerResponse>) -> (res: Self)
        ensures
            res.commands() == commands,
            res.responses() == responses,
            !res.ended(),
            res.handed() == Seq::<CommandView>::empty(),
    {
        WorkerHandle { commands, responses, ended: false, handed: Ghost(Seq::empty()) }
    }

    /// Whether the end of the connection has been told to the consumer.
    pub fn has_ended(&self) -> (res: bool)
        ensures
            res == self.ended(),
    {
        self.ended
    }

    /// Puts a command into the queue, behind those handed over before. It
    /// never waits and never fails: a command for a worker that has gone
    /// is dropped by the queue.
    pub fn send(&mut self, command: WorkerCommand)
        ensures
            final(self)@ == (HandleView {
                handed: old(self).handed().push(command@),
                ..old(self)@
            }),
            final(self).handed() == old(self).handed().push(command@),
    {
        let ghost handed = command@;
        enqueue(&self.commands, command);
        self.handed = Ghost(self.handed@.push(handed));
    }

    /// Takes at most one response, without waiting. Whatever the queue
    /// holds, the end counts as told afterwards exactly if it did before
    /// or a terminal response is handed out now; and once it is told, an
    /// empty or closed queue gives nothing. Nothing else of the handle
    /// changes.
    pub fn try_recv(&mut self) -> (res: Option<WorkerResponse>)
        ensures
            final(self)@ == (HandleView { ended: final(self).ended(), ..old(self)@ }),
            final(self).ended() == (old(self).ended() || (res is Some
                && res.unwrap()@.is_terminal())),
            exists|poll: PollView|
                (final(self).ended(), response_view(res)) == #[trigger] deliver_spec(
                    old(self).ended(),
                    poll,
                ),
    {
        let poll = look(&self.responses);
        let ghost found = poll@;
        let res = deliver(&mut self.ended, poll);
        assert((self.ended(), response_view(res)) == deliver_spec(old(self).ended(), found));
        res
    }
}

impl Drop for WorkerHandle {
    /// A handle that goes tells the worker to disconnect: `Disconnect` is
    /// the last command that it puts into the queue. It does not wait for
    /// an answer.
    fn drop(&mut self)
        ensures
            final(self)@ == (HandleView {
                handed: old(self).handed().push(CommandView::Disconnect),
                ..old(self)@
            }),
            final(self).handed() == old(self).handed().push(CommandView::Disconnect),
        opens_invariants none
        no_unwind
    {
        enqueue(&self.commands, WorkerCommand::Disconnect);
        self.handed = Ghost(self.handed@.push(CommandView::Disconnect));
    }
}

} // verus!
