//! A move and an announcement, step by step, for a caller that has to wait
//! for its backing between the steps. The flow says which operation comes
//! next; the caller performs it, waits, and hands the answer back. So the
//! order of the operations, and what follows on a failure, are decided here
//! and not by the caller: read, then write, then publish, each once, and
//! the first error ends the flow.

use vstd::prelude::*;
use crate::entities::{move_action, update_for, MoveCommand, MoveCommandView, PositionUpdate, PositionUpdateView};
use crate::errors::{AppError, AppErrorView};
use crate::repository::GameRepository;
use crate::service::{announce, check_action, invalid_action, move_result, moved_update, plan_move};
use crate::store::position_of;
use crate::text::owned;

verus! {

/// What the caller is to do next.
#[derive(Debug)]
pub enum FlowStep {
    /// Read the position of this identity.
    Read(String),
    /// Store the position of this update for its player.
    Write(PositionUpdate),
    /// Publish this update.
    Publish(PositionUpdate),
    /// Nothing more: this is the result.
    Finish(Result<PositionUpdate, AppError>),
}

/// A `FlowStep` as mathematical values.
pub ghost enum FlowStepView {
    Read(Seq<char>),
    Write(PositionUpdateView),
    Publish(PositionUpdateView),
    Finish(Result<PositionUpdateView, AppErrorView>),
}

impl View for FlowStep {
    type V = FlowStepView;

    open spec fn view(&self) -> FlowStepView {
        match self {
            FlowStep::Read(username) => FlowStepView::Read(username@),
            FlowStep::Write(update) => FlowStepView::Write(update@),
            FlowStep::Publish(update) => FlowStepView::Publish(update@),
            FlowStep::Finish(Ok(update)) => FlowStepView::Finish(Ok(update@)),
            FlowStep::Finish(Err(e)) => FlowStepView::Finish(Err(e@)),
        }
    }
}

/// What the backing answered to the step before.
#[derive(Debug)]
pub enum FlowReply {
    /// The read gave this position.
    Position(i32, i32),
    /// The write or the publication succeeded.
    Done,
    /// The operation failed with this error.
    Failed(AppError),
}

/// A `FlowReply` as mathematical values.
pub ghost enum FlowReplyView {
    Position(int, int),
    Done,
    Failed(AppErrorView),
}

impl View for FlowReply {
    type V = FlowReplyView;

    open spec fn view(&self) -> FlowReplyView {
        match self {
            FlowReply::Position(x, y) => FlowReplyView::Position(*x as int, *y as int),
            FlowReply::Done => FlowReplyView::Done,
            FlowReply::Failed(e) => FlowReplyView::Failed(e@),
        }
    }
}

/// Where a flow stands.
#[derive(Debug)]
pub enum Flow {
    /// The position of `username` is being read, for the move `command`, or
    /// for an announcement where there is none.
    Reading { username: String, command: Option<MoveCommand> },
    /// The position of this update is being stored.
    Writing(PositionUpdate),
    /// This update is being published.
    Publishing(PositionUpdate),
    /// The flow has ended.
    Finished,
}

/// A `Flow` as mathematical values.
pub ghost enum FlowView {
    Reading { username: Seq<char>, command: Option<MoveCommandView> },
    Writing(PositionUpdateView),
    Publishing(PositionUpdateView),
    Finished,
}

impl View for Flow {
    type V = FlowView;

    open spec fn view(&self) -> FlowView {
        match self {
            Flow::Reading { username, command } => FlowView::Reading {
                username: username@,
                command: match command {
                    Some(cmd) => Some(cmd@),
                    None => None,
                },
            },
            Flow::Writing(update) => FlowView::Writing(update@),
            Flow::Publishing(update) => FlowView::Publishing(update@),
            Flow::Finished => FlowView::Finished,
        }
    }
}

/// The end of a flow with the error `e`.
pub open spec fn failed(e: AppErrorView) -> (FlowView, FlowStepView) {
    (FlowView::Finished, FlowStepView::Finish(Err(e)))
}

/// How a move begins: a command that is no move is rejected before anything
/// is read; for a move the position is read first.
pub open spec fn move_start(username: Seq<char>, cmd: MoveCommandView) -> (FlowView, FlowStepView) {
    if cmd.action == move_action() {
        (FlowView::Reading { username, command: Some(cmd) }, FlowStepView::Read(username))
    } else {
        failed(invalid_action())
    }
}

/// How an announcement begins: the position is read first.
pub open spec fn announcement_start(username: Seq<char>) -> (FlowView, FlowStepView) {
    (FlowView::Reading { username, command: None }, FlowStepView::Read(username))
}

/// How a flow goes on when the backing has answered.
///
/// After the read of a move the new position is written, after the write it
/// is published, and after the publication the update is the result. After
/// the read of an announcement the position is published as it was read. A
/// failure ends the flow with its error, whichever step it answers. A
/// command that is no move is rejected here too, should a flow hold one. An
/// answer that does not fit the step, or any answer to a flow that has
/// ended, ends the flow with an internal error.
pub open spec fn flow_next(flow: FlowView, reply: FlowReplyView) -> (FlowView, FlowStepView) {
    match (flow, reply) {
        (FlowView::Finished, _) => failed(AppErrorView::InternalError),
        (_, FlowReplyView::Failed(e)) => failed(e),
        (FlowView::Reading { username, command: Some(cmd) }, FlowReplyView::Position(x, y)) => {
            let update = moved_update((x, y), username, cmd.dx, cmd.dy);
            if cmd.action == move_action() {
                (FlowView::Writing(update), FlowStepView::Write(update))
            } else {
                failed(invalid_action())
            }
        },
        (FlowView::Reading { username, command: None }, FlowReplyView::Position(x, y)) => {
            let update = update_for(username, x, y);
            (FlowView::Publishing(update), FlowStepView::Publish(update))
        },
        (FlowView::Writing(update), FlowReplyView::Done) => (
            FlowView::Publishing(update),
            FlowStepView::Publish(update),
        ),
        (FlowView::Publishing(update), FlowReplyView::Done) => (
            FlowView::Finished,
            FlowStepView::Finish(Ok(update)),
        ),
        _ => failed(AppErrorView::InternalError),
    }
}

impl Flow {
    /// Begins the move `cmd` of `username`.
    pub fn for_move(username: &str, cmd: MoveCommand) -> (r: (Flow, FlowStep))
        ensures
            (r.0@, r.1@) == move_start(username@, cmd@),
    {
        match check_action(&cmd) {
            Ok(()) => (
                Flow::Reading { username: owned(username), command: Some(cmd) },
                FlowStep::Read(owned(username)),
            ),
            Err(e) => (Flow::Finished, FlowStep::Finish(Err(e))),
        }
    }

    /// Begins the announcement of `username`.
    pub fn for_announcement(username: &str) -> (r: (Flow, FlowStep))
        ensures
            (r.0@, r.1@) == announcement_start(username@),
    {
        (Flow::Reading { username: owned(username), command: None }, FlowStep::Read(owned(username)))
    }

    /// Takes the answer of the backing to the step before, and says what
    /// comes next.
    pub fn next(self, reply: FlowReply) -> (r: (Flow, FlowStep))
        ensures
            (r.0@, r.1@) == flow_next(self@, reply@),
    {
        match (self, reply) {
            (Flow::Finished, _) => (Flow::Finished, FlowStep::Finish(Err(AppError::InternalError))),
            (_, FlowReply::Failed(e)) => (Flow::Finished, FlowStep::Finish(Err(e))),
            (Flow::Reading { username, command: Some(cmd) }, FlowReply::Position(x, y)) => {
                match plan_move(username.as_str(), (x, y), &cmd) {
                    Ok(update) => {
                        let copy = update.duplicate();
                        (Flow::Writing(update), FlowStep::Write(copy))
                    },
                    Err(e) => (Flow::Finished, FlowStep::Finish(Err(e))),
                }
            },
            (Flow::Reading { username, command: None }, FlowReply::Position(x, y)) => {
                let update = announce(username.as_str(), (x, y));
                let copy = update.duplicate();
                (Flow::Publishing(update), FlowStep::Publish(copy))
            },
            (Flow::Writing(update), FlowReply::Done) => {
                let copy = update.duplicate();
                (Flow::Publishing(update), FlowStep::Publish(copy))
            },
            (Flow::Publishing(update), FlowReply::Done) => (
                Flow::Finished,
                FlowStep::Finish(Ok(update)),
            ),
            _ => (Flow::Finished, FlowStep::Finish(Err(AppError::InternalError))),
        }
    }
}

/// What `repository` answers to a read of the position of `username`.
pub open spec fn read_reply<R: GameRepository>(repository: R, username: Seq<char>) -> FlowReplyView {
    match repository.read_fault() {
        Some(e) => FlowReplyView::Failed(e),
        None => FlowReplyView::Position(
            position_of(repository.positions(), username).0,
            position_of(repository.positions(), username).1,
        ),
    }
}

/// What a backing answers to an operation that fails like this or succeeds.
pub open spec fn done_or(fault: Option<AppErrorView>) -> FlowReplyView {
    match fault {
        Some(e) => FlowReplyView::Failed(e),
        None => FlowReplyView::Done,
    }
}

/// The flow of a move makes the calls that `GameService::handle_move`
/// makes, in the same order, and ends with the same result: it reads; where
/// the read succeeds it writes the position that the deltas lead to; where
/// the write succeeds it publishes; and it ends with the first error or
/// with the update.
pub proof fn lemma_move_flow_follows_the_service<R: GameRepository>(
    repository: R,
    username: Seq<char>,
    cmd: MoveCommandView,
)
    requires
        cmd.action == move_action(),
    ensures
        ({
            let update = move_result(repository.positions(), username, cmd);
            let start = move_start(username, cmd);
            let read = flow_next(start.0, read_reply(repository, username));
            let written = flow_next(read.0, done_or(repository.write_fault()));
            let published = flow_next(written.0, done_or(repository.publish_fault()));
            &&& start.1 == FlowStepView::Read(username)
            &&& match repository.read_fault() {
                Some(e) => read.1 == FlowStepView::Finish(Err(e)),
                None => {
                    &&& read.1 == FlowStepView::Write(update)
                    &&& match repository.write_fault() {
                        Some(e) => written.1 == FlowStepView::Finish(Err(e)),
                        None => {
                            &&& written.1 == FlowStepView::Publish(update)
                            &&& match repository.publish_fault() {
                                Some(e) => published.1 == FlowStepView::Finish(Err(e)),
                                None => published.1 == FlowStepView::Finish(Ok(update)),
                            }
                        },
                    }
                },
            }
        }),
{
}

/// The flow of an announcement makes the calls that
/// `GameService::get_initial_position` makes, in the same order, and ends
/// with the same result: it reads, publishes what it read, and writes
/// nothing.
pub proof fn lemma_announcement_flow_follows_the_service<R: GameRepository>(
    repository: R,
    username: Seq<char>,
)
    ensures
        ({
            let at = position_of(repository.positions(), username);
            let update = update_for(username, at.0, at.1);
            let start = announcement_start(username);
            let read = flow_next(start.0, read_reply(repository, username));
            let published = flow_next(read.0, done_or(repository.publish_fault()));
            &&& start.1 == FlowStepView::Read(username)
            &&& match repository.read_fault() {
                Some(e) => read.1 == FlowStepView::Finish(Err(e)),
                None => {
                    &&& read.1 == FlowStepView::Publish(update)
                    &&& match repository.publish_fault() {
                        Some(e) => published.1 == FlowStepView::Finish(Err(e)),
                        None => published.1 == FlowStepView::Finish(Ok(update)),
                    }
                },
            }
        }),
{
}

/// A flow that has ended asks for no operation again, whatever it is told.
pub proof fn lemma_finished_flow_stays_finished(reply: FlowReplyView)
    ensures
        flow_next(FlowView::Finished, reply).0 == FlowView::Finished,
        flow_next(FlowView::Finished, reply).1 is Finish,
{
}

} // verus!
