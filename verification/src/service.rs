//! The game service: it applies a move to the stored position of a player
//! and publishes where the player stands afterwards.
//!
//! `check_action`, `plan_move` and `announce` are the decisions alone, from
//! plain values to plain values, for a caller that talks to its store
//! itself. `GameService` makes the same decisions over any
//! `GameRepository`.

use vstd::prelude::*;
use crate::broadcast::delivered;
use crate::entities::{move_action, update_for, MoveCommand, MoveCommandView, PositionUpdate, PositionUpdateView};
use crate::errors::{AppError, AppErrorView};
use crate::grid::{in_grid, move_axis, moved_spec};
use crate::repository::{dependable, same_content, same_faults, GameRepository, RepositoryCall};
use crate::store::position_of;
use crate::text::owned;

verus! {

/// The error that rejects a command whose action is not `"move"`.
pub open spec fn invalid_action() -> AppErrorView {
    AppErrorView::ValidationError("Invalid action"@)
}

/// The update that a move by `(dx, dy)` from `current` leads to: both axes
/// moved and saturated to the grid, each on its own.
pub open spec fn moved_update(current: (int, int), username: Seq<char>, dx: int, dy: int) -> PositionUpdateView {
    update_for(username, moved_spec(current.0, dx), moved_spec(current.1, dy))
}

/// The update that the command `cmd` of `username` leads to where
/// `positions` is what the store holds.
pub open spec fn move_result(
    positions: Map<Seq<char>, (int, int)>,
    username: Seq<char>,
    cmd: MoveCommandView,
) -> PositionUpdateView {
    moved_update(position_of(positions, username), username, cmd.dx, cmd.dy)
}

/// `positions` with the position of `update` stored for its player.
pub open spec fn stored(positions: Map<Seq<char>, (int, int)>, update: PositionUpdateView) -> Map<
    Seq<char>,
    (int, int),
> {
    positions.insert(update.username, (update.x, update.y))
}

/// Whether every position in `positions` lies in the grid.
pub open spec fn all_in_grid(positions: Map<Seq<char>, (int, int)>) -> bool {
    forall|k: Seq<char>| #[trigger]
        positions.dom().contains(k) ==> in_grid(positions[k].0) && in_grid(positions[k].1)
}

/// What `handle_move` does: `before` and `after` are the repository before
/// and after the call for the command `cmd` of `username`, and `r` is what
/// the call returned.
///
/// A command whose action is not `"move"` is rejected, and the repository
/// is not called. Otherwise the position is read, once. Where that fails,
/// its error is returned and nothing more is called. Else the position that
/// the deltas lead to is written, once. Where that fails, its error is
/// returned, nothing is stored and nothing is published. Else the update is
/// published, once. Where that fails, its error is returned, and the new
/// position stays stored although no subscriber was told: nothing is rolled
/// back. Else the update is returned, stored, published and delivered to
/// every subscriber. No call is made a second time.
pub open spec fn handled<R: GameRepository>(
    before: R,
    after: R,
    username: Seq<char>,
    cmd: MoveCommandView,
    r: Result<PositionUpdate, AppError>,
) -> bool {
    let update = move_result(before.positions(), username, cmd);
    let read = before.calls().push(RepositoryCall::Read(username));
    let written = read.push(RepositoryCall::Write(username, update.x, update.y));
    let announced = written.push(RepositoryCall::Publish(update));
    &&& same_faults(before, after)
    &&& in_grid(update.x) && in_grid(update.y)
    &&& if cmd.action != move_action() {
        &&& r matches Err(e) && e@ == invalid_action()
        &&& same_content(before, after)
        &&& after.calls() == before.calls()
    } else if before.read_fault() is Some {
        &&& r matches Err(e) && Some(e@) == before.read_fault()
        &&& same_content(before, after)
        &&& after.calls() == read
    } else if before.write_fault() is Some {
        &&& r matches Err(e) && Some(e@) == before.write_fault()
        &&& same_content(before, after)
        &&& after.calls() == written
    } else if before.publish_fault() is Some {
        &&& r matches Err(e) && Some(e@) == before.publish_fault()
        &&& after.positions() == stored(before.positions(), update)
        &&& after.published() == before.published()
        &&& after.subscribers() == before.subscribers()
        &&& after.calls() == announced
    } else {
        &&& r matches Ok(returned) && returned@ == update
        &&& after.positions() == stored(before.positions(), update)
        &&& after.published() == before.published().push(update)
        &&& after.subscribers() == delivered(before.subscribers(), update)
        &&& after.calls() == announced
    }
}

/// What `get_initial_position` does: `before` and `after` are the
/// repository before and after the call for `username`, and `r` is what the
/// call returned.
///
/// Nothing is stored. The position is read, once. Where that fails, its
/// error is returned and nothing is published. Else the update with the
/// stored position of `username`, `(1, 1)` where none is stored, is
/// published, once. Where that fails, its error is returned. Else the
/// update is returned, published and delivered to every subscriber.
pub open spec fn announced<R: GameRepository>(
    before: R,
    after: R,
    username: Seq<char>,
    r: Result<PositionUpdate, AppError>,
) -> bool {
    let at = position_of(before.positions(), username);
    let update = update_for(username, at.0, at.1);
    let read = before.calls().push(RepositoryCall::Read(username));
    &&& same_faults(before, after)
    &&& after.positions() == before.positions()
    &&& if before.read_fault() is Some {
        &&& r matches Err(e) && Some(e@) == before.read_fault()
        &&& same_content(before, after)
        &&& after.calls() == read
    } else if before.publish_fault() is Some {
        &&& r matches Err(e) && Some(e@) == before.publish_fault()
        &&& same_content(before, after)
        &&& after.calls() == read.push(RepositoryCall::Publish(update))
    } else {
        &&& r matches Ok(returned) && returned@ == update
        &&& after.published() == before.published().push(update)
        &&& after.subscribers() == delivered(before.subscribers(), update)
        &&& after.calls() == read.push(RepositoryCall::Publish(update))
    }
}

/// What `GameService::subscribe` does: `before` and `after` are the
/// repository before and after the call, and `r` is what the call returned.
///
/// The repository is asked once. Where it cannot register a subscriber, its
/// error is returned and nothing changes. Else the handle is one that no
/// subscriber had, with an empty inbox. Positions and published events stay.
pub open spec fn subscribed<R: GameRepository>(before: R, after: R, r: Result<u64, AppError>) -> bool {
    &&& after.read_fault() == before.read_fault()
    &&& after.write_fault() == before.write_fault()
    &&& after.publish_fault() == before.publish_fault()
    &&& after.calls() == before.calls().push(RepositoryCall::Subscribe)
    &&& after.positions() == before.positions()
    &&& after.published() == before.published()
    &&& match r {
        Ok(handle) => {
            &&& before.subscribe_fault() is None
            &&& !before.subscribers().dom().contains(handle)
            &&& after.subscribers() == before.subscribers().insert(
                handle,
                Seq::<PositionUpdateView>::empty(),
            )
        },
        Err(e) => {
            &&& before.subscribe_fault() == Some(e@)
            &&& after.subscribe_fault() == before.subscribe_fault()
            &&& after.subscribers() == before.subscribers()
        },
    }
}

/// What `GameService::unsubscribe` does for the handle `handle`: the
/// subscriber is gone with its inbox, and nothing else has changed.
pub open spec fn unsubscribed<R: GameRepository>(before: R, after: R, handle: u64) -> bool {
    &&& same_faults(before, after)
    &&& after.calls() == before.calls().push(RepositoryCall::Unsubscribe(handle))
    &&& after.positions() == before.positions()
    &&& after.published() == before.published()
    &&& after.subscribers() == before.subscribers().remove(handle)
}

/// Accepts the command if its action is `"move"`, and rejects it otherwise.
pub fn check_action(cmd: &MoveCommand) -> (r: Result<(), AppError>)
    ensures
        r is Ok <==> cmd@.action == move_action(),
        r matches Err(e) ==> e@ == invalid_action(),
{
    if cmd.is_move() {
        Ok(())
    } else {
        Err(AppError::ValidationError(owned("Invalid action")))
    }
}

/// The update that the command `cmd` of `username` leads to from the
/// position `current`, or the rejection of a command that is no move.
pub fn plan_move(username: &str, current: (i32, i32), cmd: &MoveCommand) -> (r: Result<
    PositionUpdate,
    AppError,
>)
    ensures
        r is Ok <==> cmd@.action == move_action(),
        r matches Ok(update) ==> update@ == moved_update(
            (current.0 as int, current.1 as int),
            username@,
            cmd@.dx,
            cmd@.dy,
        ) && in_grid(update@.x) && in_grid(update@.y),
        r matches Err(e) ==> e@ == invalid_action(),
{
    match check_action(cmd) {
        Ok(()) => {
            let x = move_axis(current.0, cmd.dx);
            let y = move_axis(current.1, cmd.dy);
            Ok(PositionUpdate::new(username, x, y))
        },
        Err(e) => Err(e),
    }
}

/// The update that announces `username` at the position `current`.
pub fn announce(username: &str, current: (i32, i32)) -> (r: PositionUpdate)
    ensures
        r@ == update_for(username@, current.0 as int, current.1 as int),
{
    PositionUpdate::new(username, current.0, current.1)
}

/// The game service over the repository `R`.
pub struct GameService<R: GameRepository> {
    pub game_repository: R,
}

impl<R: GameRepository> GameService<R> {
    /// A service over `game_repository`.
    pub fn new(game_repository: R) -> (r: GameService<R>)
        ensures
            r.game_repository == game_repository,
    {
        GameService { game_repository }
    }

    /// Applies the move `move_cmd` of `username`.
    ///
    /// A command whose action is not `"move"` is rejected before anything is
    /// read or written. Otherwise the stored position is read, moved and
    /// saturated to the grid, written back, and published, once, as the
    /// update that is returned. Where the repository fails, its error is
    /// returned and nothing is published; the new position may already be
    /// stored if it was the publication that failed.
    pub fn handle_move(&mut self, username: &str, move_cmd: MoveCommand) -> (r: Result<
        PositionUpdate,
        AppError,
    >)
        ensures
            handled(old(self).game_repository, final(self).game_repository, username@, move_cmd@, r),
    {
        match check_action(&move_cmd) {
            Ok(()) => {},
            Err(e) => {
                return Err(e);
            },
        }
        let current = match self.game_repository.get_position(username) {
            Ok(current) => current,
            Err(e) => {
                return Err(e);
            },
        };
        let update = match plan_move(username, current, &move_cmd) {
            Ok(update) => update,
            Err(e) => {
                return Err(e);
            },
        };
        match self.game_repository.set_position(username, update.x, update.y) {
            Ok(()) => {},
            Err(e) => {
                return Err(e);
            },
        }
        match self.game_repository.publish_position_update(&update) {
            Ok(()) => {},
            Err(e) => {
                return Err(e);
            },
        }
        Ok(update)
    }

    /// Reads the position of `username`, `(1, 1)` for one that was never
    /// stored, and publishes it: the newcomer learns where it stands, and
    /// everyone else that it is there. Nothing is stored.
    pub fn get_initial_position(&mut self, username: &str) -> (r: Result<PositionUpdate, AppError>)
        ensures
            announced(old(self).game_repository, final(self).game_repository, username@, r),
    {
        let current = match self.game_repository.get_position(username) {
            Ok(current) => current,
            Err(e) => {
                return Err(e);
            },
        };
        let update = announce(username, current);
        match self.game_repository.publish_position_update(&update) {
            Ok(()) => {},
            Err(e) => {
                return Err(e);
            },
        }
        Ok(update)
    }

    /// Registers a subscriber with the broadcast channel and returns its
    /// handle. Positions and what was published stay as they were.
    pub fn subscribe(&mut self) -> (r: Result<u64, AppError>)
        ensures
            subscribed(old(self).game_repository, final(self).game_repository, r),
    {
        self.game_repository.subscribe()
    }

    /// Removes the subscriber `handle` from the broadcast channel.
    pub fn unsubscribe(&mut self, handle: u64)
        ensures
            unsubscribed(old(self).game_repository, final(self).game_repository, handle),
    {
        self.game_repository.unsubscribe(handle)
    }
}

/// A move that succeeds publishes one event and no more: what was
/// published before is still there, followed by the update that was
/// returned, which names the player that moved and holds the position that
/// was stored, after saturation.
pub proof fn lemma_move_publishes_once<R: GameRepository>(
    before: R,
    after: R,
    username: Seq<char>,
    cmd: MoveCommandView,
    r: Result<PositionUpdate, AppError>,
)
    requires
        handled(before, after, username, cmd, r),
        r is Ok,
    ensures
        after.published().len() == before.published().len() + 1,
        after.published().drop_last() == before.published(),
        after.published().last() == r->Ok_0@,
        r->Ok_0@.username == username,
        r->Ok_0@.action == crate::entities::update_action(),
        position_of(after.positions(), username) == (r->Ok_0@.x, r->Ok_0@.y),
        r->Ok_0@.x == moved_spec(position_of(before.positions(), username).0, cmd.dx),
        r->Ok_0@.y == moved_spec(position_of(before.positions(), username).1, cmd.dy),
{
    assert(after.published().drop_last() =~= before.published());
}

/// A move that is rejected or that fails publishes nothing and delivers
/// nothing.
pub proof fn lemma_failed_move_publishes_nothing<R: GameRepository>(
    before: R,
    after: R,
    username: Seq<char>,
    cmd: MoveCommandView,
    r: Result<PositionUpdate, AppError>,
)
    requires
        handled(before, after, username, cmd, r),
        r is Err,
    ensures
        after.published() == before.published(),
        after.subscribers() == before.subscribers(),
{
}

/// Whether it succeeds or fails, a move leaves every stored position in the
/// grid if every one was before, and changes the position of no other
/// player.
pub proof fn lemma_move_keeps_the_store_in_grid<R: GameRepository>(
    before: R,
    after: R,
    username: Seq<char>,
    cmd: MoveCommandView,
    r: Result<PositionUpdate, AppError>,
    other: Seq<char>,
)
    requires
        handled(before, after, username, cmd, r),
        all_in_grid(before.positions()),
        other != username,
    ensures
        all_in_grid(after.positions()),
        in_grid(position_of(after.positions(), username).0),
        in_grid(position_of(after.positions(), username).1),
        position_of(after.positions(), other) == position_of(before.positions(), other),
{
    let update = move_result(before.positions(), username, cmd);
    assert forall|k: Seq<char>| #[trigger] after.positions().dom().contains(k) implies in_grid(
        after.positions()[k].0,
    ) && in_grid(after.positions()[k].1) by {
        if k != username {
            assert(before.positions().dom().contains(k));
        } else if after.positions() == before.positions() {
            assert(before.positions().dom().contains(k));
        }
    }
    if after.positions().dom().contains(username) {
        assert(in_grid(after.positions()[username].0));
    }
}

/// When one player moves, every session that is subscribed then, that of
/// the player and those of the others alike, finds the update with the new
/// position as the newest event in its inbox.
pub proof fn lemma_move_reaches_every_session<R: GameRepository>(
    before: R,
    after: R,
    username: Seq<char>,
    cmd: MoveCommandView,
    r: Result<PositionUpdate, AppError>,
    own: u64,
    other: u64,
)
    requires
        handled(before, after, username, cmd, r),
        r is Ok,
        before.subscribers().dom().contains(own),
        before.subscribers().dom().contains(other),
    ensures
        after.subscribers().dom() == before.subscribers().dom(),
        after.subscribers()[own].len() > 0,
        after.subscribers()[own].last() == r->Ok_0@,
        after.subscribers()[other].len() > 0,
        after.subscribers()[other].last() == r->Ok_0@,
{
    crate::broadcast::lemma_publish_reaches_every_subscriber(before.subscribers(), r->Ok_0@, own);
    crate::broadcast::lemma_publish_reaches_every_subscriber(before.subscribers(), r->Ok_0@, other);
}

/// The first announcement of a player that was never stored places it at
/// `(1, 1)`.
pub proof fn lemma_fresh_player_is_announced_at_one_one<R: GameRepository>(
    before: R,
    after: R,
    username: Seq<char>,
    r: Result<PositionUpdate, AppError>,
)
    requires
        announced(before, after, username, r),
        r is Ok,
        !before.positions().dom().contains(username),
    ensures
        r->Ok_0@ == update_for(username, 1, 1),
        after.published().last() == update_for(username, 1, 1),
{
}

/// A move whose read fails returns the error of the read as it came, and
/// nothing is written nor published: neither operation is called.
pub proof fn lemma_failed_read_is_passed_on<R: GameRepository>(
    before: R,
    after: R,
    username: Seq<char>,
    cmd: MoveCommandView,
    r: Result<PositionUpdate, AppError>,
)
    requires
        handled(before, after, username, cmd, r),
        cmd.action == move_action(),
        before.read_fault() is Some,
    ensures
        r matches Err(e) && Some(e@) == before.read_fault(),
        same_content(before, after),
        after.calls() == before.calls().push(RepositoryCall::Read(username)),
{
}

/// A move whose write fails returns the error of the write, stores nothing,
/// and publishes nothing: the publication is not called.
pub proof fn lemma_failed_write_is_passed_on<R: GameRepository>(
    before: R,
    after: R,
    username: Seq<char>,
    cmd: MoveCommandView,
    r: Result<PositionUpdate, AppError>,
)
    requires
        handled(before, after, username, cmd, r),
        cmd.action == move_action(),
        before.read_fault() is None,
        before.write_fault() is Some,
    ensures
        r matches Err(e) && Some(e@) == before.write_fault(),
        same_content(before, after),
        after.calls().len() == before.calls().len() + 2,
        after.calls().last() is Write,
{
}

/// A move whose publication fails returns the error of the publication.
/// The position that was written stays written, and no subscriber is told.
pub proof fn lemma_failed_publication_keeps_the_position<R: GameRepository>(
    before: R,
    after: R,
    username: Seq<char>,
    cmd: MoveCommandView,
    r: Result<PositionUpdate, AppError>,
)
    requires
        handled(before, after, username, cmd, r),
        cmd.action == move_action(),
        before.read_fault() is None,
        before.write_fault() is None,
        before.publish_fault() is Some,
    ensures
        r matches Err(e) && Some(e@) == before.publish_fault(),
        position_of(after.positions(), username) == (
            moved_spec(position_of(before.positions(), username).0, cmd.dx),
            moved_spec(position_of(before.positions(), username).1, cmd.dy),
        ),
        after.published() == before.published(),
        after.subscribers() == before.subscribers(),
        after.calls().len() == before.calls().len() + 3,
{
}

/// A move succeeds exactly where it is a move and reading, writing and
/// publishing all succeed; and whatever comes of it, each operation is
/// called once at most and in the order read, write, publish.
pub proof fn lemma_move_succeeds_when_nothing_fails<R: GameRepository>(
    before: R,
    after: R,
    username: Seq<char>,
    cmd: MoveCommandView,
    r: Result<PositionUpdate, AppError>,
)
    requires
        handled(before, after, username, cmd, r),
    ensures
        r is Ok <==> cmd.action == move_action() && dependable(before),
        before.calls().len() <= after.calls().len() <= before.calls().len() + 3,
        after.calls().subrange(0, before.calls().len() as int) == before.calls(),
{
    assert(after.calls().subrange(0, before.calls().len() as int) =~= before.calls());
}

/// An announcement succeeds exactly where reading and publishing succeed,
/// and fails with the error of the operation that failed first.
pub proof fn lemma_announcement_fails_with_its_cause<R: GameRepository>(
    before: R,
    after: R,
    username: Seq<char>,
    r: Result<PositionUpdate, AppError>,
)
    requires
        announced(before, after, username, r),
    ensures
        r is Ok <==> before.read_fault() is None && before.publish_fault() is None,
        before.read_fault() is Some ==> (r matches Err(e) && Some(e@) == before.read_fault()),
        before.read_fault() is Some ==> after.calls() == before.calls().push(
            RepositoryCall::Read(username),
        ),
        before.read_fault() is None && before.publish_fault() is Some ==> (r matches Err(e) && Some(
            e@,
        ) == before.publish_fault()),
        r is Err ==> same_content(before, after),
{
}

} // verus!
