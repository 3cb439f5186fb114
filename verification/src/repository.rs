//! What the game service asks of its backing: a position store and a
//! broadcast channel behind one interface, so that the service is proved
//! once for every backing. The interface says of every call what it changes
//! and when it fails, and keeps a record of the calls, so that a caller's
//! contract can say which calls were made, in which order, and which were
//! not. `MemoryGameRepository` is the backing that lives in memory.

use vstd::prelude::*;
use crate::broadcast::{delivered, handles_exhausted, BroadcastChannel};
use crate::entities::{PositionUpdate, PositionUpdateView};
use crate::errors::{AppError, AppErrorView};
use crate::text::owned;
use crate::store::{position_of, PositionStore};

verus! {

/// One call of an operation of a repository, with what was handed to it.
pub ghost enum RepositoryCall {
    /// `get_position` for this identity.
    Read(Seq<char>),
    /// `set_position` for this identity with these coordinates.
    Write(Seq<char>, int, int),
    /// `publish_position_update` with this event.
    Publish(PositionUpdateView),
    /// `subscribe`.
    Subscribe,
    /// `unsubscribe` of this handle.
    Unsubscribe(u64),
}

/// A position store together with a broadcast channel.
///
/// `positions`, `published` and `subscribers` are what the repository
/// holds, and `calls` is the record of what was asked of it. The four
/// `..._fault` functions say whether an operation would fail now, and with
/// which error. An operation that fails changes nothing but the record of
/// the calls, and no operation but `subscribe` changes a fault.
pub trait GameRepository: Sized {
    /// The stored position of each identity that has one.
    spec fn positions(&self) -> Map<Seq<char>, (int, int)>;

    /// Every event that was published through this repository, oldest first.
    spec fn published(&self) -> Seq<PositionUpdateView>;

    /// For each registered subscriber, by its handle, the events that were
    /// delivered to it and that it has not taken yet, oldest first.
    spec fn subscribers(&self) -> Map<u64, Seq<PositionUpdateView>>;

    /// Every call that was made on this repository, failed ones too, in the
    /// order in which they were made.
    spec fn calls(&self) -> Seq<RepositoryCall>;

    /// The error with which `get_position` fails now; `None` where it
    /// succeeds.
    spec fn read_fault(&self) -> Option<AppErrorView>;

    /// The error with which `set_position` fails now; `None` where it
    /// succeeds.
    spec fn write_fault(&self) -> Option<AppErrorView>;

    /// The error with which `publish_position_update` fails now; `None`
    /// where it succeeds.
    spec fn publish_fault(&self) -> Option<AppErrorView>;

    /// The error with which `subscribe` fails now; `None` where it
    /// succeeds.
    spec fn subscribe_fault(&self) -> Option<AppErrorView>;

    /// The stored position of `username`, or `(1, 1)` where none is stored.
    fn get_position(&mut self, username: &str) -> (r: Result<(i32, i32), AppError>)
        ensures
            final(self).positions() == old(self).positions(),
            final(self).published() == old(self).published(),
            final(self).subscribers() == old(self).subscribers(),
            final(self).read_fault() == old(self).read_fault(),
            final(self).write_fault() == old(self).write_fault(),
            final(self).publish_fault() == old(self).publish_fault(),
            final(self).subscribe_fault() == old(self).subscribe_fault(),
            final(self).calls() == old(self).calls().push(RepositoryCall::Read(username@)),
            match r {
                Ok(p) => old(self).read_fault() is None && (p.0 as int, p.1 as int) == position_of(
                    old(self).positions(),
                    username@,
                ),
                Err(e) => old(self).read_fault() == Some(e@),
            },
    ;

    /// Stores `(x, y)` for `username`, whatever was stored before.
    fn set_position(&mut self, username: &str, x: i32, y: i32) -> (r: Result<(), AppError>)
        ensures
            final(self).read_fault() == old(self).read_fault(),
            final(self).write_fault() == old(self).write_fault(),
            final(self).publish_fault() == old(self).publish_fault(),
            final(self).subscribe_fault() == old(self).subscribe_fault(),
            final(self).calls() == old(self).calls().push(
                RepositoryCall::Write(username@, x as int, y as int),
            ),
            final(self).published() == old(self).published(),
            final(self).subscribers() == old(self).subscribers(),
            match r {
                Ok(_) => old(self).write_fault() is None && final(self).positions() == old(
                    self,
                ).positions().insert(username@, (x as int, y as int)),
                Err(e) => old(self).write_fault() == Some(e@) && final(self).positions() == old(
                    self,
                ).positions(),
            },
    ;

    /// Publishes `update` to every subscriber that is registered now.
    fn publish_position_update(&mut self, update: &PositionUpdate) -> (r: Result<(), AppError>)
        ensures
            final(self).read_fault() == old(self).read_fault(),
            final(self).write_fault() == old(self).write_fault(),
            final(self).publish_fault() == old(self).publish_fault(),
            final(self).subscribe_fault() == old(self).subscribe_fault(),
            final(self).calls() == old(self).calls().push(RepositoryCall::Publish(update@)),
            final(self).positions() == old(self).positions(),
            match r {
                Ok(_) => {
                    &&& old(self).publish_fault() is None
                    &&& final(self).published() == old(self).published().push(update@)
                    &&& final(self).subscribers() == delivered(old(self).subscribers(), update@)
                },
                Err(e) => {
                    &&& old(self).publish_fault() == Some(e@)
                    &&& final(self).published() == old(self).published()
                    &&& final(self).subscribers() == old(self).subscribers()
                },
            },
    ;

    /// Registers a subscriber with an empty inbox and returns its handle,
    /// which no registered subscriber has.
    fn subscribe(&mut self) -> (r: Result<u64, AppError>)
        ensures
            final(self).read_fault() == old(self).read_fault(),
            final(self).write_fault() == old(self).write_fault(),
            final(self).publish_fault() == old(self).publish_fault(),
            final(self).calls() == old(self).calls().push(RepositoryCall::Subscribe),
            final(self).positions() == old(self).positions(),
            final(self).published() == old(self).published(),
            match r {
                Ok(handle) => {
                    &&& old(self).subscribe_fault() is None
                    &&& !old(self).subscribers().dom().contains(handle)
                    &&& final(self).subscribers() == old(self).subscribers().insert(
                        handle,
                        Seq::<PositionUpdateView>::empty(),
                    )
                },
                Err(e) => {
                    &&& old(self).subscribe_fault() == Some(e@)
                    &&& final(self).subscribe_fault() == old(self).subscribe_fault()
                    &&& final(self).subscribers() == old(self).subscribers()
                },
            },
    ;

    /// Removes the subscriber `handle`, if it is registered, with whatever
    /// waits for it. This cannot fail.
    fn unsubscribe(&mut self, handle: u64)
        ensures
            final(self).read_fault() == old(self).read_fault(),
            final(self).write_fault() == old(self).write_fault(),
            final(self).publish_fault() == old(self).publish_fault(),
            final(self).subscribe_fault() == old(self).subscribe_fault(),
            final(self).calls() == old(self).calls().push(RepositoryCall::Unsubscribe(handle)),
            final(self).positions() == old(self).positions(),
            final(self).published() == old(self).published(),
            final(self).subscribers() == old(self).subscribers().remove(handle),
    ;
}

/// Whether the repository `after` holds what `before` holds: the same
/// positions, the same published events, the same subscribers with the same
/// inboxes.
pub open spec fn same_content<R: GameRepository>(before: R, after: R) -> bool {
    &&& after.positions() == before.positions()
    &&& after.published() == before.published()
    &&& after.subscribers() == before.subscribers()
}

/// Whether every operation fails on `after` as it does on `before`.
pub open spec fn same_faults<R: GameRepository>(before: R, after: R) -> bool {
    &&& after.read_fault() == before.read_fault()
    &&& after.write_fault() == before.write_fault()
    &&& after.publish_fault() == before.publish_fault()
    &&& after.subscribe_fault() == before.subscribe_fault()
}

/// Whether reading, writing and publishing all succeed on `repository`.
pub open spec fn dependable<R: GameRepository>(repository: R) -> bool {
    &&& repository.read_fault() is None
    &&& repository.write_fault() is None
    &&& repository.publish_fault() is None
}

/// The error of every operation on a repository that is out of reach.
pub open spec fn unreachable_error() -> AppErrorView {
    AppErrorView::DbError("The repository is out of reach"@)
}

/// Which operations of a `MemoryGameRepository` are out of reach.
#[derive(Clone, Copy, Debug, PartialEq, Eq, Structural)]
pub struct Outage {
    pub read: bool,
    pub write: bool,
    pub publish: bool,
    pub subscribe: bool,
}

/// The error of an operation that is out of reach or not.
pub open spec fn fault_of(out: bool) -> Option<AppErrorView> {
    if out {
        Some(unreachable_error())
    } else {
        None
    }
}

/// The error with which a subscription fails on a channel that has issued
/// `issued` handles, out of reach or not: out of reach goes first.
pub open spec fn subscription_fault(out: bool, issued: int) -> Option<AppErrorView> {
    if out {
        Some(unreachable_error())
    } else if issued >= u64::MAX {
        Some(handles_exhausted())
    } else {
        None
    }
}

/// A repository that lives in memory: a `PositionStore`, a
/// `BroadcastChannel`, and the records of what was published and of what
/// was called.
///
/// Each of its operations can be put out of reach, to stand for a backing
/// that has failed: while it is, that operation fails with
/// `unreachable_error` and changes nothing.
pub struct MemoryGameRepository {
    store: PositionStore,
    channel: BroadcastChannel,
    outage: Outage,
    log: Ghost<Seq<PositionUpdateView>>,
    trace: Ghost<Seq<RepositoryCall>>,
}

impl MemoryGameRepository {
    /// A repository with no stored position, no subscriber, nothing
    /// published, nothing called, and every operation in reach.
    pub fn new() -> (r: MemoryGameRepository)
        ensures
            r.positions() == Map::<Seq<char>, (int, int)>::empty(),
            r.published() == Seq::<PositionUpdateView>::empty(),
            r.subscribers() == Map::<u64, Seq<PositionUpdateView>>::empty(),
            r.calls() == Seq::<RepositoryCall>::empty(),
            r.handles_issued() == 0,
            r.outage() == (Outage { read: false, write: false, publish: false, subscribe: false }),
    {
        MemoryGameRepository {
            store: PositionStore::new(),
            channel: BroadcastChannel::new(),
            outage: Outage { read: false, write: false, publish: false, subscribe: false },
            log: Ghost(Seq::empty()),
            trace: Ghost(Seq::empty()),
        }
    }

    /// A repository over a store and a channel that exist already. Nothing
    /// counts as published or called yet, and every operation is in reach.
    pub fn from_parts(store: PositionStore, channel: BroadcastChannel) -> (r: MemoryGameRepository)
        ensures
            r.positions() == store@,
            r.subscribers() == channel@,
            r.published() == Seq::<PositionUpdateView>::empty(),
            r.calls() == Seq::<RepositoryCall>::empty(),
            r.handles_issued() == channel.issued(),
            r.outage() == (Outage { read: false, write: false, publish: false, subscribe: false }),
    {
        MemoryGameRepository {
            store,
            channel,
            outage: Outage { read: false, write: false, publish: false, subscribe: false },
            log: Ghost(Seq::empty()),
            trace: Ghost(Seq::empty()),
        }
    }

    /// Which operations are out of reach.
    pub closed spec fn outage(&self) -> Outage {
        self.outage
    }

    /// The number of subscription handles issued so far.
    pub closed spec fn handles_issued(&self) -> int {
        self.channel.issued()
    }

    /// The faults of the repository are those of its outage, and a
    /// subscription fails also where no handle is left.
    pub proof fn lemma_faults(&self)
        ensures
            self.read_fault() == fault_of(self.outage().read),
            self.write_fault() == fault_of(self.outage().write),
            self.publish_fault() == fault_of(self.outage().publish),
            self.subscribe_fault() == subscription_fault(self.outage().subscribe, self.handles_issued()),
    {
    }

    /// Puts the operations that `outage` names out of reach, and the others
    /// in reach. What the repository holds stays.
    pub fn set_outage(&mut self, outage: Outage)
        ensures
            final(self).outage() == outage,
            same_content(*old(self), *final(self)),
            final(self).calls() == old(self).calls(),
            final(self).handles_issued() == old(self).handles_issued(),
    {
        self.outage = outage;
    }

    /// Puts every operation in reach, or every operation out of reach. What
    /// the repository holds stays.
    pub fn set_reachable(&mut self, reachable: bool)
        ensures
            final(self).outage() == (Outage {
                read: !reachable,
                write: !reachable,
                publish: !reachable,
                subscribe: !reachable,
            }),
            same_content(*old(self), *final(self)),
            final(self).calls() == old(self).calls(),
            final(self).handles_issued() == old(self).handles_issued(),
    {
        self.outage = Outage {
            read: !reachable,
            write: !reachable,
            publish: !reachable,
            subscribe: !reachable,
        };
    }

    /// The error of an operation that found the repository out of reach.
    fn out_of_reach() -> (r: AppError)
        ensures
            r@ == unreachable_error(),
    {
        AppError::DbError(owned("The repository is out of reach"))
    }

    /// Takes the oldest event that waits for `handle`. `None` where nothing
    /// waits or the handle is not registered. This is no call on the
    /// repository's backing, and fails on no outage.
    pub fn next_event(&mut self, handle: u64) -> (r: Option<PositionUpdate>)
        ensures
            final(self).positions() == old(self).positions(),
            final(self).published() == old(self).published(),
            final(self).calls() == old(self).calls(),
            final(self).handles_issued() == old(self).handles_issued(),
            final(self).outage() == old(self).outage(),
            same_faults(*old(self), *final(self)),
            r is Some <==> old(self).subscribers().dom().contains(handle) && old(
                self,
            ).subscribers()[handle].len() > 0,
            match r {
                Some(event) => {
                    &&& event@ == old(self).subscribers()[handle][0]
                    &&& final(self).subscribers() == old(self).subscribers().insert(
                        handle,
                        old(self).subscribers()[handle].drop_first(),
                    )
                },
                None => final(self).subscribers() == old(self).subscribers(),
            },
    {
        self.channel.next_event(handle)
    }

    /// The number of events that wait for `handle`; 0 where it is not
    /// registered.
    pub fn pending(&self, handle: u64) -> (r: usize)
        ensures
            self.subscribers().dom().contains(handle) ==> r as nat == self.subscribers()[handle].len(),
            !self.subscribers().dom().contains(handle) ==> r == 0,
    {
        self.channel.pending(handle)
    }

    /// Whether `handle` is registered.
    pub fn is_subscribed(&self, handle: u64) -> (r: bool)
        ensures
            r == self.subscribers().dom().contains(handle),
    {
        self.channel.is_subscribed(handle)
    }

    /// The number of registered subscribers.
    pub fn subscriber_count(&self) -> (r: usize)
        ensures
            self.subscribers().dom().finite(),
            r as nat == self.subscribers().dom().len(),
    {
        self.channel.subscriber_count()
    }
}

impl GameRepository for MemoryGameRepository {
    closed spec fn positions(&self) -> Map<Seq<char>, (int, int)> {
        self.store@
    }

    closed spec fn published(&self) -> Seq<PositionUpdateView> {
        self.log@
    }

    closed spec fn subscribers(&self) -> Map<u64, Seq<PositionUpdateView>> {
        self.channel@
    }

    closed spec fn calls(&self) -> Seq<RepositoryCall> {
        self.trace@
    }

    closed spec fn read_fault(&self) -> Option<AppErrorView> {
        fault_of(self.outage.read)
    }

    closed spec fn write_fault(&self) -> Option<AppErrorView> {
        fault_of(self.outage.write)
    }

    closed spec fn publish_fault(&self) -> Option<AppErrorView> {
        fault_of(self.outage.publish)
    }

    closed spec fn subscribe_fault(&self) -> Option<AppErrorView> {
        subscription_fault(self.outage.subscribe, self.channel.issued())
    }

    fn get_position(&mut self, username: &str) -> (r: Result<(i32, i32), AppError>)
        ensures
            final(self).outage() == old(self).outage(),
            final(self).handles_issued() == old(self).handles_issued(),
    {
        self.trace = Ghost(self.trace@.push(RepositoryCall::Read(username@)));
        if self.outage.read {
            return Err(Self::out_of_reach());
        }
        Ok(self.store.get_position(username))
    }

    fn set_position(&mut self, username: &str, x: i32, y: i32) -> (r: Result<(), AppError>)
        ensures
            final(self).outage() == old(self).outage(),
            final(self).handles_issued() == old(self).handles_issued(),
    {
        self.trace = Ghost(self.trace@.push(RepositoryCall::Write(username@, x as int, y as int)));
        if self.outage.write {
            return Err(Self::out_of_reach());
        }
        self.store.set_position(username, x, y);
        Ok(())
    }

    fn publish_position_update(&mut self, update: &PositionUpdate) -> (r: Result<(), AppError>)
        ensures
            final(self).outage() == old(self).outage(),
            final(self).handles_issued() == old(self).handles_issued(),
    {
        self.trace = Ghost(self.trace@.push(RepositoryCall::Publish(update@)));
        if self.outage.publish {
            return Err(Self::out_of_reach());
        }
        self.channel.publish(update);
        self.log = Ghost(self.log@.push(update@));
        Ok(())
    }

    fn subscribe(&mut self) -> (r: Result<u64, AppError>)
        ensures
            final(self).outage() == old(self).outage(),
            r is Ok ==> final(self).handles_issued() == old(self).handles_issued() + 1,
            r is Err ==> final(self).handles_issued() == old(self).handles_issued(),
    {
        self.trace = Ghost(self.trace@.push(RepositoryCall::Subscribe));
        if self.outage.subscribe {
            return Err(Self::out_of_reach());
        }
        self.channel.subscribe()
    }

    fn unsubscribe(&mut self, handle: u64)
        ensures
            final(self).outage() == old(self).outage(),
            final(self).handles_issued() == old(self).handles_issued(),
    {
        self.trace = Ghost(self.trace@.push(RepositoryCall::Unsubscribe(handle)));
        self.channel.unsubscribe(handle);
    }
}

} // verus!
