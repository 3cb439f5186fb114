//! One session per connected client, as a state machine:
//! `Connecting → Admitted → Active → Closing → Closed`.
//!
//! `Session::step` is the machine itself: it takes what happened and says
//! what is to be done, and touches nothing else. The caller does the work,
//! waits where it has to, and reports back. `open`, `deliver` and `close`
//! drive the machine over a `GameService`, for a caller that has one.

use vstd::prelude::*;
use crate::admission::{refusal, AdmissionError};
use crate::broadcast::delivered;
use crate::entities::{update_action, update_for, MoveCommand, MoveCommandView, PositionUpdate, PositionUpdateView};
use crate::errors::AppError;
use crate::repository::{same_content, same_faults, GameRepository, MemoryGameRepository, RepositoryCall};
use crate::service::{handled, unsubscribed, GameService};
use crate::store::position_of;
use crate::text::owned;
use crate::wire::{decode_move, decoded_move};

verus! {

/// The states of a session.
#[derive(Clone, Copy, Debug, PartialEq, Eq, Structural)]
pub enum SessionState {
    /// The handshake is in progress.
    Connecting,
    /// The credential was accepted; the subscription is not registered yet.
    Admitted,
    /// Inbound frames are read and broadcast events are relayed.
    Active,
    /// The session has ended; its subscription is still to be released.
    Closing,
    /// Nothing of the session is left.
    Closed,
}

/// One frame from the client, as far as the session tells frames apart.
#[derive(Debug)]
pub enum InboundFrame {
    /// A text frame that holds a command.
    Command(MoveCommand),
    /// A text frame that holds no command.
    Malformed,
    /// A close frame.
    Close,
    /// Any other frame: binary, ping, pong.
    Other,
    /// The transport failed while reading.
    TransportError,
}

/// An `InboundFrame` as mathematical values.
pub ghost enum InboundFrameView {
    Command(MoveCommandView),
    Malformed,
    Close,
    Other,
    TransportError,
}

impl View for InboundFrame {
    type V = InboundFrameView;

    open spec fn view(&self) -> InboundFrameView {
        match self {
            InboundFrame::Command(cmd) => InboundFrameView::Command(cmd@),
            InboundFrame::Malformed => InboundFrameView::Malformed,
            InboundFrame::Close => InboundFrameView::Close,
            InboundFrame::Other => InboundFrameView::Other,
            InboundFrame::TransportError => InboundFrameView::TransportError,
        }
    }
}

/// The frame that a text frame with a decoded payload is.
pub open spec fn classified(decoded: Option<MoveCommandView>) -> InboundFrameView {
    match decoded {
        Some(cmd) => InboundFrameView::Command(cmd),
        None => InboundFrameView::Malformed,
    }
}

/// The frame that a text frame is whose payload was decoded to `decoded`.
pub fn classify_decoded(decoded: Option<MoveCommand>) -> (r: InboundFrame)
    ensures
        r@ == classified(
            match decoded {
                Some(cmd) => Some(cmd@),
                None => None,
            },
        ),
{
    match decoded {
        Some(cmd) => InboundFrame::Command(cmd),
        None => InboundFrame::Malformed,
    }
}

/// The frame that a text frame with the payload `text` is.
pub fn classify_text(text: &str) -> (r: InboundFrame)
    ensures
        r@ == classified(decoded_move(text@)),
{
    classify_decoded(decode_move(text))
}

/// What can happen to a session.
#[derive(Debug)]
pub enum SessionEvent {
    /// The admission gate has decided.
    Admission(Result<String, AdmissionError>),
    /// The broadcast channel has registered the session under this handle.
    Subscribed(u64),
    /// The broadcast channel could not register the session.
    SubscribeFailed,
    /// A frame arrived from the client.
    Frame(InboundFrame),
    /// An event arrived from the broadcast channel. It is relayed if its
    /// tag is `"update_position"`, and passed over otherwise.
    Delivery(PositionUpdate),
    /// Writing to the client failed.
    WriteFailed,
    /// The broadcast channel has ended the subscription.
    ChannelClosed,
    /// The subscription was released.
    Released,
    /// The server ends the session.
    Shutdown,
}

/// A `SessionEvent` as mathematical values.
pub ghost enum SessionEventView {
    Admitted(Seq<char>),
    Refused(AdmissionError),
    Subscribed(u64),
    SubscribeFailed,
    Frame(InboundFrameView),
    Delivery(PositionUpdateView),
    WriteFailed,
    ChannelClosed,
    Released,
    Shutdown,
}

impl View for SessionEvent {
    type V = SessionEventView;

    open spec fn view(&self) -> SessionEventView {
        match self {
            SessionEvent::Admission(Ok(identity)) => SessionEventView::Admitted(identity@),
            SessionEvent::Admission(Err(e)) => SessionEventView::Refused(*e),
            SessionEvent::Subscribed(handle) => SessionEventView::Subscribed(*handle),
            SessionEvent::SubscribeFailed => SessionEventView::SubscribeFailed,
            SessionEvent::Frame(frame) => SessionEventView::Frame(frame@),
            SessionEvent::Delivery(update) => SessionEventView::Delivery(update@),
            SessionEvent::WriteFailed => SessionEventView::WriteFailed,
            SessionEvent::ChannelClosed => SessionEventView::ChannelClosed,
            SessionEvent::Released => SessionEventView::Released,
            SessionEvent::Shutdown => SessionEventView::Shutdown,
        }
    }
}

/// What the caller of a session is to do next.
#[derive(Debug)]
pub enum SessionAction {
    /// Nothing.
    Nothing,
    /// Answer the handshake as unauthorized; there is no session.
    Refuse(AdmissionError),
    /// Register the session with the broadcast channel.
    Subscribe,
    /// Fetch and publish the initial position of the session's identity.
    Announce,
    /// Apply this command for the session's identity.
    Move(MoveCommand),
    /// Write this event to the client.
    Send(PositionUpdate),
    /// Stop reading and relaying, and release this subscription.
    Release(u64),
}

/// A `SessionAction` as mathematical values.
pub ghost enum SessionActionView {
    Nothing,
    Refuse(AdmissionError),
    Subscribe,
    Announce,
    Move(MoveCommandView),
    Send(PositionUpdateView),
    Release(u64),
}

impl View for SessionAction {
    type V = SessionActionView;

    open spec fn view(&self) -> SessionActionView {
        match self {
            SessionAction::Nothing => SessionActionView::Nothing,
            SessionAction::Refuse(e) => SessionActionView::Refuse(*e),
            SessionAction::Subscribe => SessionActionView::Subscribe,
            SessionAction::Announce => SessionActionView::Announce,
            SessionAction::Move(cmd) => SessionActionView::Move(cmd@),
            SessionAction::Send(update) => SessionActionView::Send(update@),
            SessionAction::Release(handle) => SessionActionView::Release(*handle),
        }
    }
}

/// What a session holds: its state, the identity it was admitted under
/// (empty before that), and the handle of its subscription while it has one.
pub ghost struct SessionView {
    pub state: SessionState,
    pub identity: Seq<char>,
    pub subscription: Option<u64>,
}

/// A session holds a subscription exactly while it is active or closing.
pub open spec fn consistent(s: SessionView) -> bool {
    s.subscription is Some <==> (s.state == SessionState::Active || s.state == SessionState::Closing)
}

/// The session in the state `state`, otherwise as `s`.
pub open spec fn in_state(s: SessionView, state: SessionState) -> SessionView {
    SessionView { state, identity: s.identity, subscription: s.subscription }
}

/// The state machine: the session that `s` becomes when `e` happens, and
/// what is to be done then. An event that the state does not expect changes
/// nothing and asks for nothing.
pub open spec fn step_spec(s: SessionView, e: SessionEventView) -> (SessionView, SessionActionView) {
    match (s.state, e) {
        (SessionState::Connecting, SessionEventView::Admitted(identity)) => (
            SessionView { state: SessionState::Admitted, identity, subscription: None },
            SessionActionView::Subscribe,
        ),
        (SessionState::Connecting, SessionEventView::Refused(reason)) => (
            in_state(s, SessionState::Closed),
            SessionActionView::Refuse(reason),
        ),
        (SessionState::Admitted, SessionEventView::Subscribed(handle)) => (
            SessionView {
                state: SessionState::Active,
                identity: s.identity,
                subscription: Some(handle),
            },
            SessionActionView::Announce,
        ),
        (SessionState::Admitted, SessionEventView::SubscribeFailed) => (
            in_state(s, SessionState::Closed),
            SessionActionView::Nothing,
        ),
        (SessionState::Active, SessionEventView::Frame(InboundFrameView::Command(cmd))) => (
            s,
            SessionActionView::Move(cmd),
        ),
        (SessionState::Active, SessionEventView::Frame(InboundFrameView::Close)) => (
            in_state(s, SessionState::Closing),
            SessionActionView::Release(s.subscription->0),
        ),
        (SessionState::Active, SessionEventView::Frame(InboundFrameView::TransportError)) => (
            in_state(s, SessionState::Closing),
            SessionActionView::Release(s.subscription->0),
        ),
        (SessionState::Active, SessionEventView::Delivery(update)) => (
            s,
            if update.action == update_action() {
                SessionActionView::Send(update)
            } else {
                SessionActionView::Nothing
            },
        ),
        (SessionState::Active, SessionEventView::WriteFailed) => (
            in_state(s, SessionState::Closing),
            SessionActionView::Release(s.subscription->0),
        ),
        (SessionState::Active, SessionEventView::ChannelClosed) => (
            in_state(s, SessionState::Closing),
            SessionActionView::Release(s.subscription->0),
        ),
        (SessionState::Active, SessionEventView::Shutdown) => (
            in_state(s, SessionState::Closing),
            SessionActionView::Release(s.subscription->0),
        ),
        (SessionState::Connecting, SessionEventView::Shutdown) => (
            in_state(s, SessionState::Closed),
            SessionActionView::Nothing,
        ),
        (SessionState::Admitted, SessionEventView::Shutdown) => (
            in_state(s, SessionState::Closed),
            SessionActionView::Nothing,
        ),
        (SessionState::Closing, SessionEventView::Released) => (
            SessionView { state: SessionState::Closed, identity: s.identity, subscription: None },
            SessionActionView::Nothing,
        ),
        _ => (s, SessionActionView::Nothing),
    }
}

/// One session.
#[derive(Debug)]
pub struct Session {
    state: SessionState,
    identity: String,
    subscription: Option<u64>,
}

impl View for Session {
    type V = SessionView;

    closed spec fn view(&self) -> SessionView {
        SessionView {
            state: self.state,
            identity: self.identity@,
            subscription: self.subscription,
        }
    }
}

impl Session {
    #[verifier::type_invariant]
    spec fn well_formed(&self) -> bool {
        consistent(self@)
    }

    /// A session whose handshake is in progress.
    pub fn connecting() -> (r: Session)
        ensures
            r@ == (SessionView {
                state: SessionState::Connecting,
                identity: Seq::<char>::empty(),
                subscription: None,
            }),
    {
        Session { state: SessionState::Connecting, identity: String::new(), subscription: None }
    }

    /// The state of the session.
    pub fn state(&self) -> (r: SessionState)
        ensures
            r == self@.state,
            consistent(self@),
    {
        proof {
            use_type_invariant(self);
        }
        self.state
    }

    /// The identity that the session was admitted under.
    pub fn identity(&self) -> (r: &str)
        ensures
            r@ == self@.identity,
    {
        self.identity.as_str()
    }

    /// The handle of the session's subscription, while it has one.
    pub fn subscription(&self) -> (r: Option<u64>)
        ensures
            r == self@.subscription,
            consistent(self@),
    {
        proof {
            use_type_invariant(self);
        }
        self.subscription
    }

    /// Takes one step of the state machine: the session becomes what `event`
    /// makes of it, and the action that is returned is what the caller is to
    /// do.
    pub fn step(&mut self, event: SessionEvent) -> (r: SessionAction)
        ensures
            final(self)@ == step_spec(old(self)@, event@).0,
            r@ == step_spec(old(self)@, event@).1,
    {
        proof {
            use_type_invariant(&*self);
        }
        let state = self.state;
        let subscription = self.subscription;
        match event {
            SessionEvent::Admission(Ok(identity)) => {
                if state == SessionState::Connecting {
                    *self = Session { state: SessionState::Admitted, identity, subscription: None };
                    SessionAction::Subscribe
                } else {
                    SessionAction::Nothing
                }
            },
            SessionEvent::Admission(Err(reason)) => {
                if state == SessionState::Connecting {
                    self.state = SessionState::Closed;
                    SessionAction::Refuse(reason)
                } else {
                    SessionAction::Nothing
                }
            },
            SessionEvent::Subscribed(handle) => {
                if state == SessionState::Admitted {
                    *self = Session {
                        state: SessionState::Active,
                        identity: owned(self.identity.as_str()),
                        subscription: Some(handle),
                    };
                    SessionAction::Announce
                } else {
                    SessionAction::Nothing
                }
            },
            SessionEvent::SubscribeFailed => {
                if state == SessionState::Admitted {
                    self.state = SessionState::Closed;
                }
                SessionAction::Nothing
            },
            SessionEvent::Frame(frame) => {
                if state == SessionState::Active {
                    match frame {
                        InboundFrame::Command(cmd) => SessionAction::Move(cmd),
                        InboundFrame::Malformed => SessionAction::Nothing,
                        InboundFrame::Other => SessionAction::Nothing,
                        InboundFrame::Close => self.begin_closing(),
                        InboundFrame::TransportError => self.begin_closing(),
                    }
                } else {
                    SessionAction::Nothing
                }
            },
            SessionEvent::Delivery(update) => {
                if state == SessionState::Active && update.is_position_update() {
                    SessionAction::Send(update)
                } else {
                    SessionAction::Nothing
                }
            },
            SessionEvent::WriteFailed => {
                if state == SessionState::Active {
                    self.begin_closing()
                } else {
                    SessionAction::Nothing
                }
            },
            SessionEvent::ChannelClosed => {
                if state == SessionState::Active {
                    self.begin_closing()
                } else {
                    SessionAction::Nothing
                }
            },
            SessionEvent::Shutdown => {
                if state == SessionState::Active {
                    self.begin_closing()
                } else if state == SessionState::Connecting || state == SessionState::Admitted {
                    self.state = SessionState::Closed;
                    SessionAction::Nothing
                } else {
                    SessionAction::Nothing
                }
            },
            SessionEvent::Released => {
                if state == SessionState::Closing {
                    *self = Session {
                        state: SessionState::Closed,
                        identity: owned(self.identity.as_str()),
                        subscription: None,
                    };
                }
                SessionAction::Nothing
            },
        }
    }

    /// Leaves the active state and asks for the release of the subscription.
    fn begin_closing(&mut self) -> (r: SessionAction)
        requires
            old(self)@.state == SessionState::Active,
        ensures
            final(self)@ == in_state(old(self)@, SessionState::Closing),
            r@ == SessionActionView::Release(old(self)@.subscription->0),
    {
        proof {
            use_type_invariant(&*self);
        }
        self.state = SessionState::Closing;
        match self.subscription {
            Some(handle) => SessionAction::Release(handle),
            None => SessionAction::Nothing,
        }
    }

    /// Opens a session for a connection on which the admission gate has
    /// decided.
    ///
    /// A refused connection gets no session, and the repository is not
    /// called for it: nothing is read, written, published or registered. An
    /// admitted one is registered with the broadcast channel first, and then
    /// its position is announced, so that the announcement reaches the new
    /// session too. Where the registration fails, its error is returned,
    /// there is no session, and nothing has changed; where the announcement
    /// fails the session is active all the same, and the error stands in
    /// the result.
    pub fn open<R: GameRepository>(
        service: &mut GameService<R>,
        admission: Result<String, AdmissionError>,
    ) -> (r: Result<Opened, AppError>)
        ensures
            match admission {
                Err(reason) => {
                    &&& r matches Err(e) && e@ == refusal(reason)
                    &&& unchanged(old(service).game_repository, final(service).game_repository)
                },
                Ok(identity) => opened_connection(
                    old(service).game_repository,
                    final(service).game_repository,
                    identity@,
                    r,
                ),
            },
    {
        let mut session = Session::connecting();
        match session.step(SessionEvent::Admission(admission)) {
            SessionAction::Refuse(reason) => {
                return Err(reason.to_app_error());
            },
            _ => {},
        }
        let handle = match service.subscribe() {
            Ok(handle) => handle,
            Err(e) => {
                let _ = session.step(SessionEvent::SubscribeFailed);
                return Err(e);
            },
        };
        let _ = session.step(SessionEvent::Subscribed(handle));
        let announced = service.get_initial_position(session.identity());
        Ok(Opened { session, announced })
    }

    /// Ends the session, whatever state it is in, and releases its
    /// subscription if it holds one. On a session that is closed already
    /// this does nothing, so a subscription is released once and no more.
    pub fn close<R: GameRepository>(&mut self, service: &mut GameService<R>)
        ensures
            final(self)@ == (SessionView {
                state: SessionState::Closed,
                identity: old(self)@.identity,
                subscription: None,
            }),
            match old(self)@.subscription {
                Some(handle) => unsubscribed(
                    old(service).game_repository,
                    final(service).game_repository,
                    handle,
                ),
                None => unchanged(old(service).game_repository, final(service).game_repository),
            },
    {
        proof {
            use_type_invariant(&*self);
        }
        let _ = self.step(SessionEvent::Shutdown);
        match self.subscription() {
            Some(handle) => {
                service.unsubscribe(handle);
                let _ = self.step(SessionEvent::Released);
            },
            None => {},
        }
    }

    /// Hands one inbound frame to an active session and does what the state
    /// machine asks for: a command is applied through the service, a close
    /// frame or a transport error ends the session, anything else is passed
    /// over. A command that fails leaves the session active. On a session
    /// that is not active the frame is dropped.
    pub fn deliver<R: GameRepository>(&mut self, service: &mut GameService<R>, frame: InboundFrame) -> (r:
        Outcome)
        ensures
            delivered_frame(
                old(self)@,
                final(self)@,
                old(service).game_repository,
                final(service).game_repository,
                frame@,
                r,
            ),
    {
        proof {
            use_type_invariant(&*self);
        }
        let identity = owned(self.identity.as_str());
        match self.step(SessionEvent::Frame(frame)) {
            SessionAction::Move(cmd) => match service.handle_move(identity.as_str(), cmd) {
                Ok(update) => Outcome::Moved(update),
                Err(e) => Outcome::Failed(e),
            },
            SessionAction::Release(handle) => {
                service.unsubscribe(handle);
                let _ = self.step(SessionEvent::Released);
                Outcome::Closed
            },
            _ => Outcome::Ignored,
        }
    }

    /// Takes the next broadcast event that waits for the session out of
    /// its inbox, and returns it for the caller to write to the client if
    /// its tag is `"update_position"`; an event with another tag is taken
    /// and passed over. `None` also where the session is not active or
    /// nothing waits; the inbox is then as it was.
    pub fn next_outbound(&mut self, service: &mut GameService<MemoryGameRepository>) -> (r: Option<
        PositionUpdate,
    >)
        ensures
            final(self)@ == old(self)@,
            final(service).game_repository.positions() == old(service).game_repository.positions(),
            final(service).game_repository.published() == old(service).game_repository.published(),
            final(service).game_repository.calls() == old(service).game_repository.calls(),
            same_faults(old(service).game_repository, final(service).game_repository),
            if old(self)@.state == SessionState::Active && old(
                service,
            ).game_repository.subscribers().dom().contains(old(self)@.subscription->0) && old(
                service,
            ).game_repository.subscribers()[old(self)@.subscription->0].len() > 0 {
                let handle = old(self)@.subscription->0;
                let inbox = old(service).game_repository.subscribers()[handle];
                &&& final(service).game_repository.subscribers() == old(
                    service,
                ).game_repository.subscribers().insert(handle, inbox.drop_first())
                &&& match r {
                    Some(update) => update@ == inbox[0] && inbox[0].action == update_action(),
                    None => inbox[0].action != update_action(),
                }
            } else {
                &&& r is None
                &&& final(service).game_repository.subscribers() == old(
                    service,
                ).game_repository.subscribers()
            },
    {
        proof {
            use_type_invariant(&*self);
        }
        if self.state != SessionState::Active {
            return None;
        }
        let handle = match self.subscription {
            Some(handle) => handle,
            None => {
                return None;
            },
        };
        match service.game_repository.next_event(handle) {
            Some(update) => match self.step(SessionEvent::Delivery(update)) {
                SessionAction::Send(update) => Some(update),
                _ => None,
            },
            None => None,
        }
    }
}

/// A session that was opened, and what came of announcing its position.
#[derive(Debug)]
pub struct Opened {
    pub session: Session,
    pub announced: Result<PositionUpdate, AppError>,
}

/// What `open` does for an admitted connection: `before` and `after` are the
/// repository before and after the call for `identity`, and `r` is what the
/// call returned.
///
/// The channel is asked for a subscription, once. Where it gives none, its
/// error is returned and there is no session. Else the session is opened as
/// `opened_session` says.
pub open spec fn opened_connection<R: GameRepository>(
    before: R,
    after: R,
    identity: Seq<char>,
    r: Result<Opened, AppError>,
) -> bool {
    if before.subscribe_fault() is Some {
        &&& r matches Err(e) && Some(e@) == before.subscribe_fault()
        &&& same_content(before, after)
        &&& same_faults(before, after)
        &&& after.calls() == before.calls().push(RepositoryCall::Subscribe)
    } else {
        r matches Ok(opened) && opened_session(before, after, identity, opened)
    }
}

/// What `open` does once the subscription is registered: `before` and
/// `after` are the repository before and after the call for `identity`, and
/// `opened` is what the call returned.
///
/// The session is active under `identity`, with a subscription that no one
/// held before and that starts empty. Nothing is stored. The position of
/// `identity` is read, once; its stored position, `(1, 1)` where it has
/// none, is published, once, and delivered to every subscriber, the new one
/// among them. Where the read or the publication fails, that error stands
/// in the result, nothing is published, and the session is active all the
/// same.
pub open spec fn opened_session<R: GameRepository>(
    before: R,
    after: R,
    identity: Seq<char>,
    opened: Opened,
) -> bool {
    let s = opened.session@;
    let handle = s.subscription->0;
    let registered = before.subscribers().insert(handle, Seq::<PositionUpdateView>::empty());
    let at = position_of(before.positions(), identity);
    let update = update_for(identity, at.0, at.1);
    let read = before.calls().push(RepositoryCall::Subscribe).push(RepositoryCall::Read(identity));
    &&& s == (SessionView { state: SessionState::Active, identity, subscription: Some(handle) })
    &&& !before.subscribers().dom().contains(handle)
    &&& after.positions() == before.positions()
    &&& after.read_fault() == before.read_fault()
    &&& after.write_fault() == before.write_fault()
    &&& after.publish_fault() == before.publish_fault()
    &&& if before.read_fault() is Some {
        &&& opened.announced matches Err(e) && Some(e@) == before.read_fault()
        &&& after.published() == before.published()
        &&& after.subscribers() == registered
        &&& after.calls() == read
    } else if before.publish_fault() is Some {
        &&& opened.announced matches Err(e) && Some(e@) == before.publish_fault()
        &&& after.published() == before.published()
        &&& after.subscribers() == registered
        &&& after.calls() == read.push(RepositoryCall::Publish(update))
    } else {
        &&& opened.announced matches Ok(returned) && returned@ == update
        &&& after.published() == before.published().push(update)
        &&& after.subscribers() == delivered(registered, update)
        &&& after.calls() == read.push(RepositoryCall::Publish(update))
    }
}

/// What came of one inbound frame.
#[derive(Debug)]
pub enum Outcome {
    /// The frame held a command, and this update was stored and published.
    Moved(PositionUpdate),
    /// The frame held a command, and applying it failed.
    Failed(AppError),
    /// The frame was passed over.
    Ignored,
    /// The frame ended the session.
    Closed,
}

/// Whether the repository `after` is as `before` was: it holds the same,
/// fails the same, and was not called in between.
pub open spec fn unchanged<R: GameRepository>(before: R, after: R) -> bool {
    &&& same_content(before, after)
    &&& same_faults(before, after)
    &&& after.calls() == before.calls()
}

/// What `deliver` does: `s0` and `s1` are the session, `before` and `after`
/// the repository, before and after the call for the frame `frame`, and `r`
/// is what the call returned.
///
/// A session that is not active drops the frame. An active one applies a
/// command as `handled` says and stays as it is, whether the command
/// succeeds or fails; passes over a frame that holds no command; and on a
/// close frame or a transport error releases its subscription and is
/// closed.
pub open spec fn delivered_frame<R: GameRepository>(
    s0: SessionView,
    s1: SessionView,
    before: R,
    after: R,
    frame: InboundFrameView,
    r: Outcome,
) -> bool {
    if s0.state != SessionState::Active {
        s1 == s0 && unchanged(before, after) && r is Ignored
    } else {
        match frame {
            InboundFrameView::Command(cmd) => {
                &&& s1 == s0
                &&& match r {
                    Outcome::Moved(update) => handled(
                        before,
                        after,
                        s0.identity,
                        cmd,
                        Ok::<PositionUpdate, AppError>(update),
                    ),
                    Outcome::Failed(e) => handled(
                        before,
                        after,
                        s0.identity,
                        cmd,
                        Err::<PositionUpdate, AppError>(e),
                    ),
                    _ => false,
                }
            },
            InboundFrameView::Malformed => s1 == s0 && unchanged(before, after) && r is Ignored,
            InboundFrameView::Other => s1 == s0 && unchanged(before, after) && r is Ignored,
            _ => {
                &&& r is Closed
                &&& s1 == (SessionView {
                    state: SessionState::Closed,
                    identity: s0.identity,
                    subscription: None,
                })
                &&& unsubscribed(before, after, s0.subscription->0)
            },
        }
    }
}

/// The session that `s` becomes when the events `events` happen one after
/// the other.
pub open spec fn after_events(s: SessionView, events: Seq<SessionEventView>) -> SessionView
    decreases events.len(),
{
    if events.len() == 0 {
        s
    } else {
        step_spec(after_events(s, events.drop_last()), events.last()).0
    }
}

/// Whether an action reads, writes, publishes or registers anything.
pub open spec fn has_side_effect(action: SessionActionView) -> bool {
    action is Subscribe || action is Announce || action is Move || action is Send
}

/// A step keeps a session consistent.
pub proof fn lemma_step_keeps_consistency(s: SessionView, e: SessionEventView)
    requires
        consistent(s),
    ensures
        consistent(step_spec(s, e).0),
{
}

/// A closed session stays closed and asks for nothing, whatever happens.
pub proof fn lemma_closed_is_final(s: SessionView, e: SessionEventView)
    requires
        s.state == SessionState::Closed,
    ensures
        step_spec(s, e) == (s, SessionActionView::Nothing),
{
}

/// A connection whose credential is refused gets an answer and nothing
/// else: the session is closed at once, and whatever happens afterwards it
/// never asks to subscribe, to announce, to move or to send.
pub proof fn lemma_refused_connection_has_no_effect(
    s: SessionView,
    reason: AdmissionError,
    later: Seq<SessionEventView>,
    next: SessionEventView,
)
    requires
        s.state == SessionState::Connecting,
    ensures
        step_spec(s, SessionEventView::Refused(reason)).1 == SessionActionView::Refuse(reason),
        step_spec(s, SessionEventView::Refused(reason)).0.state == SessionState::Closed,
        after_events(step_spec(s, SessionEventView::Refused(reason)).0, later).state
            == SessionState::Closed,
        !has_side_effect(
            step_spec(after_events(step_spec(s, SessionEventView::Refused(reason)).0, later), next).1,
        ),
    decreases later.len(),
{
    let refused = step_spec(s, SessionEventView::Refused(reason)).0;
    if later.len() > 0 {
        lemma_refused_connection_has_no_effect(s, reason, later.drop_last(), later.last());
    }
}

/// Before a session is admitted it asks for nothing but the answer to its
/// handshake: admission comes before every side effect.
pub proof fn lemma_no_effect_before_admission(s: SessionView, e: SessionEventView)
    requires
        s.state == SessionState::Connecting,
        !(e is Admitted),
    ensures
        !has_side_effect(step_spec(s, e).1),
        step_spec(s, e).0.state == SessionState::Connecting || step_spec(s, e).0.state
            == SessionState::Closed,
{
}

/// A frame that holds no command does not end the session nor change it,
/// and the command that follows is applied as if nothing had come before.
pub proof fn lemma_malformed_frame_keeps_the_session(s: SessionView, cmd: MoveCommandView)
    requires
        s.state == SessionState::Active,
    ensures
        step_spec(s, SessionEventView::Frame(InboundFrameView::Malformed)) == (
            s,
            SessionActionView::Nothing,
        ),
        step_spec(
            step_spec(s, SessionEventView::Frame(InboundFrameView::Malformed)).0,
            SessionEventView::Frame(InboundFrameView::Command(cmd)),
        ) == (s, SessionActionView::Move(cmd)),
{
}

/// The release of a subscription is asked for when the session leaves the
/// active state, with the handle that the session holds, and by no step
/// from any other state: whichever of reading and relaying ends the session
/// first, the subscription is released once.
pub proof fn lemma_release_is_asked_once(s: SessionView, e: SessionEventView)
    requires
        consistent(s),
    ensures
        step_spec(s, e).1 is Release <==> (s.state == SessionState::Active && step_spec(s, e).0.state
            == SessionState::Closing),
        step_spec(s, e).1 is Release ==> s.subscription == Some(step_spec(s, e).1->Release_0),
        step_spec(s, e).0.state == SessionState::Closed ==> step_spec(s, e).0.subscription is None,
{
}

/// The states are passed in one direction: no step leads back.
pub proof fn lemma_states_only_advance(s: SessionView, e: SessionEventView)
    ensures
        state_rank(step_spec(s, e).0.state) >= state_rank(s.state),
{
}

/// The place of a state in the life of a session.
pub open spec fn state_rank(state: SessionState) -> int {
    match state {
        SessionState::Connecting => 0,
        SessionState::Admitted => 1,
        SessionState::Active => 2,
        SessionState::Closing => 3,
        SessionState::Closed => 4,
    }
}

/// Only an event with the tag `"update_position"` is sent to the client,
/// and it is sent as it came; an event with another tag is passed over and
/// the session goes on.
pub proof fn lemma_only_position_updates_are_relayed(s: SessionView, update: PositionUpdateView)
    requires
        s.state == SessionState::Active,
    ensures
        step_spec(s, SessionEventView::Delivery(update)).0 == s,
        update.action == update_action() ==> step_spec(s, SessionEventView::Delivery(update)).1
            == SessionActionView::Send(update),
        update.action != update_action() ==> step_spec(s, SessionEventView::Delivery(update)).1
            == SessionActionView::Nothing,
{
}

} // verus!
