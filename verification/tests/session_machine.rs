use inner_shelter::admission::AdmissionError;
use inner_shelter::entities::{MoveCommand, PositionUpdate};
use inner_shelter::errors::AppError;
use inner_shelter::repository::{GameRepository, MemoryGameRepository};
use inner_shelter::service::GameService;
use inner_shelter::session::{
    classify_decoded, classify_text, InboundFrame, Opened, Outcome, Session, SessionAction,
    SessionEvent, SessionState,
};

fn service() -> GameService<MemoryGameRepository> {
    GameService::new(MemoryGameRepository::new())
}

fn open_for(svc: &mut GameService<MemoryGameRepository>, identity: &str) -> Session {
    let Opened { session, announced } = Session::open(svc, Ok(identity.to_string())).unwrap();
    assert!(announced.is_ok());
    session
}

fn active(identity: &str, handle: u64) -> Session {
    let mut session = Session::connecting();
    session.step(SessionEvent::Admission(Ok(identity.to_string())));
    session.step(SessionEvent::Subscribed(handle));
    session
}

fn drain(svc: &mut GameService<MemoryGameRepository>, session: &mut Session) -> Vec<(String, i32, i32)> {
    let mut seen = Vec::new();
    while let Some(update) = session.next_outbound(svc) {
        seen.push((update.username, update.x, update.y));
    }
    seen
}

#[test]
fn a_new_session_is_connecting() {
    let session = Session::connecting();
    assert_eq!(session.state(), SessionState::Connecting);
    assert_eq!(session.identity(), "");
    assert_eq!(session.subscription(), None);
}

#[test]
fn the_states_follow_each_other() {
    let mut session = Session::connecting();
    assert!(matches!(
        session.step(SessionEvent::Admission(Ok("alice".to_string()))),
        SessionAction::Subscribe
    ));
    assert_eq!(session.state(), SessionState::Admitted);
    assert_eq!(session.identity(), "alice");
    assert!(matches!(session.step(SessionEvent::Subscribed(7)), SessionAction::Announce));
    assert_eq!(session.state(), SessionState::Active);
    assert_eq!(session.subscription(), Some(7));
    assert!(matches!(
        session.step(SessionEvent::Frame(InboundFrame::Close)),
        SessionAction::Release(7)
    ));
    assert_eq!(session.state(), SessionState::Closing);
    assert_eq!(session.subscription(), Some(7));
    assert!(matches!(session.step(SessionEvent::Released), SessionAction::Nothing));
    assert_eq!(session.state(), SessionState::Closed);
    assert_eq!(session.subscription(), None);
    assert_eq!(session.identity(), "alice");
}

#[test]
fn a_refused_connection_is_closed_at_once() {
    let mut session = Session::connecting();
    assert!(matches!(
        session.step(SessionEvent::Admission(Err(AdmissionError::MissingCredential))),
        SessionAction::Refuse(AdmissionError::MissingCredential)
    ));
    assert_eq!(session.state(), SessionState::Closed);
    let mut session = Session::connecting();
    assert!(matches!(
        session.step(SessionEvent::Admission(Err(AdmissionError::InvalidCredential))),
        SessionAction::Refuse(AdmissionError::InvalidCredential)
    ));
    assert_eq!(session.state(), SessionState::Closed);
}

#[test]
fn a_closed_session_asks_for_nothing() {
    let mut session = Session::connecting();
    session.step(SessionEvent::Admission(Err(AdmissionError::InvalidCredential)));
    assert!(matches!(
        session.step(SessionEvent::Admission(Ok("alice".to_string()))),
        SessionAction::Nothing
    ));
    assert!(matches!(session.step(SessionEvent::Subscribed(1)), SessionAction::Nothing));
    assert!(matches!(
        session.step(SessionEvent::Frame(InboundFrame::Command(MoveCommand::new(1, 1)))),
        SessionAction::Nothing
    ));
    assert!(matches!(
        session.step(SessionEvent::Delivery(PositionUpdate::new("bob", 1, 1))),
        SessionAction::Nothing
    ));
    assert!(matches!(session.step(SessionEvent::WriteFailed), SessionAction::Nothing));
    assert!(matches!(session.step(SessionEvent::Shutdown), SessionAction::Nothing));
    assert!(matches!(session.step(SessionEvent::Released), SessionAction::Nothing));
    assert_eq!(session.state(), SessionState::Closed);
    assert_eq!(session.subscription(), None);
}

#[test]
fn a_failed_subscription_closes_an_admitted_session() {
    let mut session = Session::connecting();
    session.step(SessionEvent::Admission(Ok("alice".to_string())));
    assert!(matches!(session.step(SessionEvent::SubscribeFailed), SessionAction::Nothing));
    assert_eq!(session.state(), SessionState::Closed);
    assert_eq!(session.subscription(), None);
}

#[test]
fn an_active_session_turns_frames_into_actions() {
    let mut session = active("alice", 3);
    match session.step(SessionEvent::Frame(InboundFrame::Command(MoveCommand::new(2, -2)))) {
        SessionAction::Move(cmd) => assert_eq!((cmd.action.as_str(), cmd.dx, cmd.dy), ("move", 2, -2)),
        other => panic!("unexpected action: {:?}", other),
    }
    assert!(matches!(session.step(SessionEvent::Frame(InboundFrame::Malformed)), SessionAction::Nothing));
    assert!(matches!(session.step(SessionEvent::Frame(InboundFrame::Other)), SessionAction::Nothing));
    assert_eq!(session.state(), SessionState::Active);
    match session.step(SessionEvent::Delivery(PositionUpdate::new("bob", 4, 5))) {
        SessionAction::Send(update) => {
            assert_eq!((update.username.as_str(), update.x, update.y), ("bob", 4, 5))
        }
        other => panic!("unexpected action: {:?}", other),
    }
    assert_eq!(session.state(), SessionState::Active);
}

#[test]
fn every_way_out_of_the_active_state_asks_for_one_release() {
    let mut by_close = active("a", 11);
    assert!(matches!(by_close.step(SessionEvent::Frame(InboundFrame::Close)), SessionAction::Release(11)));
    let mut by_error = active("a", 12);
    assert!(matches!(
        by_error.step(SessionEvent::Frame(InboundFrame::TransportError)),
        SessionAction::Release(12)
    ));
    let mut by_write = active("a", 13);
    assert!(matches!(by_write.step(SessionEvent::WriteFailed), SessionAction::Release(13)));
    let mut by_channel = active("a", 14);
    assert!(matches!(by_channel.step(SessionEvent::ChannelClosed), SessionAction::Release(14)));
    let mut by_shutdown = active("a", 15);
    assert!(matches!(by_shutdown.step(SessionEvent::Shutdown), SessionAction::Release(15)));
    assert_eq!(by_shutdown.state(), SessionState::Closing);
    assert!(matches!(by_shutdown.step(SessionEvent::WriteFailed), SessionAction::Nothing));
    assert!(matches!(by_shutdown.step(SessionEvent::ChannelClosed), SessionAction::Nothing));
    assert!(matches!(
        by_shutdown.step(SessionEvent::Frame(InboundFrame::Close)),
        SessionAction::Nothing
    ));
    assert!(matches!(by_shutdown.step(SessionEvent::Shutdown), SessionAction::Nothing));
    assert_eq!(by_shutdown.state(), SessionState::Closing);
}

#[test]
fn a_shutdown_before_the_session_is_active_closes_it() {
    let mut connecting = Session::connecting();
    assert!(matches!(connecting.step(SessionEvent::Shutdown), SessionAction::Nothing));
    assert_eq!(connecting.state(), SessionState::Closed);
    let mut admitted = Session::connecting();
    admitted.step(SessionEvent::Admission(Ok("a".to_string())));
    assert!(matches!(admitted.step(SessionEvent::Shutdown), SessionAction::Nothing));
    assert_eq!(admitted.state(), SessionState::Closed);
}

#[test]
fn events_out_of_turn_change_nothing() {
    let mut session = Session::connecting();
    assert!(matches!(session.step(SessionEvent::Subscribed(1)), SessionAction::Nothing));
    assert!(matches!(session.step(SessionEvent::Released), SessionAction::Nothing));
    assert!(matches!(
        session.step(SessionEvent::Frame(InboundFrame::Command(MoveCommand::new(1, 1)))),
        SessionAction::Nothing
    ));
    assert_eq!(session.state(), SessionState::Connecting);
    let mut session = active("a", 1);
    assert!(matches!(
        session.step(SessionEvent::Admission(Ok("b".to_string()))),
        SessionAction::Nothing
    ));
    assert!(matches!(session.step(SessionEvent::Subscribed(2)), SessionAction::Nothing));
    assert!(matches!(session.step(SessionEvent::Released), SessionAction::Nothing));
    assert_eq!(session.state(), SessionState::Active);
    assert_eq!(session.identity(), "a");
    assert_eq!(session.subscription(), Some(1));
}

#[test]
fn text_frames_are_classified_by_their_payload() {
    match classify_text("{\"action\":\"move\",\"dx\":1,\"dy\":2}") {
        InboundFrame::Command(cmd) => assert_eq!((cmd.dx, cmd.dy), (1, 2)),
        other => panic!("unexpected frame: {:?}", other),
    }
    assert!(matches!(classify_text("not json"), InboundFrame::Malformed));
    assert!(matches!(classify_text("{\"action\":\"move\"}"), InboundFrame::Malformed));
    assert!(matches!(classify_decoded(None), InboundFrame::Malformed));
    assert!(matches!(classify_decoded(Some(MoveCommand::new(0, 0))), InboundFrame::Command(_)));
}

#[test]
fn a_refused_connection_leaves_no_trace() {
    let mut svc = service();
    svc.game_repository.set_position("alice", 3, 3).unwrap();
    let watcher = svc.subscribe().unwrap();
    let result = Session::open(&mut svc, Err(AdmissionError::MissingCredential));
    match result {
        Err(AppError::AuthError(message)) => assert_eq!(message, "Missing credential"),
        other => panic!("unexpected result: {:?}", other),
    }
    let result = Session::open(&mut svc, Err(AdmissionError::InvalidCredential));
    match result {
        Err(AppError::AuthError(message)) => assert_eq!(message, "Invalid credential"),
        other => panic!("unexpected result: {:?}", other),
    }
    assert_eq!(svc.game_repository.subscriber_count(), 1);
    assert_eq!(svc.game_repository.pending(watcher), 0);
    assert_eq!(svc.game_repository.get_position("alice").unwrap(), (3, 3));
}

#[test]
fn opening_a_session_subscribes_and_announces() {
    let mut svc = service();
    let watcher = svc.subscribe().unwrap();
    let Opened { session, announced } = Session::open(&mut svc, Ok("alice".to_string())).unwrap();
    let update = announced.unwrap();
    assert_eq!((update.username.as_str(), update.x, update.y), ("alice", 1, 1));
    assert_eq!(session.state(), SessionState::Active);
    assert_eq!(session.identity(), "alice");
    let handle = session.subscription().unwrap();
    assert_ne!(handle, watcher);
    assert_eq!(svc.game_repository.subscriber_count(), 2);
    assert_eq!(svc.game_repository.pending(handle), 1);
    assert_eq!(svc.game_repository.pending(watcher), 1);
}

#[test]
fn a_session_cannot_open_while_the_channel_is_out_of_reach() {
    let mut svc = service();
    svc.game_repository.set_reachable(false);
    let result = Session::open(&mut svc, Ok("alice".to_string()));
    assert!(matches!(result, Err(AppError::DbError(_))));
    svc.game_repository.set_reachable(true);
    assert_eq!(svc.game_repository.subscriber_count(), 0);
}

#[test]
fn a_move_of_one_session_is_seen_by_both() {
    let mut svc = service();
    let mut a = open_for(&mut svc, "a");
    let mut b = open_for(&mut svc, "b");
    drain(&mut svc, &mut a);
    drain(&mut svc, &mut b);
    let frame = classify_text("{\"action\":\"move\",\"dx\":4,\"dy\":2}");
    match a.deliver(&mut svc, frame) {
        Outcome::Moved(update) => assert_eq!((update.username.as_str(), update.x, update.y), ("a", 5, 3)),
        other => panic!("unexpected outcome: {:?}", other),
    }
    assert_eq!(drain(&mut svc, &mut b), vec![("a".to_string(), 5, 3)]);
    assert_eq!(drain(&mut svc, &mut a), vec![("a".to_string(), 5, 3)]);
}

#[test]
fn a_late_session_sees_nothing_of_what_came_before() {
    let mut svc = service();
    let mut a = open_for(&mut svc, "a");
    a.deliver(&mut svc, InboundFrame::Command(MoveCommand::new(1, 1)));
    let mut b = open_for(&mut svc, "b");
    assert_eq!(drain(&mut svc, &mut b), vec![("b".to_string(), 1, 1)]);
    assert_eq!(
        drain(&mut svc, &mut a),
        vec![("a".to_string(), 1, 1), ("a".to_string(), 2, 2), ("b".to_string(), 1, 1)]
    );
}

#[test]
fn a_closed_session_receives_nothing_more() {
    let mut svc = service();
    let mut a = open_for(&mut svc, "a");
    let mut b = open_for(&mut svc, "b");
    let handle_a = a.subscription().unwrap();
    assert!(matches!(a.deliver(&mut svc, InboundFrame::Close), Outcome::Closed));
    assert_eq!(a.state(), SessionState::Closed);
    assert_eq!(a.subscription(), None);
    assert!(!svc.game_repository.is_subscribed(handle_a));
    assert_eq!(svc.game_repository.subscriber_count(), 1);
    drain(&mut svc, &mut b);
    assert!(matches!(
        b.deliver(&mut svc, InboundFrame::Command(MoveCommand::new(1, 0))),
        Outcome::Moved(_)
    ));
    assert_eq!(svc.game_repository.pending(handle_a), 0);
    assert!(a.next_outbound(&mut svc).is_none());
    assert_eq!(drain(&mut svc, &mut b), vec![("b".to_string(), 2, 1)]);
}

#[test]
fn closing_twice_releases_once() {
    let mut svc = service();
    let mut a = open_for(&mut svc, "a");
    let b = open_for(&mut svc, "b");
    a.close(&mut svc);
    assert_eq!(a.state(), SessionState::Closed);
    assert_eq!(svc.game_repository.subscriber_count(), 1);
    a.close(&mut svc);
    assert_eq!(a.state(), SessionState::Closed);
    assert_eq!(svc.game_repository.subscriber_count(), 1);
    assert!(svc.game_repository.is_subscribed(b.subscription().unwrap()));
}

#[test]
fn closing_releases_a_session_that_was_left_closing() {
    let mut svc = service();
    let mut a = open_for(&mut svc, "a");
    let handle = a.subscription().unwrap();
    assert!(matches!(a.step(SessionEvent::WriteFailed), SessionAction::Release(_)));
    assert!(svc.game_repository.is_subscribed(handle));
    a.close(&mut svc);
    assert!(!svc.game_repository.is_subscribed(handle));
    assert_eq!(a.state(), SessionState::Closed);
}

#[test]
fn a_transport_error_ends_the_session() {
    let mut svc = service();
    let mut a = open_for(&mut svc, "a");
    assert!(matches!(a.deliver(&mut svc, InboundFrame::TransportError), Outcome::Closed));
    assert_eq!(a.state(), SessionState::Closed);
    assert_eq!(svc.game_repository.subscriber_count(), 0);
    assert!(matches!(
        a.deliver(&mut svc, InboundFrame::Command(MoveCommand::new(1, 1))),
        Outcome::Ignored
    ));
    assert_eq!(svc.game_repository.get_position("a").unwrap(), (1, 1));
}

#[test]
fn malformed_json_does_not_end_the_session() {
    let mut svc = service();
    let mut a = open_for(&mut svc, "a");
    drain(&mut svc, &mut a);
    assert!(matches!(a.deliver(&mut svc, classify_text("{{{ not json")), Outcome::Ignored));
    assert!(matches!(a.deliver(&mut svc, classify_text("")), Outcome::Ignored));
    assert!(matches!(a.deliver(&mut svc, InboundFrame::Other), Outcome::Ignored));
    assert_eq!(a.state(), SessionState::Active);
    assert_eq!(svc.game_repository.pending(a.subscription().unwrap()), 0);
    let frame = classify_text("{\"action\":\"move\",\"dx\":1,\"dy\":1}");
    match a.deliver(&mut svc, frame) {
        Outcome::Moved(update) => assert_eq!((update.x, update.y), (2, 2)),
        other => panic!("unexpected outcome: {:?}", other),
    }
}

#[test]
fn a_failed_move_leaves_the_session_active() {
    let mut svc = service();
    let mut a = open_for(&mut svc, "a");
    drain(&mut svc, &mut a);
    let wrong = classify_text("{\"action\":\"fly\",\"dx\":1,\"dy\":1}");
    match a.deliver(&mut svc, wrong) {
        Outcome::Failed(AppError::ValidationError(message)) => assert_eq!(message, "Invalid action"),
        other => panic!("unexpected outcome: {:?}", other),
    }
    svc.game_repository.set_reachable(false);
    assert!(matches!(
        a.deliver(&mut svc, InboundFrame::Command(MoveCommand::new(1, 1))),
        Outcome::Failed(AppError::DbError(_))
    ));
    svc.game_repository.set_reachable(true);
    assert_eq!(a.state(), SessionState::Active);
    assert!(matches!(
        a.deliver(&mut svc, InboundFrame::Command(MoveCommand::new(1, 1))),
        Outcome::Moved(_)
    ));
    assert_eq!(drain(&mut svc, &mut a), vec![("a".to_string(), 2, 2)]);
}

#[test]
fn a_reconnecting_player_resumes_its_position() {
    let mut svc = service();
    let mut first = open_for(&mut svc, "a");
    first.deliver(&mut svc, InboundFrame::Command(MoveCommand::new(6, 3)));
    first.close(&mut svc);
    let Opened { session, announced } = Session::open(&mut svc, Ok("a".to_string())).unwrap();
    let update = announced.unwrap();
    assert_eq!((update.x, update.y), (7, 4));
    assert_eq!(session.state(), SessionState::Active);
}

fn tagged(action: &str, username: &str, x: i32, y: i32) -> PositionUpdate {
    PositionUpdate { action: action.to_string(), username: username.to_string(), x, y }
}

#[test]
fn only_position_updates_are_sent_to_the_client() {
    let mut session = active("a", 1);
    assert!(matches!(
        session.step(SessionEvent::Delivery(tagged("chat", "b", 1, 1))),
        SessionAction::Nothing
    ));
    assert!(matches!(
        session.step(SessionEvent::Delivery(tagged("", "b", 1, 1))),
        SessionAction::Nothing
    ));
    assert_eq!(session.state(), SessionState::Active);
    match session.step(SessionEvent::Delivery(tagged("update_position", "b", 2, 3))) {
        SessionAction::Send(update) => {
            assert_eq!(update.action, "update_position");
            assert_eq!((update.username.as_str(), update.x, update.y), ("b", 2, 3));
        }
        other => panic!("unexpected action: {:?}", other),
    }
}

#[test]
fn an_event_with_another_tag_is_taken_and_passed_over() {
    let mut svc = service();
    let mut a = open_for(&mut svc, "a");
    drain(&mut svc, &mut a);
    svc.game_repository.publish_position_update(&tagged("chat", "b", 1, 1)).unwrap();
    svc.game_repository.publish_position_update(&tagged("update_position", "b", 4, 4)).unwrap();
    let handle = a.subscription().unwrap();
    assert_eq!(svc.game_repository.pending(handle), 2);
    assert!(a.next_outbound(&mut svc).is_none());
    assert_eq!(svc.game_repository.pending(handle), 1);
    let update = a.next_outbound(&mut svc).unwrap();
    assert_eq!((update.username.as_str(), update.x, update.y), ("b", 4, 4));
    assert!(a.next_outbound(&mut svc).is_none());
    assert_eq!(a.state(), SessionState::Active);
}

#[test]
fn a_session_opens_although_its_announcement_fails() {
    let mut svc = service();
    svc.game_repository.set_outage(inner_shelter::repository::Outage {
        read: false,
        write: false,
        publish: true,
        subscribe: false,
    });
    let Opened { session, announced } = Session::open(&mut svc, Ok("a".to_string())).unwrap();
    assert!(matches!(announced, Err(AppError::DbError(_))));
    assert_eq!(session.state(), SessionState::Active);
    assert!(svc.game_repository.is_subscribed(session.subscription().unwrap()));
    assert_eq!(svc.game_repository.pending(session.subscription().unwrap()), 0);
}
