use flixparty::model::Message;
use flixparty::model::Op;
use flixparty::session::after_attempt;
use flixparty::session::retries_exhausted_message;
use flixparty::session::AfterAttempt;
use flixparty::session::ConnectFailure;
use flixparty::session::Reaction;
use flixparty::session::ServerFailure;
use flixparty::session::Session;
use flixparty::session::MAX_RETRIES;

#[test]
fn own_toggle_only_measures_round_trip() {
    let s = Session::new("me".to_string());
    let own = s.toggle_request();
    assert_eq!(s.react(&own, true), Reaction::RoundTrip);
}

#[test]
fn peer_toggle_toggles_without_round_trip() {
    let s = Session::new("me".to_string());
    let other = Message { sender: "you".to_string(), op: Op::TogglePlay };
    assert_eq!(s.react(&other, false), Reaction::TogglePlayback);
    assert_eq!(s.react(&other, true), Reaction::TogglePlayback);
}

#[test]
fn introductions_toggle_nothing() {
    let s = Session::new("me".to_string());
    let intro = Message { sender: "you".to_string(), op: Op::Introduce };
    assert_eq!(s.react(&intro, false), Reaction::PeerJoined);
    assert_eq!(s.react(&s.introduction(), false), Reaction::PeerJoined);
}

#[test]
fn which_failures_end_the_retries() {
    assert_eq!(after_attempt(&Ok(())), AfterAttempt::Retry);
    assert_eq!(after_attempt(&Err(ConnectFailure::Local)), AfterAttempt::GiveUp);
    assert_eq!(after_attempt(&Err(ConnectFailure::Server(ServerFailure::Parse))), AfterAttempt::GiveUp);
    assert_eq!(
        after_attempt(&Err(ConnectFailure::Server(ServerFailure::AuthenticationFailed))),
        AfterAttempt::GiveUp
    );
    assert_eq!(after_attempt(&Err(ConnectFailure::Server(ServerFailure::ReadOnly))), AfterAttempt::GiveUp);
    assert_eq!(after_attempt(&Err(ConnectFailure::Server(ServerFailure::Other))), AfterAttempt::Retry);
}

#[test]
fn exhausted_message_names_the_budget() {
    assert_eq!(MAX_RETRIES, 5);
    assert_eq!(retries_exhausted_message(), format!("Connection failed after {MAX_RETRIES} consecutive retries"));
}
