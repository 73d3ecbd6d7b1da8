use bitsong::transport::{Transport, TransportAction, TransportCommand};

#[test]
fn new_transport_is_stopped() {
    let t = Transport::new();
    assert!(!t.is_playing());
    assert!(!t.is_paused());
    assert!(!t.has_source());
}

#[test]
fn play_starts_from_beginning_then_is_idempotent() {
    let mut t = Transport::new();
    assert_eq!(t.plan(TransportCommand::Play), TransportAction::Start { from_pause: false });
    t.commit(TransportCommand::Play);
    assert!(t.is_playing());
    assert!(t.has_source());
    assert_eq!(t.plan(TransportCommand::Play), TransportAction::Nothing);
    t.commit(TransportCommand::Play);
    assert!(t.is_playing());
    assert!(!t.is_paused());
}

#[test]
fn pause_then_play_resumes() {
    let mut t = Transport::new();
    t.commit(TransportCommand::Play);
    assert_eq!(t.plan(TransportCommand::Pause), TransportAction::StopAndRemember);
    t.commit(TransportCommand::Pause);
    assert!(!t.is_playing());
    assert!(t.is_paused());
    assert_eq!(t.plan(TransportCommand::Play), TransportAction::Start { from_pause: true });
    t.commit(TransportCommand::Play);
    assert!(t.is_playing());
    assert!(!t.is_paused());
}

#[test]
fn pause_when_stopped_does_nothing() {
    let mut t = Transport::new();
    assert_eq!(t.plan(TransportCommand::Pause), TransportAction::Nothing);
    t.commit(TransportCommand::Pause);
    assert!(!t.is_paused());
    assert!(!t.is_playing());
}

#[test]
fn reset_without_source_does_nothing() {
    let mut t = Transport::new();
    assert_eq!(t.plan(TransportCommand::Reset), TransportAction::Nothing);
    t.commit(TransportCommand::Reset);
    assert!(!t.has_source());
}

#[test]
fn reset_rewinds() {
    let mut t = Transport::new();
    t.commit(TransportCommand::Play);
    t.commit(TransportCommand::Pause);
    assert_eq!(t.plan(TransportCommand::Reset), TransportAction::StopAndRewind);
    t.commit(TransportCommand::Reset);
    assert!(!t.is_playing());
    assert!(!t.is_paused());
    assert!(t.has_source());
    assert_eq!(t.plan(TransportCommand::Play), TransportAction::Start { from_pause: false });
}

#[test]
fn reload_keeps_flags() {
    let mut t = Transport::new();
    assert_eq!(t.plan(TransportCommand::ReloadAndPlay), TransportAction::Restart { stop_current: false });
    t.commit(TransportCommand::ReloadAndPlay);
    assert!(!t.is_playing());
    assert!(!t.is_paused());
    assert!(t.has_source());
    assert_eq!(t.plan(TransportCommand::ReloadAndPlay), TransportAction::Restart { stop_current: true });
    t.commit(TransportCommand::Play);
    t.commit(TransportCommand::ReloadAndPlay);
    assert!(t.is_playing());
}
