use queuebot::commands::{self, CommandError, PlayOutcome};
use queuebot::queue::IndexError;
use queuebot::registry::Registry;
use queuebot::session::{PlaybackError, PlaybackState, Transition};
use queuebot::track::Track;

fn track(title: &str) -> Track<u32> {
    Track::from_src(0, Some(title.to_string()), Some(75), Some(String::new())).unwrap()
}

#[test]
fn registry_join_find_leave() {
    let mut reg: Registry<u32> = Registry::new();
    assert_eq!(reg.find(4), None);
    let i = reg.join(4);
    let j = reg.join(8);
    assert_ne!(i, j);
    assert_eq!(reg.join(4), i);
    assert_eq!(reg.sessions.len(), 2);
    assert_eq!(reg.find(8), Some(j));
    assert_eq!(reg.get(8).unwrap().id(), 8);
    assert!(reg.leave(4));
    assert!(!reg.leave(4));
    assert!(reg.get(4).is_none());
    assert_eq!(reg.sessions.len(), 1);
}

#[test]
fn play_starts_then_queues() {
    let mut reg = Registry::new();
    reg.join(1);
    assert_eq!(
        commands::play(&mut reg, 1, track("A")),
        Ok(PlayOutcome::NowPlaying { generation: 1 })
    );
    assert_eq!(commands::play(&mut reg, 1, track("B")), Ok(PlayOutcome::AddedToQueue));
    assert_eq!(
        commands::queue(&reg, 1).unwrap(),
        vec!["1: A [1:15]", "2: B [1:15]"]
    );
    assert_eq!(commands::play(&mut reg, 2, track("C")), Err(CommandError::NoSession));
}

#[test]
fn commands_on_missing_session() {
    let mut reg: Registry<u32> = Registry::new();
    assert_eq!(commands::skip(&mut reg, 3), Err(CommandError::NoSession));
    assert_eq!(commands::remove(&mut reg, 3, 2).err(), Some(CommandError::NoSession));
    assert_eq!(commands::pause(&reg, 3), Err(CommandError::NoSession));
    assert_eq!(commands::unpause(&reg, 3), Err(CommandError::NoSession));
    assert_eq!(commands::queue(&reg, 3), Err(CommandError::NoSession));
    assert_eq!(commands::track_end(&mut reg, 3, 1), Transition::Ignored);
    assert!(!commands::engine_error(&mut reg, 3));
}

#[test]
fn sessions_are_independent() {
    let mut reg = Registry::new();
    reg.join(1);
    reg.join(2);
    commands::play(&mut reg, 1, track("A")).unwrap();
    commands::play(&mut reg, 1, track("B")).unwrap();
    commands::play(&mut reg, 2, track("Z")).unwrap();
    assert_eq!(commands::skip(&mut reg, 1), Ok(Transition::NowPlaying { generation: 3 }));
    assert_eq!(commands::queue(&reg, 2).unwrap(), vec!["1: Z [1:15]"]);
    assert_eq!(commands::track_end(&mut reg, 2, 1), Transition::Ended);
    assert_eq!(commands::queue(&reg, 1).unwrap(), vec!["1: B [1:15]"]);
    assert_eq!(reg.get(2).unwrap().state(), PlaybackState::Idle);
}

#[test]
fn remove_and_controls_through_commands() {
    let mut reg = Registry::new();
    reg.join(5);
    for t in ["A", "B", "C"] {
        commands::play(&mut reg, 5, track(t)).unwrap();
    }
    assert_eq!(
        commands::remove(&mut reg, 5, 1).err(),
        Some(CommandError::Index(IndexError::CurrentTrack))
    );
    assert_eq!(
        commands::remove(&mut reg, 5, 4).err(),
        Some(CommandError::Index(IndexError::OutOfRange))
    );
    assert_eq!(commands::remove(&mut reg, 5, 2).unwrap().title, "B");
    assert_eq!(commands::pause(&reg, 5), Ok(1));
    assert_eq!(commands::unpause(&reg, 5), Ok(1));
    assert!(commands::engine_error(&mut reg, 5));
    assert_eq!(
        commands::pause(&reg, 5),
        Err(CommandError::Playback(PlaybackError::InvalidState))
    );
    assert_eq!(
        commands::skip(&mut reg, 5),
        Err(CommandError::Playback(PlaybackError::InvalidState))
    );
    assert!(commands::queue(&reg, 5).unwrap().is_empty());
}
