use queuebot::queue::IndexError;
use queuebot::session::{PlaybackError, PlaybackState, Session, Transition};
use queuebot::track::Track;

fn track(title: &str) -> Track<u32> {
    Track::from_src(0, Some(title.to_string()), Some(30), Some(String::new())).unwrap()
}

fn titles(s: &Session<u32>) -> Vec<String> {
    s.queue().queue.iter().map(|t| t.title.clone()).collect()
}

fn playing(names: &[&str]) -> Session<u32> {
    let mut s = Session::new(1);
    for n in names {
        s.add(track(n));
    }
    s.start().unwrap();
    s
}

#[test]
fn add_to_empty_then_start() {
    let mut s = Session::new(9);
    assert_eq!(s.id(), 9);
    assert_eq!(s.state(), PlaybackState::Idle);
    assert!(s.add(track("X")));
    assert_eq!(s.start(), Ok(1));
    assert_eq!(s.state(), PlaybackState::Playing { generation: 1 });
    assert_eq!(s.queue().get_current().unwrap().title, "X");
}

#[test]
fn start_errors() {
    let mut s: Session<u32> = Session::new(1);
    assert_eq!(s.start(), Err(PlaybackError::EmptyQueue));
    s.add(track("A"));
    s.start().unwrap();
    assert_eq!(s.start(), Err(PlaybackError::InvalidState));
    assert_eq!(s.generation(), 1);
}

#[test]
fn skip_moves_to_next() {
    let mut s = playing(&["A", "B", "C"]);
    let g = s.generation();
    let t = s.skip().unwrap();
    assert_eq!(t, Transition::NowPlaying { generation: g + 2 });
    assert_eq!(titles(&s), vec!["B", "C"]);
    assert_eq!(s.state(), PlaybackState::Playing { generation: g + 2 });
    assert_eq!(s.queue().get_current().unwrap().title, "B");
}

#[test]
fn matching_end_of_last_track_tears_down() {
    let mut s = playing(&["A"]);
    let g = s.generation();
    assert_eq!(s.on_track_end(g), Transition::Ended);
    assert!(s.queue().is_empty());
    assert_eq!(s.state(), PlaybackState::Idle);
}

#[test]
fn matching_end_advances() {
    let mut s = playing(&["A", "B"]);
    let g = s.generation();
    assert_eq!(s.on_track_end(g), Transition::NowPlaying { generation: g + 1 });
    assert_eq!(titles(&s), vec!["B"]);
}

#[test]
fn skip_discards_stale_signal() {
    let mut s = Session::new(1);
    for _ in 0..2 {
        s.add(track("X"));
        s.start().unwrap();
        s.on_engine_error();
    }
    s.add(track("A"));
    s.add(track("B"));
    s.add(track("C"));
    assert_eq!(s.start(), Ok(5));
    assert_eq!(s.state(), PlaybackState::Playing { generation: 5 });
    assert_eq!(s.skip(), Ok(Transition::NowPlaying { generation: 7 }));
    assert_eq!(titles(&s), vec!["B", "C"]);
    assert_eq!(s.on_track_end(5), Transition::Ignored);
    assert_eq!(titles(&s), vec!["B", "C"]);
    assert_eq!(s.state(), PlaybackState::Playing { generation: 7 });
    assert_eq!(s.queue().get_current().unwrap().title, "B");
}

#[test]
fn skip_on_last_track_ends() {
    let mut s = playing(&["A"]);
    let stale = s.generation();
    assert_eq!(s.skip(), Ok(Transition::Ended));
    assert_eq!(s.state(), PlaybackState::Idle);
    assert!(s.queue().is_empty());
    assert_eq!(s.on_track_end(stale), Transition::Ignored);
}

#[test]
fn idle_ignores_signals() {
    let mut s = playing(&["A"]);
    let g = s.generation();
    assert_eq!(s.on_track_end(g), Transition::Ended);
    let after = s.generation();
    for sig in [0, g, after, u64::MAX] {
        assert_eq!(s.on_track_end(sig), Transition::Ignored);
        assert_eq!(s.state(), PlaybackState::Idle);
        assert!(s.queue().is_empty());
        assert_eq!(s.generation(), after);
    }
}

#[test]
fn idle_refuses_controls() {
    let mut s: Session<u32> = Session::new(1);
    assert_eq!(s.skip(), Err(PlaybackError::InvalidState));
    assert_eq!(s.pause(), Err(PlaybackError::InvalidState));
    assert_eq!(s.resume(), Err(PlaybackError::InvalidState));
}

#[test]
fn pause_and_resume_while_playing() {
    let s = playing(&["A"]);
    assert_eq!(s.pause(), Ok(1));
    assert_eq!(s.resume(), Ok(1));
    assert_eq!(s.state(), PlaybackState::Playing { generation: 1 });
}

#[test]
fn engine_error_clears() {
    let mut s = playing(&["A", "B"]);
    s.on_engine_error();
    assert_eq!(s.state(), PlaybackState::Idle);
    assert!(s.queue().is_empty());
    assert_eq!(s.generation(), 2);
    assert_eq!(s.on_track_end(1), Transition::Ignored);
}

#[test]
fn session_remove_keeps_head() {
    let mut s = playing(&["A", "B", "C"]);
    assert_eq!(s.remove(1).err(), Some(IndexError::CurrentTrack));
    assert_eq!(s.remove(2).unwrap().title, "B");
    assert_eq!(titles(&s), vec!["A", "C"]);
    assert_eq!(s.state(), PlaybackState::Playing { generation: 1 });
}
