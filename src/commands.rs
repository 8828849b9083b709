use vstd::prelude::*;

use crate::queue::{listing_line, IndexError};
use crate::registry::Registry;
use crate::session::{next_generation, PlaybackError, PlaybackState, SessionView, Transition};
use crate::track::Track;

verus! {

/// Why a command was refused; nothing changed.
#[derive(Clone, Copy, Debug, PartialEq, Eq, Structural)]
pub enum CommandError {
    /// No voice session is live for this id.
    NoSession,
    Index(IndexError),
    Playback(PlaybackError),
}

/// What a play command did with the new track.
#[derive(Clone, Copy, Debug, PartialEq, Eq, Structural)]
pub enum PlayOutcome {
    /// Other tracks come first; announce it as queued.
    AddedToQueue,
    /// The queue was empty: bind the track and subscribe its end-of-track
    /// signal tagged with `generation`; announce it as playing.
    NowPlaying { generation: u64 },
}

/// The effect of queueing `track` on the session `v`: playback starts when
/// the queue was empty.
pub open spec fn played<S>(v: SessionView<S>, track: Track<S>) -> (SessionView<S>, PlayOutcome) {
    let q = v.queue.push(track);
    if v.queue.len() == 0 && v.state is Idle {
        let g = next_generation(v.generation);
        (
            SessionView { id: v.id, queue: q, state: PlaybackState::Playing { generation: g }, generation: g },
            PlayOutcome::NowPlaying { generation: g },
        )
    } else {
        (
            SessionView { id: v.id, queue: q, state: v.state, generation: v.generation },
            PlayOutcome::AddedToQueue,
        )
    }
}

/// The registry `after` is `before` with the session `id` replaced by `v`.
pub open spec fn replaced<S>(
    before: Registry<S>,
    after: Registry<S>,
    id: u64,
    v: SessionView<S>,
) -> bool {
    after@ == before@.update(before.pos(id), v)
}

/// Lifts a controller error to a command error.
pub open spec fn lift<T>(r: Result<T, PlaybackError>) -> Result<T, CommandError> {
    match r {
        Ok(x) => Ok(x),
        Err(e) => Err(CommandError::Playback(e)),
    }
}

proof fn lemma_replace_keeps_wf<S>(before: Registry<S>, after: Registry<S>, i: int, v: SessionView<S>)
    requires
        before.wf(),
        0 <= i < before@.len(),
        v.wf(),
        v.id == before@[i].id,
        after@ == before@.update(i, v),
    ensures
        after.wf(),
        forall|id: u64| #[trigger] after.has(id) == before.has(id),
        forall|id: u64| before.has(id) ==> #[trigger] after.pos(id) == before.pos(id),
{
    assert forall|id: u64| #[trigger] after.has(id) == before.has(id) by {
        if before.has(id) {
            let j = before.pos(id);
            assert(after@[j].id == id);
        }
        if after.has(id) {
            let j = after.pos(id);
            assert(before@[j].id == id);
        }
    }
    assert forall|id: u64| before.has(id) implies #[trigger] after.pos(id) == before.pos(id) by {
        let j = before.pos(id);
        assert(after@[j].id == id);
        after.lemma_pos(id, j);
    }
}

/// Queues `track` in the session `id`, and starts playback when its queue was
/// empty.
pub fn play<S>(reg: &mut Registry<S>, id: u64, track: Track<S>) -> (r: Result<PlayOutcome, CommandError>)
    requires
        old(reg).wf(),
    ensures
        final(reg).wf(),
        !old(reg).has(id) ==> r == Err::<PlayOutcome, CommandError>(CommandError::NoSession)
            && final(reg)@ == old(reg)@,
        old(reg).has(id) ==> {
            let (v, o) = played(old(reg)@[old(reg).pos(id)], track);
            r == Ok::<PlayOutcome, CommandError>(o) && replaced(*old(reg), *final(reg), id, v)
        },
{
    match reg.find(id) {
        None => Err(CommandError::NoSession),
        Some(i) => {
            let was_empty = reg.sessions[i].add(track);
            let outcome = if was_empty {
                match reg.sessions[i].start() {
                    Ok(g) => PlayOutcome::NowPlaying { generation: g },
                    Err(_) => PlayOutcome::AddedToQueue,
                }
            } else {
                PlayOutcome::AddedToQueue
            };
            proof {
                let v = played(old(reg)@[i as int], track).0;
                assert(reg@ =~= old(reg)@.update(i as int, v));
                lemma_replace_keeps_wf(*old(reg), *reg, i as int, v);
            }
            Ok(outcome)
        },
    }
}

/// Skips the current track of the session `id` (see `Session::skip`).
pub fn skip<S>(reg: &mut Registry<S>, id: u64) -> (r: Result<Transition, CommandError>)
    requires
        old(reg).wf(),
    ensures
        final(reg).wf(),
        !old(reg).has(id) ==> r == Err::<Transition, CommandError>(CommandError::NoSession)
            && final(reg)@ == old(reg)@,
        old(reg).has(id) ==> {
            let (v, t) = old(reg)@[old(reg).pos(id)].skipped();
            r == lift(t) && replaced(*old(reg), *final(reg), id, v)
        },
{
    match reg.find(id) {
        None => Err(CommandError::NoSession),
        Some(i) => {
            let t = reg.sessions[i].skip();
            proof {
                let v = old(reg)@[i as int].skipped().0;
                assert(reg@ =~= old(reg)@.update(i as int, v));
                lemma_replace_keeps_wf(*old(reg), *reg, i as int, v);
            }
            match t {
                Ok(t) => Ok(t),
                Err(e) => Err(CommandError::Playback(e)),
            }
        },
    }
}

/// Delivers the engine's end-of-track signal tagged `signal` to the session
/// `id`; a signal for a session that is gone is discarded.
pub fn track_end<S>(reg: &mut Registry<S>, id: u64, signal: u64) -> (r: Transition)
    requires
        old(reg).wf(),
    ensures
        final(reg).wf(),
        !old(reg).has(id) ==> r == Transition::Ignored && final(reg)@ == old(reg)@,
        old(reg).has(id) ==> {
            let (v, t) = old(reg)@[old(reg).pos(id)].track_ended(signal);
            r == t && replaced(*old(reg), *final(reg), id, v)
        },
{
    match reg.find(id) {
        None => Transition::Ignored,
        Some(i) => {
            let t = reg.sessions[i].on_track_end(signal);
            proof {
                let v = old(reg)@[i as int].track_ended(signal).0;
                assert(reg@ =~= old(reg)@.update(i as int, v));
                lemma_replace_keeps_wf(*old(reg), *reg, i as int, v);
            }
            t
        },
    }
}

/// Fail-safe teardown of the session `id` after an engine failure; returns
/// whether the session was live.
pub fn engine_error<S>(reg: &mut Registry<S>, id: u64) -> (r: bool)
    requires
        old(reg).wf(),
    ensures
        final(reg).wf(),
        r == old(reg).has(id),
        !r ==> final(reg)@ == old(reg)@,
        r ==> {
            let v = old(reg)@[old(reg).pos(id)];
            replaced(
                *old(reg),
                *final(reg),
                id,
                SessionView {
                    id: v.id,
                    queue: Seq::empty(),
                    state: PlaybackState::Idle,
                    generation: next_generation(v.generation),
                },
            )
        },
{
    match reg.find(id) {
        None => false,
        Some(i) => {
            reg.sessions[i].on_engine_error();
            proof {
                let v = old(reg)@[i as int];
                let w = SessionView {
                    id: v.id,
                    queue: Seq::<Track<S>>::empty(),
                    state: PlaybackState::Idle,
                    generation: next_generation(v.generation),
                };
                assert(reg@ =~= old(reg)@.update(i as int, w));
                lemma_replace_keeps_wf(*old(reg), *reg, i as int, w);
            }
            true
        },
    }
}

/// Removes the track at the 1-based position `index` of the session `id`
/// (see `Queue::remove`).
pub fn remove<S>(reg: &mut Registry<S>, id: u64, index: usize) -> (r: Result<Track<S>, CommandError>)
    requires
        old(reg).wf(),
    ensures
        final(reg).wf(),
        !old(reg).has(id) ==> r == Err::<Track<S>, CommandError>(CommandError::NoSession)
            && final(reg)@ == old(reg)@,
        old(reg).has(id) ==> {
            let v = old(reg)@[old(reg).pos(id)];
            &&& index == 1 ==> r == Err::<Track<S>, CommandError>(
                CommandError::Index(IndexError::CurrentTrack),
            )
            &&& (index == 0 || index > v.queue.len()) && index != 1 ==> r == Err::<
                Track<S>,
                CommandError,
            >(CommandError::Index(IndexError::OutOfRange))
            &&& r is Ok <==> 2 <= index <= v.queue.len()
            &&& r matches Ok(t) ==> t == v.queue[index - 1] && replaced(
                *old(reg),
                *final(reg),
                id,
                SessionView {
                    id: v.id,
                    queue: v.queue.remove(index - 1),
                    state: v.state,
                    generation: v.generation,
                },
            )
            &&& r is Err ==> final(reg)@ == old(reg)@
        },
{
    match reg.find(id) {
        None => Err(CommandError::NoSession),
        Some(i) => {
            let ghost v = reg@[i as int];
            let r = reg.sessions[i].remove(index);
            proof {
                let w = reg@[i as int];
                assert(reg@ =~= old(reg)@.update(i as int, w));
                lemma_replace_keeps_wf(*old(reg), *reg, i as int, w);
                if r is Err {
                    assert(w == v);
                    assert(reg@ =~= old(reg)@);
                }
            }
            match r {
                Ok(t) => Ok(t),
                Err(e) => Err(CommandError::Index(e)),
            }
        },
    }
}

/// Checks that the session `id` is playing; returns the generation whose
/// engine handle the caller pauses.
pub fn pause<S>(reg: &Registry<S>, id: u64) -> (r: Result<u64, CommandError>)
    requires
        reg.wf(),
    ensures
        !reg.has(id) ==> r == Err::<u64, CommandError>(CommandError::NoSession),
        reg.has(id) ==> match reg@[reg.pos(id)].state {
            PlaybackState::Playing { generation } => r == Ok::<u64, CommandError>(generation),
            PlaybackState::Idle => r == Err::<u64, CommandError>(
                CommandError::Playback(PlaybackError::InvalidState),
            ),
        },
{
    match reg.get(id) {
        None => Err(CommandError::NoSession),
        Some(s) => match s.pause() {
            Ok(g) => Ok(g),
            Err(e) => Err(CommandError::Playback(e)),
        },
    }
}

/// Checks that the session `id` is playing; returns the generation whose
/// engine handle the caller resumes.
pub fn unpause<S>(reg: &Registry<S>, id: u64) -> (r: Result<u64, CommandError>)
    requires
        reg.wf(),
    ensures
        !reg.has(id) ==> r == Err::<u64, CommandError>(CommandError::NoSession),
        reg.has(id) ==> match reg@[reg.pos(id)].state {
            PlaybackState::Playing { generation } => r == Ok::<u64, CommandError>(generation),
            PlaybackState::Idle => r == Err::<u64, CommandError>(
                CommandError::Playback(PlaybackError::InvalidState),
            ),
        },
{
    match reg.get(id) {
        None => Err(CommandError::NoSession),
        Some(s) => match s.resume() {
            Ok(g) => Ok(g),
            Err(e) => Err(CommandError::Playback(e)),
        },
    }
}

/// The lines that list the queue of the session `id` (see `Queue::listing`).
pub fn queue<S>(reg: &Registry<S>, id: u64) -> (r: Result<Vec<String>, CommandError>)
    requires
        reg.wf(),
    ensures
        !reg.has(id) ==> r == Err::<Vec<String>, CommandError>(CommandError::NoSession),
        reg.has(id) ==> (r matches Ok(lines) && {
            let q = reg@[reg.pos(id)].queue;
            &&& lines@.len() == q.len()
            &&& forall|i: int| 0 <= i < q.len() ==> #[trigger] lines@[i]@ == listing_line(
                (i + 1) as nat,
                q[i],
            )
        }),
{
    match reg.get(id) {
        None => Err(CommandError::NoSession),
        Some(s) => Ok(s.queue().listing()),
    }
}

} // verus!
