use vstd::prelude::*;

use crate::queue::{IndexError, Queue};
use crate::track::Track;

verus! {

/// Whether a track is bound to the audio engine, and under which generation.
#[derive(Clone, Copy, Debug, PartialEq, Eq, Structural)]
pub enum PlaybackState {
    Idle,
    Playing { generation: u64 },
}

/// What the caller has to do after a transition of the controller.
#[derive(Clone, Copy, Debug, PartialEq, Eq, Structural)]
pub enum Transition {
    /// A stale end-of-track signal: nothing changed.
    Ignored,
    /// Bind the new head to the engine and subscribe its end-of-track signal
    /// tagged with `generation`; announce it.
    NowPlaying { generation: u64 },
    /// The queue is exhausted: disconnect the engine.
    Ended,
}

/// A request made in a state that does not allow it; nothing changed.
#[derive(Clone, Copy, Debug, PartialEq, Eq, Structural)]
pub enum PlaybackError {
    /// `start` while playing, or `skip`, `pause`, `resume` while idle.
    InvalidState,
    /// `start` with nothing queued.
    EmptyQueue,
}

/// The abstract state of a session.
pub struct SessionView<S> {
    pub id: u64,
    pub queue: Seq<Track<S>>,
    pub state: PlaybackState,
    pub generation: u64,
}

/// The generation that follows `g`; the counter wraps at its maximum, so that
/// the next value always differs from the current one.
pub open spec fn next_generation(g: u64) -> u64 {
    if g == u64::MAX {
        0
    } else {
        (g + 1) as u64
    }
}

impl<S> SessionView<S> {
    /// A new session: idle, nothing queued, generation zero.
    pub open spec fn fresh(id: u64) -> SessionView<S> {
        SessionView { id, queue: Seq::empty(), state: PlaybackState::Idle, generation: 0 }
    }

    /// A playing session plays its head under the current generation.
    pub open spec fn wf(self) -> bool {
        match self.state {
            PlaybackState::Idle => true,
            PlaybackState::Playing { generation } => generation == self.generation
                && self.queue.len() > 0,
        }
    }

    pub open spec fn with_generation(self, g: u64) -> SessionView<S> {
        SessionView { id: self.id, queue: self.queue, state: self.state, generation: g }
    }

    /// Drops the head, then plays the next track or tears down; one transition.
    pub open spec fn advanced(self) -> (SessionView<S>, Transition) {
        let g = next_generation(self.generation);
        let rest = self.queue.drop_first();
        if rest.len() > 0 {
            (
                SessionView {
                    id: self.id,
                    queue: rest,
                    state: PlaybackState::Playing { generation: g },
                    generation: g,
                },
                Transition::NowPlaying { generation: g },
            )
        } else {
            (
                SessionView {
                    id: self.id,
                    queue: Seq::empty(),
                    state: PlaybackState::Idle,
                    generation: g,
                },
                Transition::Ended,
            )
        }
    }

    /// The effect of an end-of-track signal tagged `signal`.
    pub open spec fn track_ended(self, signal: u64) -> (SessionView<S>, Transition) {
        match self.state {
            PlaybackState::Playing { generation } => if generation == signal {
                self.advanced()
            } else {
                (self, Transition::Ignored)
            },
            PlaybackState::Idle => (self, Transition::Ignored),
        }
    }

    /// The effect of a skip: the generation moves on first, so that the signal
    /// raised by stopping the engine is stale, then the queue advances.
    pub open spec fn skipped(self) -> (SessionView<S>, Result<Transition, PlaybackError>) {
        match self.state {
            PlaybackState::Playing { .. } => {
                let r = self.with_generation(next_generation(self.generation)).advanced();
                (r.0, Ok(r.1))
            },
            PlaybackState::Idle => (self, Err(PlaybackError::InvalidState)),
        }
    }
}

/// A skip, followed by the end-of-track signal of the skipped track, advances
/// the queue once: the signal is discarded.
pub proof fn lemma_skip_discards_stale_end<S>(v: SessionView<S>)
    requires
        v.wf(),
        v.state is Playing,
    ensures
        v.skipped().1 is Ok,
        v.skipped().0.track_ended(v.generation).1 == Transition::Ignored,
        v.skipped().0.track_ended(v.generation).0 == v.skipped().0,
        v.skipped().0.queue == v.queue.drop_first(),
{
    let w = v.skipped().0;
    assert(w.queue =~= v.queue.drop_first());
}

/// Once a session is idle with an empty queue, end-of-track signals change
/// nothing.
pub proof fn lemma_idle_ignores_signals<S>(v: SessionView<S>, signal: u64)
    requires
        v.wf(),
        v.state is Idle,
        v.queue.len() == 0,
    ensures
        v.track_ended(signal) == (v, Transition::Ignored),
{
}

/// One voice session: its queue and the playback controller that drives the
/// audio engine through it.
pub struct Session<S> {
    id: u64,
    queue: Queue<S>,
    state: PlaybackState,
    generation: u64,
}

impl<S> View for Session<S> {
    type V = SessionView<S>;

    closed spec fn view(&self) -> SessionView<S> {
        SessionView {
            id: self.id,
            queue: self.queue@,
            state: self.state,
            generation: self.generation,
        }
    }
}

impl<S> Session<S> {
    /// An idle session with an empty queue.
    pub fn new(id: u64) -> (r: Session<S>)
        ensures
            r@.wf(),
            r@ == SessionView::<S>::fresh(id),
    {
        Session { id, queue: Queue::new(), state: PlaybackState::Idle, generation: 0 }
    }

    pub fn id(&self) -> (r: u64)
        ensures
            r == self@.id,
    {
        self.id
    }

    pub fn state(&self) -> (r: PlaybackState)
        ensures
            r == self@.state,
    {
        self.state
    }

    pub fn generation(&self) -> (r: u64)
        ensures
            r == self@.generation,
    {
        self.generation
    }

    pub fn queue(&self) -> (r: &Queue<S>)
        ensures
            r@ == self@.queue,
    {
        &self.queue
    }

    fn bump(&mut self)
        ensures
            final(self)@ == old(self)@.with_generation(next_generation(old(self)@.generation)),
    {
        if self.generation == u64::MAX {
            self.generation = 0;
        } else {
            self.generation = self.generation + 1;
        }
    }

    /// Queues `track` at the end; tells whether the queue was empty, in which
    /// case the caller starts playback.
    pub fn add(&mut self, track: Track<S>) -> (was_empty: bool)
        requires
            old(self)@.wf(),
        ensures
            final(self)@.wf(),
            final(self)@ == (SessionView {
                id: old(self)@.id,
                queue: old(self)@.queue.push(track),
                state: old(self)@.state,
                generation: old(self)@.generation,
            }),
            was_empty == (old(self)@.queue.len() == 0),
    {
        self.queue.add(track)
    }

    /// Removes the track at the 1-based position `index` (see `Queue::remove`).
    pub fn remove(&mut self, index: usize) -> (r: Result<Track<S>, IndexError>)
        requires
            old(self)@.wf(),
        ensures
            final(self)@.wf(),
            final(self)@.id == old(self)@.id,
            final(self)@.state == old(self)@.state,
            final(self)@.generation == old(self)@.generation,
            index == 1 ==> r == Err::<Track<S>, IndexError>(IndexError::CurrentTrack),
            (index == 0 || index > old(self)@.queue.len()) && index != 1 ==> r == Err::<
                Track<S>,
                IndexError,
            >(IndexError::OutOfRange),
            r is Ok <==> 2 <= index <= old(self)@.queue.len(),
            r matches Ok(t) ==> t == old(self)@.queue[index - 1] && final(self)@.queue == old(
                self,
            )@.queue.remove(index - 1),
            r is Err ==> final(self)@.queue == old(self)@.queue,
    {
        self.queue.remove(index)
    }

    /// Binds the head: from idle with a queued track, playing under the next
    /// generation, which is returned for the engine's subscription.
    pub fn start(&mut self) -> (r: Result<u64, PlaybackError>)
        requires
            old(self)@.wf(),
        ensures
            final(self)@.wf(),
            old(self)@.state is Playing ==> r == Err::<u64, PlaybackError>(
                PlaybackError::InvalidState,
            ),
            old(self)@.state is Idle && old(self)@.queue.len() == 0 ==> r == Err::<
                u64,
                PlaybackError,
            >(PlaybackError::EmptyQueue),
            r is Err ==> final(self)@ == old(self)@,
            old(self)@.state is Idle && old(self)@.queue.len() > 0 ==> {
                let g = next_generation(old(self)@.generation);
                &&& r == Ok::<u64, PlaybackError>(g)
                &&& final(self)@ == (SessionView {
                    id: old(self)@.id,
                    queue: old(self)@.queue,
                    state: PlaybackState::Playing { generation: g },
                    generation: g,
                })
            },
    {
        match self.state {
            PlaybackState::Playing { .. } => Err(PlaybackError::InvalidState),
            PlaybackState::Idle => {
                if self.queue.is_empty() {
                    Err(PlaybackError::EmptyQueue)
                } else {
                    self.bump();
                    self.state = PlaybackState::Playing { generation: self.generation };
                    Ok(self.generation)
                }
            },
        }
    }

    fn advance(&mut self) -> (r: Transition)
        requires
            old(self)@.queue.len() > 0,
        ensures
            (final(self)@, r) == old(self)@.advanced(),
    {
        self.bump();
        if self.queue.get_next().is_some() {
            self.state = PlaybackState::Playing { generation: self.generation };
            Transition::NowPlaying { generation: self.generation }
        } else {
            self.queue.clear();
            self.state = PlaybackState::Idle;
            Transition::Ended
        }
    }

    /// Handles the engine's end-of-track signal tagged `signal`: a signal of an
    /// earlier generation is discarded; otherwise the queue advances.
    pub fn on_track_end(&mut self, signal: u64) -> (r: Transition)
        requires
            old(self)@.wf(),
        ensures
            final(self)@.wf(),
            (final(self)@, r) == old(self)@.track_ended(signal),
    {
        match self.state {
            PlaybackState::Playing { generation } => {
                if generation == signal {
                    self.advance()
                } else {
                    Transition::Ignored
                }
            },
            PlaybackState::Idle => Transition::Ignored,
        }
    }

    /// Skips the current track: the generation moves on before the caller
    /// stops the engine, then the queue advances as on the end of the track.
    pub fn skip(&mut self) -> (r: Result<Transition, PlaybackError>)
        requires
            old(self)@.wf(),
        ensures
            final(self)@.wf(),
            (final(self)@, r) == old(self)@.skipped(),
    {
        match self.state {
            PlaybackState::Playing { .. } => {
                self.bump();
                Ok(self.advance())
            },
            PlaybackState::Idle => Err(PlaybackError::InvalidState),
        }
    }

    /// Checks that a track is playing; returns its generation, whose engine
    /// handle the caller pauses.
    pub fn pause(&self) -> (r: Result<u64, PlaybackError>)
        ensures
            self@.state matches PlaybackState::Playing { generation } ==> r == Ok::<
                u64,
                PlaybackError,
            >(generation),
            self@.state is Idle ==> r == Err::<u64, PlaybackError>(PlaybackError::InvalidState),
    {
        match self.state {
            PlaybackState::Playing { generation } => Ok(generation),
            PlaybackState::Idle => Err(PlaybackError::InvalidState),
        }
    }

    /// Checks that a track is playing; returns its generation, whose engine
    /// handle the caller resumes.
    pub fn resume(&self) -> (r: Result<u64, PlaybackError>)
        ensures
            self@.state matches PlaybackState::Playing { generation } ==> r == Ok::<
                u64,
                PlaybackError,
            >(generation),
            self@.state is Idle ==> r == Err::<u64, PlaybackError>(PlaybackError::InvalidState),
    {
        self.pause()
    }

    /// Fail-safe teardown after an engine failure: idle, queue cleared, and
    /// pending signals made stale.
    pub fn on_engine_error(&mut self)
        requires
            old(self)@.wf(),
        ensures
            final(self)@.wf(),
            final(self)@ == (SessionView {
                id: old(self)@.id,
                queue: Seq::<Track<S>>::empty(),
                state: PlaybackState::Idle,
                generation: next_generation(old(self)@.generation),
            }),
    {
        self.bump();
        self.queue.clear();
        self.state = PlaybackState::Idle;
    }
}

} // verus!
