use vstd::prelude::*;
use vstd::string::StringExecFns;

use crate::track::{decimal, duration_text, push_decimal, Track};

verus! {

/// Why an index-addressed removal was refused; the queue is left as it was.
#[derive(Clone, Copy, Debug, PartialEq, Eq, Structural)]
pub enum IndexError {
    /// Position 1 is the track being played: it is skipped, not removed.
    CurrentTrack,
    /// The position is not in `[1, size]`.
    OutOfRange,
}

/// The tracks of one session, in playing order; the head is the track that is
/// bound to the audio engine, or about to be.
pub struct Queue<S> {
    pub queue: Vec<Track<S>>,
}

impl<S> View for Queue<S> {
    type V = Seq<Track<S>>;

    open spec fn view(&self) -> Seq<Track<S>> {
        self.queue@
    }
}

/// The queue that results from adding `tracks` one after the other to `q`.
pub open spec fn after_adds<S>(q: Seq<Track<S>>, tracks: Seq<Track<S>>) -> Seq<Track<S>>
    decreases tracks.len(),
{
    if tracks.len() == 0 {
        q
    } else {
        after_adds(q.push(tracks[0]), tracks.drop_first())
    }
}

/// Adding tracks one by one to an empty queue gives a queue of as many tracks,
/// in the order in which they were added.
pub proof fn lemma_adds_keep_order<S>(tracks: Seq<Track<S>>)
    ensures
        after_adds(Seq::empty(), tracks) == tracks,
        after_adds(Seq::empty(), tracks).len() == tracks.len(),
{
    lemma_adds_append(Seq::empty(), tracks);
    assert(Seq::<Track<S>>::empty() + tracks =~= tracks);
}

/// Adding tracks one by one appends them to what was queued.
pub proof fn lemma_adds_append<S>(q: Seq<Track<S>>, tracks: Seq<Track<S>>)
    ensures
        after_adds(q, tracks) == q + tracks,
    decreases tracks.len(),
{
    if tracks.len() > 0 {
        lemma_adds_append(q.push(tracks[0]), tracks.drop_first());
        assert(q.push(tracks[0]) + tracks.drop_first() =~= q + tracks);
    } else {
        assert(q + tracks =~= q);
    }
}

/// The line that lists the track `t` at the 1-based position `pos`.
pub open spec fn listing_line<S>(pos: nat, t: Track<S>) -> Seq<char> {
    decimal(pos) + seq![':', ' '] + t.title@ + seq![' ', '['] + duration_text(
        t.duration_secs as nat,
    ) + seq![']']
}

impl<S> Queue<S> {
    /// An empty queue.
    pub fn new() -> (r: Queue<S>)
        ensures
            r@ == Seq::<Track<S>>::empty(),
    {
        Queue { queue: Vec::new() }
    }

    /// Appends `track`; tells whether the queue was empty before.
    pub fn add(&mut self, track: Track<S>) -> (was_empty: bool)
        ensures
            final(self)@ == old(self)@.push(track),
            was_empty == (old(self)@.len() == 0),
    {
        let was_empty = self.queue.len() == 0;
        self.queue.push(track);
        was_empty
    }

    /// The head of the queue, if any.
    pub fn get_current(&self) -> (r: Option<&Track<S>>)
        ensures
            r is Some <==> self@.len() > 0,
            r matches Some(t) ==> *t == self@[0],
    {
        if self.queue.len() == 0 {
            None
        } else {
            Some(&self.queue[0])
        }
    }

    /// Drops the head; returns the new head, if any.
    pub fn get_next(&mut self) -> (r: Option<&Track<S>>)
        ensures
            old(self)@.len() > 0 ==> final(self)@ == old(self)@.drop_first(),
            old(self)@.len() == 0 ==> final(self)@ == old(self)@,
            r is Some <==> final(self)@.len() > 0,
            r matches Some(t) ==> *t == final(self)@[0],
            old(self)@.len() > 1 ==> final(self)@.len() == old(self)@.len() - 1 && (r matches Some(
                t,
            ) && *t == old(self)@[1]),
            old(self)@.len() == 1 ==> final(self)@.len() == 0 && r is None,
    {
        if self.queue.len() > 0 {
            self.queue.remove(0);
            assert(self@ =~= old(self)@.drop_first());
        }
        self.get_current()
    }

    pub fn is_empty(&self) -> (r: bool)
        ensures
            r == (self@.len() == 0),
    {
        self.queue.len() == 0
    }

    /// Whether a track follows the head.
    pub fn has_next_track(&self) -> (r: bool)
        ensures
            r == (self@.len() > 1),
    {
        self.queue.len() > 1
    }

    pub fn get_size(&self) -> (r: usize)
        ensures
            r == self@.len(),
    {
        self.queue.len()
    }

    /// Removes the track at the 1-based position `index`, which must lie in
    /// `[2, size]`: position 1 is the current track.
    pub fn remove(&mut self, index: usize) -> (r: Result<Track<S>, IndexError>)
        ensures
            index == 1 ==> r == Err::<Track<S>, IndexError>(IndexError::CurrentTrack),
            (index == 0 || index > old(self)@.len()) && index != 1 ==> r == Err::<
                Track<S>,
                IndexError,
            >(IndexError::OutOfRange),
            r is Ok <==> 2 <= index <= old(self)@.len(),
            r matches Ok(t) ==> t == old(self)@[index - 1] && final(self)@ == old(self)@.remove(
                index - 1,
            ),
            r is Err ==> final(self)@ == old(self)@,
    {
        if index == 1 {
            Err(IndexError::CurrentTrack)
        } else if index == 0 || index > self.queue.len() {
            Err(IndexError::OutOfRange)
        } else {
            Ok(self.queue.remove(index - 1))
        }
    }

    /// Empties the queue.
    pub fn clear(&mut self)
        ensures
            final(self)@ == Seq::<Track<S>>::empty(),
    {
        self.queue.clear();
    }

    /// One line per queued track, in order: its 1-based position, its title
    /// and its length.
    pub fn listing(&self) -> (r: Vec<String>)
        ensures
            r@.len() == self@.len(),
            forall|i: int| 0 <= i < r@.len() ==> #[trigger] r@[i]@ == listing_line(
                (i + 1) as nat,
                self@[i],
            ),
    {
        let mut lines: Vec<String> = Vec::new();
        let mut i: usize = 0;
        while i < self.queue.len()
            invariant
                i <= self@.len(),
                lines@.len() == i,
                forall|k: int| 0 <= k < i ==> #[trigger] lines@[k]@ == listing_line(
                    (k + 1) as nat,
                    self@[k],
                ),
            decreases self@.len() - i,
        {
            let t = &self.queue[i];
            let mut line = String::new();
            push_decimal(&mut line, (i + 1) as u64);
            line.append(": ");
            line.append(t.title.as_str());
            line.append(" [");
            let d = t.get_duration_str();
            line.append(d.as_str());
            line.append("]");
            proof {
                reveal_strlit(": ");
                reveal_strlit(" [");
                reveal_strlit("]");
            }
            assert(line@ =~= listing_line((i + 1) as nat, self@[i as int]));
            lines.push(line);
            i = i + 1;
        }
        lines
    }
}

} // verus!
