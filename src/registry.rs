use vstd::prelude::*;

use crate::session::{Session, SessionView};

verus! {

/// The live sessions, one per voice session id.
pub struct Registry<S> {
    pub sessions: Vec<Session<S>>,
}

impl<S> View for Registry<S> {
    type V = Seq<SessionView<S>>;

    open spec fn view(&self) -> Seq<SessionView<S>> {
        self.sessions@.map_values(|s: Session<S>| s@)
    }
}

impl<S> Registry<S> {
    /// Every session is well formed and no two share an id.
    pub open spec fn wf(&self) -> bool {
        &&& forall|i: int| 0 <= i < self@.len() ==> (#[trigger] self@[i]).wf()
        &&& forall|i: int, j: int|
            0 <= i < self@.len() && 0 <= j < self@.len() && i != j ==> (#[trigger] self@[i]).id
                != (#[trigger] self@[j]).id
    }

    /// Whether a session with this id is live.
    pub open spec fn has(&self, id: u64) -> bool {
        exists|i: int| 0 <= i < self@.len() && (#[trigger] self@[i]).id == id
    }

    /// The position of the session with this id, when `has(id)`.
    pub open spec fn pos(&self, id: u64) -> int {
        choose|i: int| 0 <= i < self@.len() && (#[trigger] self@[i]).id == id
    }

    pub proof fn lemma_pos(&self, id: u64, i: int)
        requires
            self.wf(),
            0 <= i < self@.len(),
            self@[i].id == id,
        ensures
            self.has(id),
            self.pos(id) == i,
    {
    }

    /// No session.
    pub fn new() -> (r: Registry<S>)
        ensures
            r.wf(),
            r@ == Seq::<SessionView<S>>::empty(),
    {
        let r = Registry { sessions: Vec::new() };
        assert(r@ =~= Seq::<SessionView<S>>::empty());
        r
    }

    /// The position of the session with this id, if it is live.
    pub fn find(&self, id: u64) -> (r: Option<usize>)
        requires
            self.wf(),
        ensures
            r is Some <==> self.has(id),
            r matches Some(i) ==> i == self.pos(id) && i < self@.len(),
    {
        let mut i: usize = 0;
        while i < self.sessions.len()
            invariant
                self.wf(),
                i <= self@.len(),
                forall|k: int| 0 <= k < i ==> (#[trigger] self@[k]).id != id,
            decreases self@.len() - i,
        {
            if self.sessions[i].id() == id {
                proof {
                    self.lemma_pos(id, i as int);
                }
                return Some(i);
            }
            i = i + 1;
        }
        None
    }

    /// The session with this id, if it is live.
    pub fn get(&self, id: u64) -> (r: Option<&Session<S>>)
        requires
            self.wf(),
        ensures
            r is Some <==> self.has(id),
            r matches Some(s) ==> s@ == self@[self.pos(id)],
    {
        match self.find(id) {
            Some(i) => Some(&self.sessions[i]),
            None => None,
        }
    }

    /// The position of the session with this id, opening an idle one with an
    /// empty queue when there is none.
    pub fn join(&mut self, id: u64) -> (r: usize)
        requires
            old(self).wf(),
        ensures
            final(self).wf(),
            final(self).has(id),
            r == final(self).pos(id),
            old(self).has(id) ==> final(self)@ == old(self)@,
            !old(self).has(id) ==> final(self)@ == old(self)@.push(SessionView::<S>::fresh(id)),
    {
        match self.find(id) {
            Some(i) => i,
            None => {
                let s = Session::new(id);
                let ghost sv = s@;
                self.sessions.push(s);
                assert(self@ =~= old(self)@.push(sv));
                let n = self.sessions.len() - 1;
                proof {
                    self.lemma_pos(id, n as int);
                }
                n
            },
        }
    }

    /// Drops the session with this id, if it is live.
    pub fn leave(&mut self, id: u64) -> (r: bool)
        requires
            old(self).wf(),
        ensures
            final(self).wf(),
            r == old(self).has(id),
            !final(self).has(id),
            r ==> final(self)@ == old(self)@.remove(old(self).pos(id)),
            !r ==> final(self)@ == old(self)@,
    {
        match self.find(id) {
            Some(i) => {
                self.sessions.remove(i);
                assert(self@ =~= old(self)@.remove(i as int));
                true
            },
            None => false,
        }
    }
}

} // verus!
