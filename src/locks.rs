use vstd::prelude::*;

use crate::ids::ThreadId;

verus! {

/// The conversations that have a dispatch under way, so that no second
/// run is started on a conversation before the first one has ended.
#[derive(Debug)]
pub struct ConversationLocks {
    busy: Vec<String>,
}

impl ConversationLocks {
    /// The ids of the conversations held.
    pub closed spec fn held(&self) -> Seq<Seq<char>> {
        self.busy@.map_values(|s: String| s@)
    }

    /// No conversation is held twice.
    pub closed spec fn wf(&self) -> bool {
        forall|i: int, j: int|
            0 <= i < j < self.held().len() ==> #[trigger] self.held()[i] != #[trigger] self.held()[j]
    }

    /// No conversation is held.
    pub fn new() -> (r: ConversationLocks)
        ensures
            r.wf(),
            r.held() == Seq::<Seq<char>>::empty(),
    {
        let r = ConversationLocks { busy: Vec::new() };
        assert(r.held() =~= Seq::<Seq<char>>::empty());
        r
    }

    fn position(&self, id: &ThreadId) -> (r: Option<usize>)
        ensures
            r is None <==> !self.held().contains(id.0@),
            r matches Some(i) ==> i < self.held().len() && self.held()[i as int] == id.0@,
    {
        let n: usize = self.busy.len();
        let mut i: usize = 0;
        while i < n
            invariant
                n == self.busy@.len(),
                forall|j: int| 0 <= j < i ==> self.held()[j] != id.0@,
            decreases n - i,
        {
            if self.busy[i] == id.0 {
                assert(self.held()[i as int] == id.0@);
                return Some(i);
            }
            i = i + 1;
        }
        None
    }

    /// Whether a dispatch is under way on the conversation.
    pub fn is_busy(&self, id: &ThreadId) -> (r: bool)
        ensures
            r == self.held().contains(id.0@),
    {
        self.position(id).is_some()
    }

    /// Takes the conversation for a dispatch, unless it is already taken.
    pub fn try_acquire(&mut self, id: &ThreadId) -> (r: bool)
        requires
            old(self).wf(),
        ensures
            final(self).wf(),
            r == !old(self).held().contains(id.0@),
            r ==> final(self).held() == old(self).held().push(id.0@),
            !r ==> final(self).held() == old(self).held(),
    {
        if self.position(id).is_some() {
            false
        } else {
            self.busy.push(id.0.clone());
            assert(self.held() =~= old(self).held().push(id.0@));
            true
        }
    }

    /// Gives the conversation back once its dispatch is over.
    pub fn release(&mut self, id: &ThreadId)
        requires
            old(self).wf(),
        ensures
            final(self).wf(),
            forall|x: Seq<char>|
                final(self).held().contains(x) <==> (old(self).held().contains(x) && x != id.0@),
    {
        match self.position(id) {
            Some(i) => {
                let ghost before = self.held();
                self.busy.remove(i);
                assert(self.held() =~= before.remove(i as int));
                assert forall|x: Seq<char>|
                    self.held().contains(x) <==> (before.contains(x) && x != id.0@) by {
                    if self.held().contains(x) {
                        let k = choose|k: int| 0 <= k < self.held().len() && self.held()[k] == x;
                        if k < i {
                            assert(before[k] == x);
                        } else {
                            assert(before[k + 1] == x);
                        }
                    }
                    if before.contains(x) && x != id.0@ {
                        let k = choose|k: int| 0 <= k < before.len() && before[k] == x;
                        if k < i {
                            assert(self.held()[k] == x);
                        } else {
                            assert(self.held()[k - 1] == x);
                        }
                    }
                }
            },
            None => {},
        }
    }
}

} // verus!
