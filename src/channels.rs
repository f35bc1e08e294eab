use vstd::prelude::*;
use crate::types::RouteError;

verus! {

/// The execution channels that are open now. Each id is held once; order
/// carries no meaning.
#[derive(Debug, Clone, PartialEq, Eq)]
pub struct ChannelSet {
    ids: Vec<u32>,
}

impl View for ChannelSet {
    type V = Set<u32>;

    closed spec fn view(&self) -> Set<u32> {
        self.ids@.to_set()
    }
}

impl ChannelSet {
    pub closed spec fn wf(self) -> bool {
        self.ids@.no_duplicates()
    }

    pub fn new() -> (r: Self)
        ensures
            r.wf(),
            r@ == Set::<u32>::empty(),
    {
        let r = ChannelSet { ids: Vec::new() };
        assert(r.ids@.to_set() =~= Set::<u32>::empty());
        r
    }

    fn position(&self, id: u32) -> (r: Option<usize>)
        ensures
            r matches Some(i) ==> i < self.ids@.len() && self.ids@[i as int] == id,
            r is None ==> !self.ids@.contains(id),
    {
        let mut i: usize = 0;
        while i < self.ids.len()
            invariant
                i <= self.ids@.len(),
                forall|k: int| 0 <= k < i ==> self.ids@[k] != id,
            decreases self.ids@.len() - i,
        {
            if self.ids[i] == id {
                return Some(i);
            }
            i = i + 1;
        }
        None
    }

    pub fn contains(&self, id: u32) -> (r: bool)
        ensures
            r == self@.contains(id),
    {
        self.position(id).is_some()
    }

    /// Records a channel that opened.
    pub fn open(&mut self, id: u32)
        requires
            old(self).wf(),
        ensures
            final(self).wf(),
            final(self)@ == old(self)@.insert(id),
    {
        if self.position(id).is_none() {
            let ghost before = self.ids@;
            self.ids.push(id);
            proof {
                assert(self.ids@ == before.push(id));
                assert forall|a: int, b: int|
                    0 <= a < self.ids@.len() && 0 <= b < self.ids@.len() && a != b implies self.ids@[a]
                    != self.ids@[b] by {
                    if a < before.len() && b < before.len() {
                    } else if a == before.len() {
                        assert(before.contains(self.ids@[b]) || b == a);
                    } else {
                        assert(before.contains(self.ids@[a]));
                    }
                }
                assert forall|x: u32| self.ids@.contains(x) <==> (before.contains(x) || x == id) by {
                    if self.ids@.contains(x) {
                        let k = choose|k: int| 0 <= k < self.ids@.len() && self.ids@[k] == x;
                        if k < before.len() {
                            assert(before[k] == x);
                        }
                    }
                    if before.contains(x) {
                        let k = choose|k: int| 0 <= k < before.len() && before[k] == x;
                        assert(self.ids@[k] == x);
                    }
                    if x == id {
                        assert(self.ids@[before.len() as int] == x);
                    }
                }
                assert(self.ids@.to_set() =~= before.to_set().insert(id));
            }
        } else {
            assert(old(self)@.insert(id) =~= old(self)@);
        }
    }

    /// Forgets a channel that closed; says whether it was open.
    pub fn close(&mut self, id: u32) -> (r: bool)
        requires
            old(self).wf(),
        ensures
            final(self).wf(),
            r == old(self)@.contains(id),
            final(self)@ == old(self)@.remove(id),
    {
        match self.position(id) {
            Some(i) => {
                let ghost before = self.ids@;
                self.ids.remove(i);
                proof {
                    assert(self.ids@ =~= before.remove(i as int));
                    assert forall|x: u32| self.ids@.contains(x) <==> (before.contains(x) && x != id) by {
                        if self.ids@.contains(x) {
                            let k = choose|k: int| 0 <= k < self.ids@.len() && self.ids@[k] == x;
                            if k < i {
                                assert(before[k] == x);
                            } else {
                                assert(before[k + 1] == x);
                            }
                        }
                        if before.contains(x) && x != id {
                            let k = choose|k: int| 0 <= k < before.len() && before[k] == x;
                            if k < i {
                                assert(self.ids@[k] == x);
                            } else {
                                assert(self.ids@[k - 1] == x);
                            }
                        }
                    }
                    assert(self.ids@.to_set() =~= before.to_set().remove(id));
                }
                true
            },
            None => {
                assert(old(self)@.remove(id) =~= old(self)@);
                false
            },
        }
    }

    /// Admits a push addressed to, or received from, `id` only if that
    /// channel is open.
    pub fn check(&self, id: u32) -> (r: Result<(), RouteError>)
        ensures
            r is Ok <==> self@.contains(id),
            r is Err ==> r == Err::<(), _>(RouteError::UnknownChannel(id)),
    {
        if self.contains(id) {
            Ok(())
        } else {
            Err(RouteError::UnknownChannel(id))
        }
    }

    /// The open channels, each once, for a fan-out.
    pub fn ids(&self) -> (r: Vec<u32>)
        requires
            self.wf(),
        ensures
            r@.to_set() == self@,
            r@.no_duplicates(),
            r@.len() == self@.len(),
    {
        proof {
            self.ids@.unique_seq_to_set();
        }
        self.ids.clone()
    }
}

} // verus!
