//! The set of hashes of inbound transactions that have been fulfilled.
use vstd::prelude::*;

verus! {

/// Whether two byte vectors hold the same bytes.
pub fn bytes_equal(a: &Vec<u8>, b: &Vec<u8>) -> (r: bool)
    ensures
        r == (a@ == b@),
{
    if a.len() != b.len() {
        return false;
    }
    let mut i: usize = 0;
    while i < a.len()
        invariant
            a@.len() == b@.len(),
            i <= a@.len(),
            forall|j: int| 0 <= j < i ==> a@[j] == b@[j],
        decreases a@.len() - i,
    {
        if a[i] != b[i] {
            return false;
        }
        i = i + 1;
    }
    assert(a@ =~= b@);
    true
}

/// Hashes of fulfilled transactions, each held once.
pub struct ReplayGuard {
    hashes: Vec<Vec<u8>>,
}

impl View for ReplayGuard {
    type V = Set<Seq<u8>>;

    closed spec fn view(&self) -> Set<Seq<u8>> {
        Set::new(|h: Seq<u8>| self.entries().contains(h))
    }
}

impl ReplayGuard {
    /// The hashes in the order they were added.
    pub closed spec fn entries(&self) -> Seq<Seq<u8>> {
        self.hashes@.map_values(|h: Vec<u8>| h@)
    }

    /// No hash is held twice.
    pub closed spec fn wf(&self) -> bool {
        self.entries().no_duplicates()
    }

    pub fn new() -> (r: ReplayGuard)
        ensures
            r.wf(),
            r@ == Set::<Seq<u8>>::empty(),
    {
        let r = ReplayGuard { hashes: Vec::new() };
        assert(r@ =~= Set::<Seq<u8>>::empty());
        r
    }

    fn position(&self, hash: &Vec<u8>) -> (r: Option<usize>)
        ensures
            r matches Some(i) ==> i < self.hashes@.len() && self.entries()[i as int] == hash@,
            r is None ==> !self.entries().contains(hash@),
    {
        let mut i: usize = 0;
        while i < self.hashes.len()
            invariant
                i <= self.hashes@.len(),
                forall|j: int| 0 <= j < i ==> self.entries()[j] != hash@,
            decreases self.hashes@.len() - i,
        {
            if bytes_equal(&self.hashes[i], hash) {
                return Some(i);
            }
            i = i + 1;
        }
        None
    }

    /// The recorded hashes, each once, in the order they were added.
    pub fn hashes(&self) -> (r: &Vec<Vec<u8>>)
        requires
            self.wf(),
        ensures
            r@.map_values(|h: Vec<u8>| h@).no_duplicates(),
            forall|h: Seq<u8>| self@.contains(h) <==> r@.map_values(|v: Vec<u8>| v@).contains(h),
    {
        &self.hashes
    }

    /// Whether the hash has been recorded.
    pub fn contains(&self, hash: &Vec<u8>) -> (r: bool)
        ensures
            r == self@.contains(hash@),
    {
        self.position(hash).is_some()
    }

    /// Records a hash that is not yet held.
    pub fn insert(&mut self, hash: Vec<u8>)
        requires
            old(self).wf(),
            !old(self)@.contains(hash@),
        ensures
            final(self).wf(),
            final(self)@ == old(self)@.insert(hash@),
    {
        let ghost h = hash@;
        self.hashes.push(hash);
        let ghost old_entries = old(self).entries();
        assert(self.entries() =~= old_entries.push(h));
        assert forall|x: Seq<u8>| #[trigger] self@.contains(x) <==> old(self)@.insert(h).contains(x) by {
            if old_entries.contains(x) {
                let k = choose|k: int| 0 <= k < old_entries.len() && old_entries[k] == x;
                assert(self.entries()[k] == x);
            }
            if x == h {
                assert(self.entries()[old_entries.len() as int] == x);
            }
            if self.entries().contains(x) && x != h {
                let k = choose|k: int| 0 <= k < self.entries().len() && self.entries()[k] == x;
                assert(old_entries[k] == x);
            }
        }
        assert(self@ =~= old(self)@.insert(h));
    }

    /// Forgets a hash; nothing changes where it is not held.
    pub fn remove(&mut self, hash: &Vec<u8>)
        requires
            old(self).wf(),
        ensures
            final(self).wf(),
            final(self)@ == old(self)@.remove(hash@),
    {
        match self.position(hash) {
            Some(i) => {
                let ghost old_entries = self.entries();
                self.hashes.remove(i);
                assert(self.entries() =~= old_entries.remove(i as int));
                assert forall|h: Seq<u8>| #[trigger] self@.contains(h) <==> old(self)@.remove(hash@).contains(h) by {
                    if self.entries().contains(h) {
                        let k = choose|k: int| 0 <= k < self.entries().len() && self.entries()[k] == h;
                        if k < i { assert(old_entries[k] == h); } else { assert(old_entries[k + 1] == h); }
                    }
                    if old_entries.contains(h) && h != hash@ {
                        let k = choose|k: int| 0 <= k < old_entries.len() && old_entries[k] == h;
                        assert(k != i);
                        if k < i { assert(self.entries()[k] == h); } else { assert(self.entries()[k - 1] == h); }
                    }
                }
                assert(self@ =~= old(self)@.remove(hash@));
            }
            None => {
                assert(self@ =~= old(self)@.remove(hash@));
            }
        }
    }
}

} // verus!
