use vstd::prelude::*;

verus! {

/// What a port needs to settle one admitted delivery with its transport later:
/// the channel it arrived on and the transport's tag for it.
#[derive(Debug)]
pub struct PendingDelivery {
    pub consume_channel_id: String,
    pub delivery_tag: u64,
}

/// The deliveries admitted under an acknowledging guarantee and not yet
/// settled, keyed by event identifier.
pub struct PendingDeliveries {
    entries: Vec<(String, PendingDelivery)>,
    contents: Ghost<Map<Seq<char>, PendingDelivery>>,
}

impl View for PendingDeliveries {
    type V = Map<Seq<char>, PendingDelivery>;

    closed spec fn view(&self) -> Map<Seq<char>, PendingDelivery> {
        self.contents@
    }
}

impl PendingDeliveries {
    /// The table's keys are distinct and its entries are exactly its contents.
    pub closed spec fn wf(&self) -> bool {
        &&& self.contents@.dom().finite()
        &&& self.contents@.dom().len() == self.entries@.len()
        &&& forall|i: int, j: int|
            0 <= i < j < self.entries@.len() ==> self.entries@[i].0@ != self.entries@[j].0@
        &&& forall|i: int|
            0 <= i < self.entries@.len() ==> {
                &&& #[trigger] self.contents@.contains_key(self.entries@[i].0@)
                &&& self.contents@[self.entries@[i].0@] == self.entries@[i].1
            }
        &&& forall|k: Seq<char>| #[trigger]
            self.contents@.contains_key(k) ==> exists|i: int|
                0 <= i < self.entries@.len() && self.entries@[i].0@ == k
    }

    pub fn new() -> (r: PendingDeliveries)
        ensures
            r.wf(),
            r@ == Map::<Seq<char>, PendingDelivery>::empty(),
    {
        PendingDeliveries { entries: Vec::new(), contents: Ghost(Map::empty()) }
    }

    /// The number of pending deliveries.
    pub fn len(&self) -> (r: usize)
        requires
            self.wf(),
        ensures
            r == self@.len(),
    {
        self.entries.len()
    }

    fn position(&self, key: &String) -> (r: Option<usize>)
        requires
            self.wf(),
        ensures
            match r {
                Some(i) => i < self.entries@.len() && self.entries@[i as int].0@ == key@,
                None => !self@.contains_key(key@),
            },
    {
        let mut i: usize = 0;
        while i < self.entries.len()
            invariant
                self.wf(),
                0 <= i <= self.entries@.len(),
                forall|k: int| 0 <= k < i ==> self.entries@[k].0@ != key@,
            decreases self.entries@.len() - i,
        {
            if self.entries[i].0 == *key {
                return Some(i);
            }
            i = i + 1;
        }
        None
    }

    /// Whether a delivery is pending under `key`.
    pub fn contains(&self, key: &String) -> (r: bool)
        requires
            self.wf(),
        ensures
            r == self@.contains_key(key@),
    {
        self.position(key).is_some()
    }

    /// Records a delivery under `key`. A key that is already pending is a
    /// collision: the table keeps the earlier delivery and reports it.
    pub fn insert(&mut self, key: String, delivery: PendingDelivery) -> (collision: bool)
        requires
            old(self).wf(),
        ensures
            final(self).wf(),
            collision == old(self)@.contains_key(key@),
            collision ==> final(self)@ == old(self)@,
            !collision ==> final(self)@ == old(self)@.insert(key@, delivery),
    {
        if self.position(&key).is_some() {
            return true;
        }
        let ghost k = key@;
        let ghost d = delivery;
        let ghost old_entries = self.entries@;
        self.entries.push((key, delivery));
        self.contents = Ghost(self.contents@.insert(k, d));
        proof {
            let n = old_entries.len() as int;
            assert(self.entries@[n].0@ == k);
            assert forall|kk: Seq<char>| #[trigger] self.contents@.contains_key(kk) implies exists|i: int|
                0 <= i < self.entries@.len() && self.entries@[i].0@ == kk by {
                if kk == k {
                    assert(self.entries@[n].0@ == kk);
                } else {
                    assert(old(self).contents@.contains_key(kk));
                    let i = choose|i: int| 0 <= i < old_entries.len() && old_entries[i].0@ == kk;
                    assert(self.entries@[i] == old_entries[i]);
                }
            }
            assert forall|i: int| 0 <= i < self.entries@.len() implies {
                &&& #[trigger] self.contents@.contains_key(self.entries@[i].0@)
                &&& self.contents@[self.entries@[i].0@] == self.entries@[i].1
            } by {
                if i < n {
                    assert(self.entries@[i] == old_entries[i]);
                    assert(old(self).contents@.contains_key(old_entries[i].0@));
                }
            }
            assert forall|i: int, j: int|
                0 <= i < j < self.entries@.len() implies self.entries@[i].0@ != self.entries@[j].0@ by {
                assert(self.entries@[i] == old_entries[i]);
                if j < n {
                    assert(self.entries@[j] == old_entries[j]);
                } else {
                    assert(old(self).contents@.contains_key(old_entries[i].0@));
                }
            }
        }
        false
    }

    /// Takes the delivery pending under `key` out of the table.
    pub fn remove(&mut self, key: &String) -> (r: Option<PendingDelivery>)
        requires
            old(self).wf(),
        ensures
            final(self).wf(),
            final(self)@ == old(self)@.remove(key@),
            old(self)@.contains_key(key@) ==> r == Some(old(self)@[key@]),
            !old(self)@.contains_key(key@) ==> r is None,
    {
        match self.position(key) {
            None => {
                assert(self@.remove(key@) =~= self@);
                None
            },
            Some(p) => {
                let ghost old_entries = self.entries@;
                let ghost k = key@;
                let (_, delivery) = self.entries.remove(p);
                self.contents = Ghost(self.contents@.remove(k));
                proof {
                    let n = old_entries.len() as int;
                    assert(old(self).contents@.contains_key(old_entries[p as int].0@));
                    assert forall|kk: Seq<char>| #[trigger] self.contents@.contains_key(kk) implies exists|i: int|
                        0 <= i < self.entries@.len() && self.entries@[i].0@ == kk by {
                        assert(old(self).contents@.contains_key(kk));
                        let i = choose|i: int| 0 <= i < n && old_entries[i].0@ == kk;
                        assert(i != p);
                        if i < p {
                            assert(self.entries@[i] == old_entries[i]);
                        } else {
                            assert(self.entries@[i - 1] == old_entries[i]);
                        }
                    }
                    assert forall|i: int| 0 <= i < self.entries@.len() implies {
                        &&& #[trigger] self.contents@.contains_key(self.entries@[i].0@)
                        &&& self.contents@[self.entries@[i].0@] == self.entries@[i].1
                    } by {
                        if i < p {
                            assert(self.entries@[i] == old_entries[i]);
                            assert(old(self).contents@.contains_key(old_entries[i].0@));
                        } else {
                            assert(self.entries@[i] == old_entries[i + 1]);
                            assert(old(self).contents@.contains_key(old_entries[i + 1].0@));
                        }
                    }
                    assert forall|i: int, j: int|
                        0 <= i < j < self.entries@.len() implies self.entries@[i].0@ != self.entries@[j].0@ by {
                        let oi = if i < p { i } else { i + 1 };
                        let oj = if j < p { j } else { j + 1 };
                        assert(self.entries@[i] == old_entries[oi]);
                        assert(self.entries@[j] == old_entries[oj]);
                    }
                }
                Some(delivery)
            },
        }
    }

    /// Drops every pending delivery: used when the transport handles they refer
    /// to are replaced and so can no longer settle them.
    pub fn clear(&mut self)
        ensures
            final(self).wf(),
            final(self)@ == Map::<Seq<char>, PendingDelivery>::empty(),
    {
        self.entries = Vec::new();
        self.contents = Ghost(Map::empty());
    }
}

} // verus!
