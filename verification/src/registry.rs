use vstd::prelude::*;

verus! {

/// Grace period waited exactly once after close frames are sent during
/// shutdown, in time-units, regardless of how many entries existed.
pub const GRACE_PERIOD: u64 = 10;

/// Process-wide state recording which feed identifiers currently have a
/// live transport entry.
///
/// The registry is the only place allowed to mutate connection state. It
/// is constructed once at startup and handed by shared reference to every
/// consumption loop and to the shutdown path. The transports themselves
/// are owned by the unverified shell, keyed by the same identifiers; the
/// shell performs a transport operation for `id` exactly when a decision
/// function of this type tells it to.
pub struct Registry {
    ids: Vec<String>,
}

impl View for Registry {
    type V = Set<Seq<char>>;

    /// The set of feed identifiers that currently have a live entry.
    closed spec fn view(&self) -> Set<Seq<char>> {
        self.ids@.map_values(|s: String| s@).to_set()
    }
}

impl Registry {
    /// The identifiers that currently have an entry, in insertion order.
    pub closed spec fn ids_seq(&self) -> Seq<Seq<char>> {
        self.ids@.map_values(|s: String| s@)
    }

    /// At most one entry per feed identifier.
    pub closed spec fn wf(&self) -> bool {
        forall|i: int, j: int|
            0 <= i < j < self.ids_seq().len() ==> self.ids_seq()[i] != self.ids_seq()[j]
    }

    /// An empty registry, as the process starts with.
    pub fn new() -> (r: Registry)
        ensures
            r.wf(),
            r@ == Set::<Seq<char>>::empty(),
            r.ids_seq() == Seq::<Seq<char>>::empty(),
    {
        let r = Registry { ids: Vec::new() };
        proof {
            assert(r.ids_seq() =~= Seq::<Seq<char>>::empty());
            assert(r@ =~= Set::<Seq<char>>::empty());
        }
        r
    }

    /// Whether `id` currently has a live entry.
    pub fn contains(&self, id: &String) -> (b: bool)
        ensures
            b == self@.contains(id@),
    {
        let mut k: usize = 0;
        while k < self.ids.len()
            invariant
                k <= self.ids.len(),
                forall|j: int| 0 <= j < k ==> self.ids@[j]@ != id@,
            decreases self.ids.len() - k,
        {
            if self.ids[k] == *id {
                proof {
                    assert(self.ids_seq()[k as int] == id@);
                    assert(self.ids_seq().contains(id@));
                }
                return true;
            }
            k += 1;
        }
        proof {
            assert(forall|j: int|
                0 <= j < self.ids_seq().len() ==> self.ids_seq()[j] != id@);
            assert(!self.ids_seq().contains(id@));
        }
        false
    }

    /// Inserts an entry for `id`; a no-op when one already exists, so that
    /// code paths racing to reconnect the same feed never create a
    /// duplicate entry.
    pub fn register(&mut self, id: &String)
        requires
            old(self).wf(),
        ensures
            final(self).wf(),
            final(self)@ == old(self)@.insert(id@),
    {
        if !self.contains(id) {
            proof {
                assert(!self.ids_seq().contains(id@));
            }
            self.ids.push(id.clone());
            proof {
                let olds = old(self).ids_seq();
                let news = self.ids_seq();
                assert(news =~= olds.push(id@));
                assert forall|a: Seq<char>| news.contains(a) <==> (olds.contains(a) || a
                    == id@) by {
                    if news.contains(a) {
                        let w = choose|w: int| 0 <= w < news.len() && news[w] == a;
                        if w < olds.len() {
                            assert(olds[w] == a);
                            assert(olds.contains(a));
                        }
                    }
                    if olds.contains(a) {
                        let w = choose|w: int| 0 <= w < olds.len() && olds[w] == a;
                        assert(news[w] == a);
                        assert(news.contains(a));
                    }
                    if a == id@ {
                        assert(news[news.len() - 1] == a);
                        assert(news.contains(a));
                    }
                }
                assert(self@ =~= old(self)@.insert(id@));
                assert forall|i: int, j: int|
                    0 <= i < j < news.len() implies news[i] != news[j] by {
                    if j == news.len() - 1 {
                        assert(olds[i] == news[i]);
                        assert(olds.contains(news[i]));
                    }
                }
            }
        } else {
            proof {
                assert(self@.contains(id@));
                assert(self@ =~= old(self)@.insert(id@));
            }
        }
    }

    /// The position of `id` among the registered identifiers, if present.
    fn index_of(&self, id: &String) -> (r: Option<usize>)
        ensures
            match r {
                Some(k) => k < self.ids_seq().len() && self.ids_seq()[k as int] == id@,
                None => !self.ids_seq().contains(id@),
            },
    {
        let mut k: usize = 0;
        while k < self.ids.len()
            invariant
                k <= self.ids.len(),
                forall|j: int| 0 <= j < k ==> self.ids@[j]@ != id@,
            decreases self.ids.len() - k,
        {
            if self.ids[k] == *id {
                return Some(k);
            }
            k += 1;
        }
        proof {
            assert(forall|j: int|
                0 <= j < self.ids_seq().len() ==> self.ids_seq()[j] != id@);
        }
        None
    }

    /// Removes the entry for `id`, if any.
    pub fn remove(&mut self, id: &String)
        requires
            old(self).wf(),
        ensures
            final(self).wf(),
            final(self)@ == old(self)@.remove(id@),
    {
        let ghost olds = old(self).ids_seq();
        let found = self.index_of(id);
        match found {
            Some(k) => {
                proof {
                    assert(olds[k as int] == id@);
                }
                self.ids.remove(k);
                proof {
                    let news = self.ids_seq();
                    assert(news =~= olds.remove(k as int));
                    olds.remove_ensures(k as int);
                    assert forall|a: Seq<char>| news.contains(a) <==> (olds.contains(a) && a
                        != id@) by {
                        if news.contains(a) {
                            let w = choose|w: int| 0 <= w < news.len() && news[w] == a;
                            if w < k {
                                assert(olds[w] == a);
                            } else {
                                assert(olds[w + 1] == a);
                            }
                            assert(olds.contains(a));
                            let v = choose|v: int| 0 <= v < olds.len() && olds[v] == a;
                            if a == id@ {
                                if w < k {
                                    assert(olds[w] == olds[k as int]);
                                    assert(false);
                                } else {
                                    assert(olds[w + 1] == olds[k as int]);
                                    assert(false);
                                }
                            }
                        }
                        if olds.contains(a) && a != id@ {
                            let v = choose|v: int| 0 <= v < olds.len() && olds[v] == a;
                            if v < k {
                                assert(news[v] == a);
                            } else {
                                assert(v != k);
                                assert(news[v - 1] == a);
                            }
                            assert(news.contains(a));
                        }
                    }
                    assert(self@ =~= old(self)@.remove(id@));
                    assert forall|i: int, j: int|
                        0 <= i < j < news.len() implies news[i] != news[j] by {
                        let oi = if i < k { i } else { i + 1 };
                        let oj = if j < k { j } else { j + 1 };
                        assert(news[i] == olds[oi]);
                        assert(news[j] == olds[oj]);
                    }
                }
            },
            None => {
                proof {
                    assert(!self@.contains(id@));
                    assert(self@ =~= old(self)@.remove(id@));
                }
            },
        }
    }

    /// Drains the registry for shutdown: hands back every registered
    /// identifier, to each of which the shell sends a close handshake
    /// frame, together with the grace period to wait afterwards.
    ///
    /// The grace period is waited exactly once and does not depend on how
    /// many entries existed (including none) nor on how many close sends
    /// succeed; individual close failures are logged by the shell, never
    /// propagated.
    pub fn close_all(&mut self) -> (r: (Vec<String>, u64))
        requires
            old(self).wf(),
        ensures
            final(self).wf(),
            final(self)@ == Set::<Seq<char>>::empty(),
            r.0@.map_values(|s: String| s@) == old(self).ids_seq(),
            r.0@.map_values(|s: String| s@).to_set() == old(self)@,
            r.1 == GRACE_PERIOD,
    {
        let mut drained: Vec<String> = Vec::new();
        core::mem::swap(&mut self.ids, &mut drained);
        proof {
            assert(self.ids_seq() =~= Seq::<Seq<char>>::empty());
            assert(self@ =~= Set::<Seq<char>>::empty());
        }
        (drained, GRACE_PERIOD)
    }
}

} // verus!
