//! The display registry: which connector identifiers already own a panel.
//! A scan over the currently attached displays registers every connector
//! not yet present and reports exactly those, so a panel is never spawned
//! twice for one display. Entries are never removed: display removal has
//! no transition in this design.
use vstd::prelude::*;

verus! {

/// The connectors a scan must register and report as needing a panel,
/// walking the display list front to back: a connector already registered
/// (or seen earlier in the same list) is skipped.
pub open spec fn new_connectors(displays: Seq<Seq<char>>, reg: Set<Seq<char>>) -> Seq<Seq<char>>
    decreases displays.len(),
{
    if displays.len() == 0 {
        Seq::empty()
    } else if reg.contains(displays[0]) {
        new_connectors(displays.drop_first(), reg)
    } else {
        seq![displays[0]] + new_connectors(displays.drop_first(), reg.insert(displays[0]))
    }
}

proof fn lemma_take_one_more(s: Seq<Seq<char>>, i: int)
    requires
        0 <= i < s.len(),
    ensures
        s.take(i + 1).to_set() == s.take(i).to_set().insert(s[i]),
{
    assert(s.take(i + 1) =~= s.take(i) + seq![s[i]]);
    Seq::<Seq<char>>::lemma_to_set_insert_commutes(s.take(i), s[i]);
}

/// The set of connector identifiers that currently own a panel.
pub struct MonitorRegistry {
    connectors: Vec<String>,
}

impl View for MonitorRegistry {
    type V = Set<Seq<char>>;

    closed spec fn view(&self) -> Set<Seq<char>> {
        Set::new(|c: Seq<char>| self.connectors.deep_view().contains(c))
    }
}

impl MonitorRegistry {
    /// No connector is recorded twice.
    pub closed spec fn wf(&self) -> bool {
        forall|i: int, j: int|
            0 <= i < j < self.connectors@.len() ==> self.connectors@[i]@ != self.connectors@[j]@
    }

    /// An empty registry: no display owns a panel yet.
    pub fn new() -> (r: MonitorRegistry)
        ensures
            r.wf(),
            r@ == Set::<Seq<char>>::empty(),
    {
        let r = MonitorRegistry { connectors: Vec::new() };
        proof {
            assert(r@ =~= Set::<Seq<char>>::empty());
        }
        r
    }

    /// Whether this connector already owns a panel.
    pub fn contains(&self, connector: &str) -> (r: bool)
        ensures
            r == self@.contains(connector@),
    {
        let n = self.connectors.len();
        let mut i: usize = 0;
        while i < n
            invariant
                n == self.connectors@.len(),
                i <= n,
                forall|k: int| 0 <= k < i ==> self.connectors@[k]@ != connector@,
            decreases n - i,
        {
            let c: String = connector.to_owned();
            if self.connectors[i] == c {
                proof {
                    assert(self.connectors.deep_view()[i as int] == connector@);
                    assert(self.connectors.deep_view().contains(connector@));
                }
                return true;
            }
            proof {
                assert(self.connectors.deep_view()[i as int] == self.connectors@[i as int]@);
            }
            i = i + 1;
        }
        proof {
            assert forall|k: int| 0 <= k < self.connectors.deep_view().len() implies self
                .connectors
                .deep_view()[k] != connector@ by {
                assert(self.connectors.deep_view()[k] == self.connectors@[k]@);
            }
        }
        false
    }

    fn insert(&mut self, connector: String)
        requires
            old(self).wf(),
            !old(self)@.contains(connector@),
        ensures
            final(self).wf(),
            final(self)@ == old(self)@.insert(connector@),
    {
        proof {
            assert forall|k: int| 0 <= k < old(self).connectors@.len() implies old(
                self,
            ).connectors@[k]@ != connector@ by {
                assert(old(self).connectors.deep_view()[k] == old(self).connectors@[k]@);
            }
        }
        self.connectors.push(connector);
        proof {
            let oldv = old(self).connectors.deep_view();
            let newv = self.connectors.deep_view();
            assert(newv =~= oldv.push(connector@));
            assert(newv[oldv.len() as int] == connector@);
            assert(newv.contains(connector@));
            assert forall|c: Seq<char>| #[trigger] oldv.contains(c) implies newv.contains(c) by {
                let k = choose|k: int| 0 <= k < oldv.len() && oldv[k] == c;
                assert(newv[k] == c);
            }
            assert forall|c: Seq<char>| #[trigger] newv.contains(c) && c != connector@ implies oldv
                .contains(c) by {
                let k = choose|k: int| 0 <= k < newv.len() && newv[k] == c;
                assert(k < oldv.len());
                assert(oldv[k] == c);
            }
            assert(final(self)@ =~= old(self)@.insert(connector@));
        }
    }

    /// One enumeration pass: registers every listed connector that does
    /// not own a panel yet and returns exactly those, in list order, so
    /// the caller spawns one panel per returned connector. Re-running the
    /// scan on an unchanged display list returns nothing.
    pub fn scan(&mut self, displays: &Vec<String>) -> (spawned: Vec<String>)
        requires
            old(self).wf(),
        ensures
            final(self).wf(),
            final(self)@ == old(self)@.union(displays.deep_view().to_set()),
            spawned.deep_view() == new_connectors(displays.deep_view(), old(self)@),
    {
        let ghost dv = displays.deep_view();
        let mut spawned: Vec<String> = Vec::new();
        let n = displays.len();
        let mut i: usize = 0;
        proof {
            assert(dv.take(0).to_set() =~= Set::<Seq<char>>::empty());
            assert(old(self)@.union(dv.take(0).to_set()) =~= old(self)@);
            assert(dv.skip(0) =~= dv);
            assert(spawned.deep_view() =~= Seq::<Seq<char>>::empty());
            assert(spawned.deep_view() + new_connectors(dv, old(self)@) =~= new_connectors(
                dv,
                old(self)@,
            ));
        }
        while i < n
            invariant
                self.wf(),
                n == displays@.len(),
                dv == displays.deep_view(),
                dv.len() == n,
                i <= n,
                self@ == old(self)@.union(dv.take(i as int).to_set()),
                new_connectors(dv, old(self)@) == spawned.deep_view() + new_connectors(
                    dv.skip(i as int),
                    self@,
                ),
            decreases n - i,
        {
            proof {
                assert(dv[i as int] == displays@[i as int]@);
                assert(dv.skip(i as int)[0] == dv[i as int]);
                assert(dv.skip(i as int).drop_first() =~= dv.skip(i + 1));
            }
            let d = &displays[i];
            let ghost prev = self@;
            let ghost prev_sp = spawned.deep_view();
            if !self.contains(d.as_str()) {
                self.insert(d.clone());
                spawned.push(d.clone());
                proof {
                    lemma_take_one_more(dv, i as int);
                    assert(self@ =~= old(self)@.union(dv.take(i + 1).to_set()));
                    assert(new_connectors(dv.skip(i as int), prev) == seq![dv[i as int]]
                        + new_connectors(dv.skip(i + 1), prev.insert(dv[i as int])));
                    assert(spawned.deep_view() =~= prev_sp.push(dv[i as int]));
                    assert(spawned.deep_view() + new_connectors(dv.skip(i + 1), self@)
                        =~= prev_sp + (seq![dv[i as int]] + new_connectors(
                        dv.skip(i + 1),
                        prev.insert(dv[i as int]),
                    )));
                }
            } else {
                proof {
                    lemma_take_one_more(dv, i as int);
                    assert(self@ =~= old(self)@.union(dv.take(i + 1).to_set()));
                    assert(new_connectors(dv.skip(i as int), self@) == new_connectors(
                        dv.skip(i + 1),
                        self@,
                    ));
                }
            }
            i = i + 1;
        }
        proof {
            assert(dv.take(n as int) =~= dv);
            assert(dv.skip(n as int) =~= Seq::<Seq<char>>::empty());
            assert(spawned.deep_view() + Seq::<Seq<char>>::empty() =~= spawned.deep_view());
        }
        spawned
    }

    /// How many displays own a panel.
    pub fn len(&self) -> (r: usize)
        requires
            self.wf(),
        ensures
            r == self@.len(),
    {
        proof {
            self.lemma_len();
        }
        self.connectors.len()
    }

    proof fn lemma_len(&self)
        requires
            self.wf(),
        ensures
            self@.len() == self.connectors@.len(),
    {
        let dv = self.connectors.deep_view();
        assert forall|i: int, j: int| 0 <= i < j < dv.len() implies dv[i] != dv[j] by {
            assert(dv[i] == self.connectors@[i]@);
            assert(dv[j] == self.connectors@[j]@);
        }
        dv.unique_seq_to_set();
        assert(self@ =~= dv.to_set());
    }
}

/// Law of idempotence: scanning a display list whose every connector is
/// already registered registers nothing and reports nothing to spawn.
pub proof fn lemma_scan_idempotent(displays: Seq<Seq<char>>, reg: Set<Seq<char>>)
    requires
        forall|i: int| 0 <= i < displays.len() ==> reg.contains(displays[i]),
    ensures
        new_connectors(displays, reg).len() == 0,
        reg.union(displays.to_set()) == reg,
    decreases displays.len(),
{
    if displays.len() > 0 {
        assert(reg.contains(displays[0]));
        lemma_scan_idempotent(displays.drop_first(), reg);
    }
    assert(reg.union(displays.to_set()) =~= reg);
}

} // verus!
