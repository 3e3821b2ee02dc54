use vstd::prelude::*;

verus! {

/// The keys that the host reports.
#[derive(Clone, Copy, Debug, PartialEq, Eq, Structural)]
pub enum Key {
    KeyW,
    KeyA,
    KeyS,
    KeyD,
    Shift,
    Control,
    Space,
}

/// A key that was pressed or released.
#[derive(Clone, Copy, Debug, PartialEq, Eq, Structural)]
pub struct KeyEvent {
    pub key: Key,
    pub released: bool,
}

/// The set of keys currently held, kept as a list without repetitions.
#[derive(Clone, Debug)]
pub struct PressedKeys {
    keys: Vec<Key>,
}

impl PressedKeys {
    pub closed spec fn view(&self) -> Set<Key> {
        self.keys@.to_set()
    }

    pub closed spec fn wf(&self) -> bool {
        self.keys@.no_duplicates()
    }

    pub fn new() -> (r: PressedKeys)
        ensures
            r.wf(),
            r@ == Set::<Key>::empty(),
    {
        let r = PressedKeys { keys: Vec::new() };
        assert(r.keys@.to_set() =~= Set::<Key>::empty());
        r
    }

    fn position(&self, key: Key) -> (r: Option<usize>)
        ensures
            r matches Some(i) ==> i < self.keys@.len() && self.keys@[i as int] == key,
            r is None ==> !self.keys@.contains(key),
    {
        let mut i: usize = 0;
        while i < self.keys.len()
            invariant
                i <= self.keys@.len(),
                forall|j: int| 0 <= j < i ==> self.keys@[j] != key,
            decreases self.keys@.len() - i,
        {
            if self.keys[i] == key {
                return Some(i);
            }
            i += 1;
        }
        None
    }

    /// Whether `key` is held.
    pub fn contains(&self, key: Key) -> (r: bool)
        ensures
            r == self@.contains(key),
    {
        self.position(key).is_some()
    }

    /// Applies one event: a release removes the key, a press adds it.
    pub fn apply(&mut self, event: KeyEvent)
        requires
            old(self).wf(),
        ensures
            final(self).wf(),
            event.released ==> final(self)@ == old(self)@.remove(event.key),
            !event.released ==> final(self)@ == old(self)@.insert(event.key),
    {
        let found = self.position(event.key);
        if event.released {
            if let Some(i) = found {
                let ghost before = self.keys@;
                self.keys.swap_remove(i);
                proof {
                    assert forall|k: Key| #[trigger] self.keys@.contains(k) <==> before.to_set().remove(event.key).contains(k) by {
                        if before.contains(k) && k != event.key {
                            let j = choose|j: int| 0 <= j < before.len() && before[j] == k;
                            if j == before.len() - 1 {
                                assert(self.keys@[i as int] == k);
                            } else {
                                assert(self.keys@[j] == k);
                            }
                        }
                        if self.keys@.contains(k) {
                            let j = choose|j: int| 0 <= j < self.keys@.len() && self.keys@[j] == k;
                            if j == i {
                                assert(before[before.len() - 1] == k);
                            } else {
                                assert(before[j] == k);
                            }
                        }
                    }
                    assert(self.keys@.to_set() =~= before.to_set().remove(event.key));
                    assert forall|a: int, b: int| 0 <= a < b < self.keys@.len() implies self.keys@[a] != self.keys@[b] by {
                        let ia = if a == i { before.len() - 1 } else { a };
                        let ib = if b == i { before.len() - 1 } else { b };
                        assert(self.keys@[a] == before[ia]);
                        assert(self.keys@[b] == before[ib]);
                    }
                }
            } else {
                assert(self.keys@.to_set() =~= self.keys@.to_set().remove(event.key));
            }
        } else {
            if found.is_none() {
                let ghost before = self.keys@;
                self.keys.push(event.key);
                proof {
                    assert(self.keys@ == before.push(event.key));
                    assert forall|k: Key| #[trigger] self.keys@.contains(k) <==> before.to_set().insert(event.key).contains(k) by {
                        if self.keys@.contains(k) {
                            let j = choose|j: int| 0 <= j < self.keys@.len() && self.keys@[j] == k;
                            if j < before.len() {
                                assert(before[j] == k);
                            }
                        }
                        if before.contains(k) {
                            let j = choose|j: int| 0 <= j < before.len() && before[j] == k;
                            assert(self.keys@[j] == k);
                        }
                        if k == event.key {
                            assert(self.keys@[before.len() as int] == k);
                        }
                    }
                    assert(self.keys@.to_set() =~= before.to_set().insert(event.key));
                }
            } else {
                let i = found.unwrap();
                assert(self.keys@.contains(self.keys@[i as int]));
                assert(self.keys@.to_set() =~= self.keys@.to_set().insert(event.key));
            }
        }
    }

    /// A copy of this set.
    pub fn duplicate(&self) -> (r: PressedKeys)
        requires
            self.wf(),
        ensures
            r.wf(),
            r@ == self@,
    {
        PressedKeys { keys: self.keys.clone() }
    }

    /// A snapshot of the held keys, in no particular order.
    pub fn iterate(&self) -> (r: Vec<Key>)
        requires
            self.wf(),
        ensures
            r@.to_set() == self@,
            r@.no_duplicates(),
    {
        self.keys.clone()
    }
}

} // verus!
