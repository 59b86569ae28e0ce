use vstd::prelude::*;

use crate::clock::Timestamp;
use crate::dto::{SessionData, SessionEntry};
use crate::ids::is_session_key;

verus! {

/// The sessions that are still live at `now`: those whose expiry lies after it.
pub open spec fn live_sessions(
    m: Map<Seq<char>, SessionEntry>,
    now: Timestamp,
) -> Map<Seq<char>, SessionEntry> {
    Map::new(|k: Seq<char>| m.contains_key(k) && now.precedes(m[k].expiry), |k: Seq<char>| m[k])
}

/// Every key of a session map is a session id that decodes to a socket id.
pub open spec fn keys_are_session_ids(m: Map<Seq<char>, SessionEntry>) -> bool {
    forall|k: Seq<char>| #[trigger] m.contains_key(k) ==> is_session_key(k)
}

/// The table of open sessions, keyed by session id.
pub struct SessionTable {
    entries: Vec<(String, SessionData)>,
    model: Ghost<Map<Seq<char>, SessionEntry>>,
}

impl View for SessionTable {
    type V = Map<Seq<char>, SessionEntry>;

    closed spec fn view(&self) -> Map<Seq<char>, SessionEntry> {
        self.model@
    }
}

impl SessionTable {
    /// The table is well formed: each session id occurs once, the entries
    /// hold exactly the sessions of the view, and each id decodes to a socket id.
    pub closed spec fn wf(&self) -> bool {
        let e = self.entries@;
        let m = self.model@;
        &&& forall|i: int, j: int|
            0 <= i < j < e.len() ==> (#[trigger] e[i]).0@ != (#[trigger] e[j]).0@
        &&& forall|i: int|
            0 <= i < e.len() ==> m.contains_key((#[trigger] e[i]).0@) && m[e[i].0@] == e[i].1@
        &&& forall|k: Seq<char>|
            #[trigger] m.contains_key(k) ==> exists|i: int| 0 <= i < e.len() && (#[trigger] e[i]).0@ == k
        &&& keys_are_session_ids(m)
    }

    /// Every session id of a well-formed table decodes to a socket id.
    pub proof fn lemma_keys_are_session_ids(&self)
        requires
            self.wf(),
        ensures
            keys_are_session_ids(self@),
    {
    }

    /// An empty table.
    pub fn new() -> (r: SessionTable)
        ensures
            r.wf(),
            r@ == Map::<Seq<char>, SessionEntry>::empty(),
    {
        SessionTable { entries: Vec::new(), model: Ghost(Map::empty()) }
    }

    /// The number of open sessions.
    pub fn len(&self) -> (r: usize)
        requires
            self.wf(),
        ensures
            r == self@.len(),
    {
        proof { self.lemma_len(); }
        self.entries.len()
    }

    proof fn lemma_len(&self)
        requires
            self.wf(),
        ensures
            self@.dom().finite(),
            self@.len() == self.entries@.len(),
        decreases self.entries@.len(),
    {
        let e = self.entries@;
        let keys = e.map_values(|p: (String, SessionData)| p.0@);
        assert forall|i: int, j: int| 0 <= i < keys.len() && 0 <= j < keys.len() && i != j
            implies keys[i] != keys[j] by {
            if i < j {
                assert(e[i].0@ != e[j].0@);
            } else {
                assert(e[j].0@ != e[i].0@);
            }
        }
        assert(keys.no_duplicates());
        assert forall|k: Seq<char>| self@.dom().contains(k) <==> keys.contains(k) by {
            if self@.dom().contains(k) {
                let i = choose|i: int| 0 <= i < e.len() && (#[trigger] e[i]).0@ == k;
                assert(keys[i] == k);
            }
            if keys.contains(k) {
                let i = choose|i: int| 0 <= i < keys.len() && keys[i] == k;
                assert(e[i].0@ == k);
            }
        }
        assert(self@.dom() =~= keys.to_set());
        keys.unique_seq_to_set();
    }

    /// Index of the entry with session id `key`, if there is one.
    fn find(&self, key: &String) -> (r: Option<usize>)
        requires
            self.wf(),
        ensures
            r is None <==> !self@.contains_key(key@),
            r matches Some(i) ==> i < self.entries@.len() && self.entries@[i as int].0@ == key@,
    {
        let mut i: usize = 0;
        while i < self.entries.len()
            invariant
                self.wf(),
                0 <= i <= self.entries@.len(),
                forall|j: int| 0 <= j < i ==> (#[trigger] self.entries@[j]).0@ != key@,
            decreases self.entries@.len() - i,
        {
            if self.entries[i].0 == *key {
                return Some(i);
            }
            i = i + 1;
        }
        proof {
            if self@.contains_key(key@) {
                let j = choose|j: int| 0 <= j < self.entries@.len() && (#[trigger] self.entries@[j]).0@ == key@;
                assert(self.entries@[j].0@ != key@);
            }
        }
        None
    }

    /// The session with id `key`, if there is one.
    pub fn get(&self, key: &String) -> (r: Option<&SessionData>)
        requires
            self.wf(),
        ensures
            r is Some <==> self@.contains_key(key@),
            r matches Some(d) ==> d@ == self@[key@],
    {
        match self.find(key) {
            Some(i) => Some(&self.entries[i].1),
            None => None,
        }
    }

    /// Whether a session with id `key` is open.
    pub fn contains_key(&self, key: &String) -> (r: bool)
        requires
            self.wf(),
        ensures
            r == self@.contains_key(key@),
    {
        self.find(key).is_some()
    }

    /// Removes the entry at index `i`.
    fn remove_at(&mut self, i: usize) -> (r: SessionData)
        requires
            old(self).wf(),
            i < old(self).entries@.len(),
        ensures
            final(self).wf(),
            final(self).entries@ == old(self).entries@.remove(i as int),
            final(self)@ == old(self)@.remove(old(self).entries@[i as int].0@),
            old(self)@.contains_key(old(self).entries@[i as int].0@),
            r@ == old(self)@[old(self).entries@[i as int].0@],
    {
        let ghost e0 = self.entries@;
        let ghost m0 = self.model@;
        let ghost key = e0[i as int].0@;
        let (_, data) = self.entries.remove(i);
        self.model = Ghost(m0.remove(key));
        proof {
            let e = self.entries@;
            let m = self.model@;
            assert forall|a: int, b: int| 0 <= a < b < e.len() implies (#[trigger] e[a]).0@
                != (#[trigger] e[b]).0@ by {
                let a0 = if a < i { a } else { a + 1 };
                let b0 = if b < i { b } else { b + 1 };
                assert(e[a] == e0[a0]);
                assert(e[b] == e0[b0]);
                assert(e0[a0].0@ != e0[b0].0@);
            }
            assert forall|a: int| 0 <= a < e.len() implies m.contains_key((#[trigger] e[a]).0@)
                && m[e[a].0@] == e[a].1@ by {
                let a0 = if a < i { a } else { a + 1 };
                assert(e[a] == e0[a0]);
                if a0 < i {
                    assert(e0[a0].0@ != e0[i as int].0@);
                } else {
                    assert(e0[i as int].0@ != e0[a0].0@);
                }
            }
            assert forall|k: Seq<char>| #[trigger] m.contains_key(k) implies exists|a: int|
                0 <= a < e.len() && (#[trigger] e[a]).0@ == k by {
                let a0 = choose|a0: int| 0 <= a0 < e0.len() && (#[trigger] e0[a0]).0@ == k;
                assert(a0 != i);
                let a = if a0 < i { a0 } else { a0 - 1 };
                assert(e[a] == e0[a0]);
            }
        }
        data
    }

    /// Removes the session with id `key`, handing it back if there was one.
    pub fn remove(&mut self, key: &String) -> (r: Option<SessionData>)
        requires
            old(self).wf(),
        ensures
            final(self).wf(),
            final(self)@ == old(self)@.remove(key@),
            r is Some <==> old(self)@.contains_key(key@),
            r matches Some(d) ==> d@ == old(self)@[key@],
    {
        match self.find(key) {
            Some(i) => Some(self.remove_at(i)),
            None => {
                assert(self@ =~= old(self)@.remove(key@));
                None
            },
        }
    }

    /// Opens or replaces the session with id `key`.
    pub(crate) fn insert(&mut self, key: String, data: SessionData)
        requires
            old(self).wf(),
            is_session_key(key@),
        ensures
            final(self).wf(),
            final(self)@ == old(self)@.insert(key@, data@),
    {
        let ghost m0 = self.model@;
        let ghost e0 = self.entries@;
        let ghost k = key@;
        let ghost v = data@;
        match self.find(&key) {
            Some(i) => {
                self.entries[i] = (key, data);
                self.model = Ghost(m0.insert(k, v));
                proof {
                    let e = self.entries@;
                    let m = self.model@;
                    assert forall|a: int, b: int| 0 <= a < b < e.len() implies (#[trigger] e[a]).0@
                        != (#[trigger] e[b]).0@ by {
                        assert(e0[a].0@ != e0[b].0@);
                    }
                    assert forall|a: int| 0 <= a < e.len() implies m.contains_key((#[trigger] e[a]).0@)
                        && m[e[a].0@] == e[a].1@ by {
                        if a != i {
                            if a < i {
                                assert(e0[a].0@ != e0[i as int].0@);
                            } else {
                                assert(e0[i as int].0@ != e0[a].0@);
                            }
                        }
                    }
                    assert forall|kk: Seq<char>| #[trigger] m.contains_key(kk) implies exists|a: int|
                        0 <= a < e.len() && (#[trigger] e[a]).0@ == kk by {
                        if kk == k {
                            assert(e[i as int].0@ == kk);
                        } else {
                            let a = choose|a: int| 0 <= a < e0.len() && (#[trigger] e0[a]).0@ == kk;
                            assert(e[a] == e0[a]);
                        }
                    }
                }
            },
            None => {
                self.entries.push((key, data));
                self.model = Ghost(m0.insert(k, v));
                proof {
                    let e = self.entries@;
                    let m = self.model@;
                    let n = e0.len() as int;
                    assert forall|a: int, b: int| 0 <= a < b < e.len() implies (#[trigger] e[a]).0@
                        != (#[trigger] e[b]).0@ by {
                        if b < n {
                            assert(e[a] == e0[a] && e[b] == e0[b]);
                        } else {
                            assert(e[a] == e0[a]);
                            assert(m0.contains_key(e0[a].0@));
                        }
                    }
                    assert forall|a: int| 0 <= a < e.len() implies m.contains_key((#[trigger] e[a]).0@)
                        && m[e[a].0@] == e[a].1@ by {
                        if a < n {
                            assert(e[a] == e0[a]);
                            assert(m0.contains_key(e0[a].0@));
                        }
                    }
                    assert forall|kk: Seq<char>| #[trigger] m.contains_key(kk) implies exists|a: int|
                        0 <= a < e.len() && (#[trigger] e[a]).0@ == kk by {
                        if kk == k {
                            assert(e[n].0@ == kk);
                        } else {
                            let a = choose|a: int| 0 <= a < e0.len() && (#[trigger] e0[a]).0@ == kk;
                            assert(e[a] == e0[a]);
                        }
                    }
                }
            },
        }
    }

    /// Moves the expiry of the open session `key` to `expiry`.
    pub(crate) fn set_expiry(&mut self, key: &String, expiry: Timestamp)
        requires
            old(self).wf(),
            old(self)@.contains_key(key@),
        ensures
            final(self).wf(),
            final(self)@ == old(self)@.insert(
                key@,
                SessionEntry { user_name: old(self)@[key@].user_name, expiry },
            ),
    {
        let ghost m0 = self.model@;
        let ghost e0 = self.entries@;
        let ghost v = SessionEntry { user_name: m0[key@].user_name, expiry };
        match self.find(key) {
            Some(i) => {
                self.entries[i].1.expiry = expiry;
                self.model = Ghost(m0.insert(key@, v));
                proof {
                    let e = self.entries@;
                    let m = self.model@;
                    assert(e[i as int].0 == e0[i as int].0);
                    assert forall|a: int, b: int| 0 <= a < b < e.len() implies (#[trigger] e[a]).0@
                        != (#[trigger] e[b]).0@ by {
                        assert(e[a].0 == e0[a].0 && e[b].0 == e0[b].0);
                        assert(e0[a].0@ != e0[b].0@);
                    }
                    assert forall|a: int| 0 <= a < e.len() implies m.contains_key((#[trigger] e[a]).0@)
                        && m[e[a].0@] == e[a].1@ by {
                        if a != i {
                            assert(e[a] == e0[a]);
                            if a < i {
                                assert(e0[a].0@ != e0[i as int].0@);
                            } else {
                                assert(e0[i as int].0@ != e0[a].0@);
                            }
                        }
                    }
                    assert forall|kk: Seq<char>| #[trigger] m.contains_key(kk) implies exists|a: int|
                        0 <= a < e.len() && (#[trigger] e[a]).0@ == kk by {
                        let a = choose|a: int| 0 <= a < e0.len() && (#[trigger] e0[a]).0@ == kk;
                        assert(e[a].0 == e0[a].0);
                    }
                }
            },
            None => {},
        }
    }

    /// Drops every session whose expiry does not lie after `now`.
    pub fn retain_live(&mut self, now: Timestamp)
        requires
            old(self).wf(),
        ensures
            final(self).wf(),
            final(self)@ == live_sessions(old(self)@, now),
    {
        let ghost m0 = self.model@;
        let mut i: usize = 0;
        while i < self.entries.len()
            invariant
                self.wf(),
                0 <= i <= self.entries@.len(),
                forall|j: int| 0 <= j < i ==> now.precedes((#[trigger] self.entries@[j]).1.expiry),
                forall|k: Seq<char>| #[trigger] self@.contains_key(k) ==> m0.contains_key(k) && self@[k] == m0[k],
                forall|k: Seq<char>| #[trigger] m0.contains_key(k) && now.precedes(m0[k].expiry)
                    ==> self@.contains_key(k),
            decreases self.entries@.len() - i,
        {
            if now.is_before(&self.entries[i].1.expiry) {
                i = i + 1;
            } else {
                let ghost before = self.entries@;
                let _ = self.remove_at(i);
                proof {
                    let e = self.entries@;
                    assert forall|j: int| 0 <= j < i implies now.precedes((#[trigger] e[j]).1.expiry) by {
                        assert(e[j] == before[j]);
                    }
                }
            }
        }
        proof {
            let e = self.entries@;
            assert forall|k: Seq<char>| #[trigger] self@.contains_key(k) implies now.precedes(self@[k].expiry) by {
                let a = choose|a: int| 0 <= a < e.len() && (#[trigger] e[a]).0@ == k;
            }
            assert(self@ =~= live_sessions(m0, now));
        }
    }
}

} // verus!
