use vstd::prelude::*;

use crate::ids::UniversalIdType;

verus! {

/// An open socket: where to reach it, and who is signed in on it.
#[derive(Clone, Debug)]
pub struct OpenSocketData<A> {
    pub addr: A,
    pub user_name: String,
}

/// An open socket as the contracts speak of it.
pub struct SocketEntry<A> {
    pub id: Seq<u8>,
    pub addr: A,
    pub user_name: Seq<char>,
}

/// Some socket in `s` has id `id`.
pub open spec fn has_socket<A>(s: Seq<SocketEntry<A>>, id: Seq<u8>) -> bool {
    exists|i: int| 0 <= i < s.len() && (#[trigger] s[i]).id == id
}

/// The position of the socket with id `id` in `s` (meaningful where there is one).
pub open spec fn socket_position<A>(s: Seq<SocketEntry<A>>, id: Seq<u8>) -> int {
    choose|i: int| 0 <= i < s.len() && (#[trigger] s[i]).id == id
}

/// No two sockets of `s` share an id.
pub open spec fn ids_distinct<A>(s: Seq<SocketEntry<A>>) -> bool {
    forall|i: int, j: int| 0 <= i < s.len() && 0 <= j < s.len() && i != j ==> (#[trigger] s[i]).id != (#[trigger] s[j]).id
}

/// `s` after registering `e`: a socket with the same id is replaced in place,
/// otherwise `e` is appended.
pub open spec fn registry_insert<A>(s: Seq<SocketEntry<A>>, e: SocketEntry<A>) -> Seq<SocketEntry<A>> {
    if has_socket(s, e.id) {
        s.update(socket_position(s, e.id), e)
    } else {
        s.push(e)
    }
}

/// `s` after dropping the socket with id `id`, if there is one.
pub open spec fn registry_remove<A>(s: Seq<SocketEntry<A>>, id: Seq<u8>) -> Seq<SocketEntry<A>> {
    if has_socket(s, id) {
        s.remove(socket_position(s, id))
    } else {
        s
    }
}

/// The names of the users on the sockets of `s`, in order.
pub open spec fn user_names_of<A>(s: Seq<SocketEntry<A>>) -> Seq<Seq<char>> {
    s.map_values(|e: SocketEntry<A>| e.user_name)
}

/// Whether two socket ids are the same.
pub fn ids_equal(a: &UniversalIdType, b: &UniversalIdType) -> (r: bool)
    ensures
        r == (a@ == b@),
{
    let mut i: usize = 0;
    while i < 32
        invariant
            0 <= i <= 32,
            a@.len() == 32,
            b@.len() == 32,
            forall|j: int| 0 <= j < i ==> a@[j] == b@[j],
        decreases 32 - i,
    {
        if a[i] != b[i] {
            assert(a@[i as int] != b@[i as int]);
            return false;
        }
        i = i + 1;
    }
    assert(a@ =~= b@);
    true
}

/// The open sockets, in the order they were registered.
pub struct SocketRegistry<A> {
    entries: Vec<(UniversalIdType, OpenSocketData<A>)>,
}

impl<A> View for SocketRegistry<A> {
    type V = Seq<SocketEntry<A>>;

    closed spec fn view(&self) -> Seq<SocketEntry<A>> {
        self.entries@.map_values(
            |p: (UniversalIdType, OpenSocketData<A>)|
                SocketEntry { id: p.0@, addr: p.1.addr, user_name: p.1.user_name@ },
        )
    }
}

impl<A> SocketRegistry<A> {
    /// No two open sockets share an id.
    pub open spec fn wf(&self) -> bool {
        ids_distinct(self@)
    }

    /// An empty registry.
    pub fn new() -> (r: SocketRegistry<A>)
        ensures
            r.wf(),
            r@ == Seq::<SocketEntry<A>>::empty(),
    {
        let r = SocketRegistry { entries: Vec::new() };
        assert(r@ =~= Seq::<SocketEntry<A>>::empty());
        r
    }

    /// The number of open sockets.
    pub fn len(&self) -> (r: usize)
        ensures
            r == self@.len(),
    {
        self.entries.len()
    }

    /// Where to reach the socket at position `i`.
    pub fn addr_at(&self, i: usize) -> (r: &A)
        requires
            i < self@.len(),
        ensures
            *r == self@[i as int].addr,
    {
        &self.entries[i].1.addr
    }

    /// Position of the socket with id `id`, if there is one.
    fn find(&self, id: &UniversalIdType) -> (r: Option<usize>)
        requires
            self.wf(),
        ensures
            r is None <==> !has_socket(self@, id@),
            r matches Some(i) ==> i < self@.len() && i == socket_position(self@, id@),
    {
        let mut i: usize = 0;
        while i < self.entries.len()
            invariant
                self.wf(),
                0 <= i <= self@.len(),
                self@.len() == self.entries@.len(),
                forall|j: int| 0 <= j < i ==> (#[trigger] self@[j]).id != id@,
            decreases self.entries@.len() - i,
        {
            if ids_equal(&self.entries[i].0, id) {
                proof {
                    assert(self@[i as int].id == id@);
                    let p = socket_position(self@, id@);
                    assert(self@[p].id == id@);
                    if p != i as int {
                        assert(self@[p].id != self@[i as int].id);
                    }
                }
                return Some(i);
            }
            assert(self@[i as int].id != id@);
            i = i + 1;
        }
        None
    }

    /// Whether a socket with id `id` is open.
    pub fn contains(&self, id: &UniversalIdType) -> (r: bool)
        requires
            self.wf(),
        ensures
            r == has_socket(self@, id@),
    {
        self.find(id).is_some()
    }

    /// Registers a socket; one with the same id is replaced.
    pub fn insert(&mut self, id: UniversalIdType, data: OpenSocketData<A>)
        requires
            old(self).wf(),
        ensures
            final(self).wf(),
            final(self)@ == registry_insert(
                old(self)@,
                SocketEntry { id: id@, addr: data.addr, user_name: data.user_name@ },
            ),
    {
        let ghost s0 = self@;
        let ghost e = SocketEntry { id: id@, addr: data.addr, user_name: data.user_name@ };
        match self.find(&id) {
            Some(i) => {
                self.entries[i] = (id, data);
                proof {
                    assert(self@ =~= s0.update(i as int, e));
                    assert forall|a: int, b: int| 0 <= a < self@.len() && 0 <= b < self@.len() && a != b
                        implies (#[trigger] self@[a]).id != (#[trigger] self@[b]).id by {
                        assert(s0[a].id != s0[b].id);
                    }
                }
            },
            None => {
                self.entries.push((id, data));
                proof {
                    assert(self@ =~= s0.push(e));
                    assert forall|a: int, b: int| 0 <= a < self@.len() && 0 <= b < self@.len() && a != b
                        implies (#[trigger] self@[a]).id != (#[trigger] self@[b]).id by {
                        if a < s0.len() && b < s0.len() {
                            assert(s0[a].id != s0[b].id);
                        } else if a < s0.len() {
                            assert(self@[a] == s0[a]);
                        } else {
                            assert(self@[b] == s0[b]);
                        }
                    }
                }
            },
        }
    }

    /// Drops the socket with id `id`, handing it back if there was one.
    pub fn remove(&mut self, id: &UniversalIdType) -> (r: Option<OpenSocketData<A>>)
        requires
            old(self).wf(),
        ensures
            final(self).wf(),
            final(self)@ == registry_remove(old(self)@, id@),
            r is Some <==> has_socket(old(self)@, id@),
            !has_socket(final(self)@, id@),
            forall|i: int|
                0 <= i < old(self)@.len() && (#[trigger] old(self)@[i]).id != id@ ==> final(self)@.contains(
                    old(self)@[i],
                ),
            has_socket(old(self)@, id@) ==> final(self)@.len() == old(self)@.len() - 1,
            !has_socket(old(self)@, id@) ==> final(self)@ == old(self)@,
            r matches Some(d) ==> d.addr == old(self)@[socket_position(old(self)@, id@)].addr
                && d.user_name@ == old(self)@[socket_position(old(self)@, id@)].user_name,
    {
        let ghost s0 = self@;
        match self.find(id) {
            Some(i) => {
                let (_, data) = self.entries.remove(i);
                proof {
                    assert(self@ =~= s0.remove(i as int));
                    assert forall|a: int, b: int| 0 <= a < self@.len() && 0 <= b < self@.len() && a != b
                        implies (#[trigger] self@[a]).id != (#[trigger] self@[b]).id by {
                        let a0 = if a < i { a } else { a + 1 };
                        let b0 = if b < i { b } else { b + 1 };
                        assert(self@[a] == s0[a0]);
                        assert(self@[b] == s0[b0]);
                        assert(s0[a0].id != s0[b0].id);
                    }
                    assert forall|a: int|
                        0 <= a < s0.len() && (#[trigger] s0[a]).id != id@ implies self@.contains(s0[a]) by {
                        let a1 = if a < i { a } else { a - 1 };
                        assert(self@[a1] == s0[a]);
                    }
                    if has_socket(self@, id@) {
                        let b = choose|b: int| 0 <= b < self@.len() && (#[trigger] self@[b]).id == id@;
                        let b0 = if b < i { b } else { b + 1 };
                        assert(self@[b] == s0[b0]);
                        assert(s0[b0].id != s0[i as int].id);
                    }
                }
                Some(data)
            },
            None => None,
        }
    }

    /// The names of the users on the open sockets, in order.
    pub fn user_names(&self) -> (r: Vec<String>)
        ensures
            r@.map_values(|s: String| s@) == user_names_of(self@),
    {
        let mut names: Vec<String> = Vec::new();
        let mut i: usize = 0;
        while i < self.entries.len()
            invariant
                0 <= i <= self@.len(),
                self@.len() == self.entries@.len(),
                names@.len() == i,
                forall|j: int| 0 <= j < i ==> (#[trigger] names@[j])@ == self@[j].user_name,
            decreases self.entries@.len() - i,
        {
            names.push(self.entries[i].1.user_name.clone());
            i = i + 1;
        }
        assert(names@.map_values(|s: String| s@) =~= user_names_of(self@));
        names
    }
}

} // verus!
