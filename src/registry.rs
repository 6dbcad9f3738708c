use vstd::prelude::*;
use crate::keyed::{without_value, KeyedList};

verus! {

/// The open connections: connection id to send handle, held as two parallel
/// vectors with distinct ids.
pub struct ConnectionTable<H> {
    ids: Vec<u64>,
    handles: Vec<H>,
    model: Ghost<Map<u64, H>>,
}

impl<H> View for ConnectionTable<H> {
    type V = Map<u64, H>;

    closed spec fn view(&self) -> Map<u64, H> {
        self.model@
    }
}

impl<H> ConnectionTable<H> {
    /// As many ids as handles, no id twice, and the view holds exactly the
    /// pairs at equal positions.
    pub closed spec fn wf(&self) -> bool {
        &&& self.ids.len() == self.handles.len()
        &&& forall|i: int, j: int|
            0 <= i < j < self.ids.len() ==> #[trigger] self.ids@[i] != #[trigger] self.ids@[j]
        &&& forall|i: int|
            0 <= i < self.ids.len() ==> {
                &&& self.model@.contains_key(#[trigger] self.ids@[i])
                &&& self.model@[self.ids@[i]] == self.handles@[i]
            }
        &&& forall|k: u64|
            #[trigger] self.model@.contains_key(k) ==> exists|i: int|
                0 <= i < self.ids.len() && #[trigger] self.ids@[i] == k
    }

    /// No open connection.
    pub fn new() -> (r: Self)
        ensures
            r.wf(),
            r@ == Map::<u64, H>::empty(),
    {
        ConnectionTable { ids: Vec::new(), handles: Vec::new(), model: Ghost(Map::empty()) }
    }

    fn find(&self, id: u64) -> (r: Option<usize>)
        requires
            self.wf(),
        ensures
            match r {
                Some(i) => i < self.ids.len() && self.ids@[i as int] == id,
                None => !self@.contains_key(id),
            },
    {
        let mut i: usize = 0;
        while i < self.ids.len()
            invariant
                self.wf(),
                i <= self.ids.len(),
                forall|j: int| 0 <= j < i ==> self.ids@[j] != id,
            decreases self.ids.len() - i,
        {
            if self.ids[i] == id {
                return Some(i);
            }
            i += 1;
        }
        None
    }

    /// The handle of connection `id`, if it is open.
    pub fn get(&self, id: u64) -> (r: Option<&H>)
        requires
            self.wf(),
        ensures
            match r {
                Some(h) => self@.contains_key(id) && *h == self@[id],
                None => !self@.contains_key(id),
            },
    {
        match self.find(id) {
            Some(i) => Some(&self.handles[i]),
            None => None,
        }
    }

    /// Records connection `id` with handle `h`, replacing an earlier handle.
    pub fn insert(&mut self, id: u64, h: H)
        requires
            old(self).wf(),
        ensures
            final(self).wf(),
            final(self)@ == old(self)@.insert(id, h),
    {
        let ghost m = self.model@.insert(id, h);
        match self.find(id) {
            Some(i) => {
                self.handles.set(i, h);
                self.model = Ghost(m);
                assert forall|k: u64| #[trigger] self.model@.contains_key(k) implies exists|j: int|
                    0 <= j < self.ids.len() && #[trigger] self.ids@[j] == k by {
                    if k == id {
                        assert(self.ids@[i as int] == k);
                    }
                }
            },
            None => {
                let ghost n = self.ids.len();
                self.ids.push(id);
                self.handles.push(h);
                self.model = Ghost(m);
                assert(self.ids@[n as int] == id);
                assert forall|k: u64| #[trigger] self.model@.contains_key(k) implies exists|j: int|
                    0 <= j < self.ids.len() && #[trigger] self.ids@[j] == k by {
                    if k == id {
                        assert(self.ids@[n as int] == k);
                    } else {
                        assert(old(self).model@.contains_key(k));
                        let j = choose|j: int| 0 <= j < old(self).ids.len() && #[trigger] old(self).ids@[j] == k;
                        assert(self.ids@[j] == k);
                    }
                }
            },
        }
    }

    /// Forgets connection `id`.
    pub fn remove(&mut self, id: u64) -> (r: Option<H>)
        requires
            old(self).wf(),
        ensures
            final(self).wf(),
            final(self)@ == old(self)@.remove(id),
            match r {
                Some(h) => old(self)@.contains_key(id) && h == old(self)@[id],
                None => !old(self)@.contains_key(id),
            },
    {
        match self.find(id) {
            Some(i) => {
                let ghost m = self.model@.remove(id);
                let ghost ok = self.ids@;
                let _ = self.ids.remove(i);
                let h = self.handles.remove(i);
                self.model = Ghost(m);
                assert forall|j: int| 0 <= j < self.ids.len() implies {
                    &&& self.model@.contains_key(#[trigger] self.ids@[j])
                    &&& self.model@[self.ids@[j]] == self.handles@[j]
                } by {
                    if j < i {
                        assert(ok[j] != ok[i as int]);
                    } else {
                        assert(ok[j + 1] != ok[i as int]);
                    }
                }
                assert forall|k: u64| #[trigger] self.model@.contains_key(k) implies exists|j: int|
                    0 <= j < self.ids.len() && #[trigger] self.ids@[j] == k by {
                    let j = choose|j: int| 0 <= j < ok.len() && #[trigger] ok[j] == k;
                    assert(j != i);
                    if j < i {
                        assert(self.ids@[j] == k);
                    } else {
                        assert(self.ids@[j - 1] == k);
                    }
                }
                assert forall|a: int, b: int|
                    0 <= a < b < self.ids.len() implies #[trigger] self.ids@[a] != #[trigger] self.ids@[b] by {
                    let a2 = if a < i { a } else { a + 1 };
                    let b2 = if b < i { b } else { b + 1 };
                    assert(ok[a2] != ok[b2]);
                }
                Some(h)
            },
            None => {
                assert(self.model@.remove(id) =~= self.model@);
                None
            },
        }
    }
}

/// Why an instance key could not be resolved to an open connection.
#[derive(Clone, Copy, Debug, PartialEq, Eq, Structural)]
pub enum LookupError {
    /// No connection is bound to the instance key.
    UnboundInstance,
    /// The connection bound to the key is no longer open.
    ConnectionClosed,
}

/// The bindings after binding `key` to connection `id`: the binding is
/// recorded, over any earlier one of that key, only while `id` is open.
pub open spec fn bind_spec<H>(
    conns: Map<u64, H>,
    bindings: Map<Seq<char>, u64>,
    key: Seq<char>,
    id: u64,
) -> Map<Seq<char>, u64> {
    if conns.contains_key(id) {
        bindings.insert(key, id)
    } else {
        bindings
    }
}

/// The connection that instance `key` resolves to.
pub open spec fn route_spec<H>(
    conns: Map<u64, H>,
    bindings: Map<Seq<char>, u64>,
    key: Seq<char>,
) -> Result<u64, LookupError> {
    if !bindings.contains_key(key) {
        Err(LookupError::UnboundInstance)
    } else if !conns.contains_key(bindings[key]) {
        Err(LookupError::ConnectionClosed)
    } else {
        Ok(bindings[key])
    }
}

/// The sessions: open connections with their send handles, and the binding
/// of each instance key to the connection that initiated it.
pub struct SessionRegistry<H> {
    connections: ConnectionTable<H>,
    bindings: KeyedList<u64>,
}

impl<H> SessionRegistry<H> {
    /// Open connections, by id.
    pub closed spec fn connections_view(&self) -> Map<u64, H> {
        self.connections@
    }

    /// Instance bindings, by instance key.
    pub closed spec fn bindings_view(&self) -> Map<Seq<char>, u64> {
        self.bindings@
    }

    /// Both tables are well formed and every binding points at an open
    /// connection.
    pub closed spec fn wf(&self) -> bool {
        &&& self.connections.wf()
        &&& self.bindings.wf()
        &&& forall|k: Seq<char>| #[trigger] self.bindings@.contains_key(k)
            ==> self.connections@.contains_key(self.bindings@[k])
    }

    /// No connection and no binding.
    pub fn new() -> (r: Self)
        ensures
            r.wf(),
            r.connections_view() == Map::<u64, H>::empty(),
            r.bindings_view() == Map::<Seq<char>, u64>::empty(),
    {
        SessionRegistry { connections: ConnectionTable::new(), bindings: KeyedList::new() }
    }

    /// Records the opening of connection `id` with send handle `h`.
    pub fn connect(&mut self, id: u64, h: H)
        requires
            old(self).wf(),
        ensures
            final(self).wf(),
            final(self).connections_view() == old(self).connections_view().insert(id, h),
            final(self).bindings_view() == old(self).bindings_view(),
    {
        self.connections.insert(id, h);
    }

    /// Records the closing of connection `id`: its handle and every instance
    /// binding that points at it are dropped.
    pub fn disconnect(&mut self, id: u64)
        requires
            old(self).wf(),
        ensures
            final(self).wf(),
            final(self).connections_view() == old(self).connections_view().remove(id),
            final(self).bindings_view() == without_value(old(self).bindings_view(), id),
    {
        let _ = self.connections.remove(id);
        self.bindings.remove_value(id);
    }

    /// Binds instance `key` to connection `id`, over any earlier binding of
    /// the key; returns false, and changes nothing, when `id` is not open.
    pub fn bind(&mut self, key: &String, id: u64) -> (r: bool)
        requires
            old(self).wf(),
        ensures
            final(self).wf(),
            r == old(self).connections_view().contains_key(id),
            final(self).connections_view() == old(self).connections_view(),
            final(self).bindings_view() == bind_spec(
                old(self).connections_view(),
                old(self).bindings_view(),
                key@,
                id,
            ),
    {
        match self.connections.get(id) {
            Some(_) => {
                self.bindings.insert(key.clone(), id);
                true
            },
            None => false,
        }
    }

    /// The connection bound to instance `key`, if any.
    pub fn connection_for(&self, key: &String) -> (r: Option<u64>)
        requires
            self.wf(),
        ensures
            match r {
                Some(id) => self.bindings_view().contains_key(key@) && id == self.bindings_view()[key@],
                None => !self.bindings_view().contains_key(key@),
            },
    {
        match self.bindings.get(key) {
            Some(id) => Some(*id),
            None => None,
        }
    }

    /// The send handle of connection `id`, if it is open.
    pub fn send_handle_for(&self, id: u64) -> (r: Option<&H>)
        requires
            self.wf(),
        ensures
            match r {
                Some(h) => self.connections_view().contains_key(id) && *h == self.connections_view()[id],
                None => !self.connections_view().contains_key(id),
            },
    {
        self.connections.get(id)
    }

    /// Resolves instance `key` to the open connection bound to it.
    pub fn route(&self, key: &String) -> (r: Result<u64, LookupError>)
        requires
            self.wf(),
        ensures
            r == route_spec(self.connections_view(), self.bindings_view(), key@),
            r != Err::<u64, LookupError>(LookupError::ConnectionClosed),
    {
        match self.bindings.get(key) {
            None => Err(LookupError::UnboundInstance),
            Some(id) => match self.connections.get(*id) {
                Some(_) => Ok(*id),
                None => Err(LookupError::ConnectionClosed),
            },
        }
    }
}

} // verus!
