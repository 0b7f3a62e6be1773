//! The registry of sessions that are in flight.
//!
//! A session is a connection to a homeserver under an opaque identifier. The
//! registry is a mapping from identifiers to connections; it knows nothing of
//! what a connection is, and hands one out for exclusive use only through
//! `get_mut`. Sharing it between tasks is the caller's business: every
//! operation here takes the registry by reference and returns without
//! waiting on anything.

use vstd::prelude::*;

verus! {

/// The sessions that are in flight: each identifier with the connection that
/// was registered under it. No identifier is held twice.
///
/// Identifiers and connections are kept side by side, at the same places of
/// two lists, so that a connection can be lent out for changes while the
/// identifiers stay as they are.
pub struct SessionRegistry<C> {
    ids: Vec<String>,
    connections: Vec<C>,
}

/// The identifiers that a list of strings spells.
spec fn texts(ids: Seq<String>) -> Seq<Seq<char>> {
    ids.map_values(|id: String| id@)
}

/// The mapping that a list of distinct identifiers and the list of their
/// connections stand for.
spec fn as_map<C>(keys: Seq<Seq<char>>, connections: Seq<C>) -> Map<Seq<char>, C> {
    Map::new(|id: Seq<char>| keys.contains(id), |id: Seq<char>| connections[keys.index_of(id)])
}

/// In a list without repetitions an identifier is found at one place only.
proof fn lemma_entry<C>(keys: Seq<Seq<char>>, connections: Seq<C>, i: int)
    requires
        keys.no_duplicates(),
        0 <= i < keys.len(),
    ensures
        as_map(keys, connections).contains_key(keys[i]),
        as_map(keys, connections)[keys[i]] == connections[i],
        keys.index_of(keys[i]) == i,
{
    let j = keys.index_of(keys[i]);
    assert(0 <= j < keys.len() && keys[j] == keys[i]);
}

/// A list without repetitions spells as many identifiers as it is long.
proof fn lemma_domain<C>(keys: Seq<Seq<char>>, connections: Seq<C>)
    requires
        keys.no_duplicates(),
    ensures
        as_map(keys, connections).dom().finite(),
        as_map(keys, connections).dom().len() == keys.len(),
{
    keys.unique_seq_to_set();
    assert(as_map(keys, connections).dom() =~= keys.to_set());
}

impl<C> View for SessionRegistry<C> {
    type V = Map<Seq<char>, C>;

    closed spec fn view(&self) -> Map<Seq<char>, C> {
        as_map(texts(self.ids@), self.connections@)
    }
}

impl<C> Default for SessionRegistry<C> {
    /// A registry without sessions.
    fn default() -> (r: Self)
        ensures
            r@ == Map::<Seq<char>, C>::empty(),
    {
        SessionRegistry::new()
    }
}

impl<C> SessionRegistry<C> {
    #[verifier::type_invariant]
    spec fn well_formed(self) -> bool {
        &&& self.ids@.len() == self.connections@.len()
        &&& texts(self.ids@).no_duplicates()
    }

    /// A registry without sessions.
    pub fn new() -> (r: Self)
        ensures
            r@ == Map::<Seq<char>, C>::empty(),
    {
        let r = SessionRegistry { ids: Vec::new(), connections: Vec::new() };
        assert(r@ =~= Map::<Seq<char>, C>::empty());
        r
    }

    /// The place of `id` among the identifiers, if it is there.
    fn position(&self, id: &str) -> (r: Option<usize>)
        ensures
            match r {
                Some(i) => i < self.ids@.len() && texts(self.ids@)[i as int] == id@,
                None => !texts(self.ids@).contains(id@),
            },
    {
        let key: String = id.to_owned();
        let mut i: usize = 0;
        while i < self.ids.len()
            invariant
                i <= self.ids.len(),
                key@ == id@,
                forall|j: int| 0 <= j < i ==> texts(self.ids@)[j] != id@,
            decreases self.ids.len() - i,
        {
            if self.ids[i] == key {
                return Some(i);
            }
            i += 1;
        }
        None
    }

    /// How many sessions are registered.
    pub fn len(&self) -> (r: usize)
        ensures
            self@.dom().finite(),
            r == self@.len(),
    {
        proof {
            use_type_invariant(self);
            lemma_domain(texts(self.ids@), self.connections@);
        }
        self.ids.len()
    }

    /// Whether a session is registered under `id`.
    pub fn contains(&self, id: &str) -> (r: bool)
        ensures
            r == self@.contains_key(id@),
    {
        self.position(id).is_some()
    }

    /// The connection registered under `id`, for reading.
    pub fn get(&self, id: &str) -> (r: Option<&C>)
        ensures
            match r {
                Some(connection) => self@.contains_key(id@) && *connection == self@[id@],
                None => !self@.contains_key(id@),
            },
    {
        proof {
            use_type_invariant(self);
        }
        match self.position(id) {
            Some(i) => {
                proof {
                    lemma_entry(texts(self.ids@), self.connections@, i as int);
                }
                Some(&self.connections[i])
            },
            None => None,
        }
    }

    /// The connection registered under `id`, for exclusive use: the very
    /// connection that the registry holds, so that what the caller does to it
    /// is what the registry holds afterwards.
    pub fn get_mut(&mut self, id: &str) -> (r: Option<&mut C>)
        ensures
            match r {
                Some(connection) => {
                    &&& old(self)@.contains_key(id@)
                    &&& *connection == old(self)@[id@]
                    &&& final(self)@ == old(self)@.insert(id@, *final(connection))
                },
                None => !old(self)@.contains_key(id@) && final(self)@ == old(self)@,
            },
    {
        proof {
            use_type_invariant(&*self);
        }
        match self.position(id) {
            Some(i) => {
                proof {
                    lemma_entry(texts(self.ids@), self.connections@, i as int);
                }
                Some(&mut self.connections[i])
            },
            None => None,
        }
    }

    /// Registers `connection` under `id`. A session that was registered under
    /// `id` before gives way to it, and its connection is handed back.
    pub fn insert(&mut self, id: String, connection: C) -> (previous: Option<C>)
        ensures
            final(self)@ == old(self)@.insert(id@, connection),
            previous == if old(self)@.contains_key(id@) {
                Some(old(self)@[id@])
            } else {
                None
            },
    {
        proof {
            use_type_invariant(&*self);
        }
        let ghost keys = texts(self.ids@);
        let ghost before = self.connections@;
        match self.position(id.as_str()) {
            Some(i) => {
                let mut held = connection;
                std::mem::swap(&mut self.connections[i], &mut held);
                proof {
                    lemma_entry(keys, before, i as int);
                }
                Some(held)
            },
            None => {
                let mut taken = SessionRegistry { ids: Vec::new(), connections: Vec::new() };
                std::mem::swap(self, &mut taken);
                let SessionRegistry { mut ids, mut connections } = taken;
                ids.push(id);
                connections.push(connection);
                proof {
                    let grown = texts(ids@);
                    assert(grown =~= keys.push(id@));
                    assert forall|k: Seq<char>| keys.contains(k) implies grown.contains(k) by {
                        assert(grown[keys.index_of(k)] == k);
                    }
                    assert(grown[keys.len() as int] == id@);
                    assert(as_map(grown, connections@) =~= as_map(keys, before).insert(
                        id@,
                        connection,
                    ));
                }
                *self = SessionRegistry { ids, connections };
                None
            },
        }
    }

    /// Takes the session under `id` out of the registry and hands its
    /// connection back; without such a session the registry stays as it is.
    pub fn remove(&mut self, id: &str) -> (removed: Option<C>)
        ensures
            final(self)@ == old(self)@.remove(id@),
            removed == if old(self)@.contains_key(id@) {
                Some(old(self)@[id@])
            } else {
                None
            },
    {
        proof {
            use_type_invariant(&*self);
        }
        let ghost keys = texts(self.ids@);
        let ghost before = self.connections@;
        match self.position(id) {
            Some(i) => {
                let mut taken = SessionRegistry { ids: Vec::new(), connections: Vec::new() };
                std::mem::swap(self, &mut taken);
                let SessionRegistry { mut ids, mut connections } = taken;
                let _ = ids.remove(i);
                let connection = connections.remove(i);
                proof {
                    let left = texts(ids@);
                    let after = connections@;
                    lemma_entry(keys, before, i as int);
                    assert(left =~= keys.remove(i as int));
                    assert forall|k: Seq<char>| left.contains(k) implies keys.contains(k) by {
                        let j = left.index_of(k);
                        assert(keys[if j < i { j } else { j + 1 }] == k);
                    }
                    assert forall|k: Seq<char>| keys.contains(k) && k != id@ implies left.contains(
                        k,
                    ) by {
                        let j = keys.index_of(k);
                        assert(left[if j < i { j } else { j - 1 }] == k);
                    }
                    assert(as_map(left, after) =~= as_map(keys, before).remove(id@));
                }
                *self = SessionRegistry { ids, connections };
                Some(connection)
            },
            None => {
                assert(self@ =~= old(self)@.remove(id@));
                None
            },
        }
    }
}

/// A session that has just been registered is found under its identifier
/// with the very connection that it was registered with; and what is done
/// to that connection where it was found is what the registry holds from
/// then on, as if the session had been registered with the connection in
/// its new state.
pub proof fn lemma_registered_session_is_found<C>(
    before: Map<Seq<char>, C>,
    id: Seq<char>,
    connection: C,
    changed: C,
)
    ensures
        before.insert(id, connection).contains_key(id),
        before.insert(id, connection)[id] == connection,
        before.insert(id, connection).insert(id, changed) == before.insert(id, changed),
{
    assert(before.insert(id, connection).insert(id, changed) =~= before.insert(id, changed));
}

} // verus!
