//! One session per render thread.
//!
//! The registry starts empty. A session is made the first time its thread asks
//! for it and is kept from then on: no entry is ever replaced or removed. The
//! registry does no locking; each session is touched by its own thread only.

use vstd::prelude::*;

verus! {

/// The sessions made so far, by the key of the thread that owns each.
pub struct SessionRegistry<S> {
    keys: Vec<u64>,
    sessions: Vec<S>,
}

impl<S> View for SessionRegistry<S> {
    type V = Map<u64, S>;

    /// The session of each thread that has one.
    closed spec fn view(&self) -> Map<u64, S> {
        entries(self.keys@, self.sessions@)
    }
}

impl<S> SessionRegistry<S> {
    /// What holds of every registry: each key has one session, and no key
    /// occurs twice.
    #[verifier::type_invariant]
    closed spec fn inv(&self) -> bool {
        &&& self.keys@.len() == self.sessions@.len()
        &&& self.keys@.no_duplicates()
    }

    /// The registry with no session in it.
    pub fn new() -> (registry: SessionRegistry<S>)
        ensures
            registry@ == Map::<u64, S>::empty(),
    {
        let registry = SessionRegistry { keys: Vec::new(), sessions: Vec::new() };
        assert(registry@ =~= Map::<u64, S>::empty());
        registry
    }

    /// Whether the thread `key` has a session.
    pub fn contains(&self, key: u64) -> (found: bool)
        ensures
            found == self@.contains_key(key),
    {
        self.position(key).is_some()
    }

    /// The session of the thread `key`, if it has one.
    pub fn get(&self, key: u64) -> (session: Option<&S>)
        ensures
            match session {
                Some(s) => self@.contains_key(key) && *s == self@[key],
                None => !self@.contains_key(key),
            },
    {
        match self.position(key) {
            Some(at) => Some(&self.sessions[at]),
            None => None,
        }
    }

    /// The session of the thread `key`. The first call for a key makes the
    /// session with `create` and keeps it; every later call hands out the session
    /// that is kept, and does not use `create`. Whatever the caller does to the
    /// session is kept as well. The sessions of other threads stay as they are.
    pub fn resolve<F: FnOnce() -> S>(&mut self, key: u64, create: F) -> (session: &mut S)
        requires
            call_requires(create, ()),
        ensures
            old(self)@.contains_key(key) ==> *session == old(self)@[key],
            !old(self)@.contains_key(key) ==> call_ensures(create, (), *session),
            final(self)@ == old(self)@.insert(key, *final(session)),
    {
        proof {
            use_type_invariant(&*self);
        }
        let at: usize = match self.position(key) {
            Some(at) => at,
            None => {
                let made = create();
                proof {
                    lemma_push_is_insert(self.keys@, self.sessions@, key, made);
                }
                let mut taken = SessionRegistry { keys: Vec::new(), sessions: Vec::new() };
                std::mem::swap(self, &mut taken);
                let mut keys = taken.keys;
                let mut sessions = taken.sessions;
                keys.push(key);
                sessions.push(made);
                *self = SessionRegistry { keys, sessions };
                self.keys.len() - 1
            },
        };
        proof {
            let keys = self.keys@;
            let sessions = self.sessions@;
            let started = old(self)@;
            assert forall|v: S| #[trigger]
                entries(keys, sessions.update(at as int, v)) == started.insert(key, v) by {
                lemma_update_is_insert(keys, sessions, at as int, v);
                assert(entries(keys, sessions).insert(key, v) =~= started.insert(key, v));
            }
        }
        &mut self.sessions[at]
    }

    /// Where `key` stands among the keys, if it is there.
    fn position(&self, key: u64) -> (at: Option<usize>)
        ensures
            match at {
                Some(i) => i < self.keys@.len() && i < self.sessions@.len() && self.keys@[i as int]
                    == key && self.keys@.index_of(key) == i && self@.contains_key(key),
                None => !self@.contains_key(key),
            },
    {
        proof {
            use_type_invariant(self);
        }
        let mut i: usize = 0;
        while i < self.keys.len()
            invariant
                i <= self.keys@.len(),
                self.keys@.len() == self.sessions@.len(),
                self.keys@.no_duplicates(),
                forall|j: int| 0 <= j < i ==> self.keys@[j] != key,
            decreases self.keys@.len() - i,
        {
            if self.keys[i] == key {
                assert(self.keys@.contains(key));
                assert(self.keys@[self.keys@.index_of(key)] == key);
                return Some(i);
            }
            i = i + 1;
        }
        None
    }
}

/// The map that a list of keys and the list of their sessions stand for.
spec fn entries<S>(keys: Seq<u64>, sessions: Seq<S>) -> Map<u64, S> {
    Map::new(|key: u64| keys.contains(key), |key: u64| sessions[keys.index_of(key)])
}

/// Replacing the session at one place replaces it under that place's key.
proof fn lemma_update_is_insert<S>(keys: Seq<u64>, sessions: Seq<S>, at: int, v: S)
    requires
        keys.len() == sessions.len(),
        keys.no_duplicates(),
        0 <= at < keys.len(),
    ensures
        entries(keys, sessions.update(at, v)) == entries(keys, sessions).insert(keys[at], v),
{
    let after = entries(keys, sessions.update(at, v));
    let target = entries(keys, sessions).insert(keys[at], v);
    assert forall|k: u64| after.contains_key(k) implies #[trigger] after[k] == target[k] by {
        let i = keys.index_of(k);
        assert(keys[i] == k);
    }
    assert(after =~= target);
}

/// Appending a new key with its session adds that entry and no other.
proof fn lemma_push_is_insert<S>(keys: Seq<u64>, sessions: Seq<S>, key: u64, v: S)
    requires
        keys.len() == sessions.len(),
        keys.no_duplicates(),
        !keys.contains(key),
    ensures
        keys.push(key).no_duplicates(),
        keys.push(key).index_of(key) == keys.len(),
        entries(keys.push(key), sessions.push(v)) == entries(keys, sessions).insert(key, v),
{
    let grown = keys.push(key);
    assert(grown[keys.len() as int] == key);
    assert forall|i: int, j: int| 0 <= i < grown.len() && 0 <= j < grown.len() && i != j implies grown[i]
        != grown[j] by {
        if i < keys.len() {
            assert(keys.contains(grown[i]));
        }
        if j < keys.len() {
            assert(keys.contains(grown[j]));
        }
    }
    let after = entries(grown, sessions.push(v));
    let target = entries(keys, sessions).insert(key, v);
    assert forall|k: u64| after.contains_key(k) <==> target.contains_key(k) by {
        if keys.contains(k) {
            let i = keys.index_of(k);
            assert(grown[i] == k);
        }
        if grown.contains(k) && k != key {
            let i = grown.index_of(k);
            assert(grown[i] == k);
            assert(keys[i] == k);
        }
    }
    assert forall|k: u64| after.contains_key(k) implies #[trigger] after[k] == target[k] by {
        let i = grown.index_of(k);
        assert(grown[i] == k);
        if k != key {
            assert(keys[i] == k);
            assert(keys.index_of(k) == i);
        }
    }
    assert(after =~= target);
}

/// A second call of `resolve` for a key finds what the first call left: once a
/// session is in the registry under a key, the registry holds that key, and the
/// session under it is the same one. So the second call does not make another.
pub proof fn lemma_resolved_session_is_kept<S>(before: Map<u64, S>, key: u64, session: S)
    ensures
        before.insert(key, session).contains_key(key),
        before.insert(key, session)[key] == session,
        before.insert(key, session).insert(key, session) == before.insert(key, session),
{
    assert(before.insert(key, session).insert(key, session) =~= before.insert(key, session));
}

/// Resolving one thread's session leaves every other thread's session as it was,
/// and takes none away.
pub proof fn lemma_resolve_keeps_other_sessions<S>(
    before: Map<u64, S>,
    key: u64,
    session: S,
    other: u64,
)
    requires
        other != key,
        before.contains_key(other),
    ensures
        before.insert(key, session).contains_key(other),
        before.insert(key, session)[other] == before[other],
{
}

} // verus!
