//! The set of usernames that connected clients have taken.
//!
//! Usernames are unique: a name can be claimed by one client at a time, and is
//! free again once that client leaves.
//!
//! The names are kept in a `Vec`, with the type invariant that no name occurs twice, so
//! that the set of names is the `Vec`'s contents. A `Vec` is used because vstd specifies
//! what `HashSet` does only for keys with a known hash model (integers, `bool`), which
//! `String` is not.

use vstd::prelude::*;

verus! {

/// Whether `name` occurs among `names`.
pub open spec fn occurs(names: Seq<String>, name: Seq<char>) -> bool {
    exists|i: int| 0 <= i < names.len() && #[trigger] names[i]@ == name
}

/// Whether no name occurs twice among `names`.
pub open spec fn all_distinct(names: Seq<String>) -> bool {
    forall|i: int, j: int|
        0 <= i < names.len() && 0 <= j < names.len() && i != j ==> #[trigger] names[i]@ != #[trigger] names[j]@
}

/// The usernames that are currently taken. No name is held twice.
pub struct UserSet {
    names: Vec<String>,
}

impl View for UserSet {
    type V = Set<Seq<char>>;

    closed spec fn view(&self) -> Set<Seq<char>> {
        Set::new(|name: Seq<char>| occurs(self.names@, name))
    }
}

impl UserSet {
    #[verifier::type_invariant]
    spec fn names_distinct(self) -> bool {
        all_distinct(self.names@)
    }

    /// No name is taken.
    pub fn new() -> (users: Self)
        ensures
            users@ == Set::<Seq<char>>::empty(),
    {
        let users = UserSet { names: Vec::new() };
        assert(users@ =~= Set::<Seq<char>>::empty());
        users
    }

    /// The position of `name` among the stored names, if it is taken.
    fn position(&self, name: &String) -> (pos: Option<usize>)
        ensures
            match pos {
                Some(i) => i < self.names@.len() && self.names@[i as int]@ == name@,
                None => !occurs(self.names@, name@),
            },
    {
        let mut i: usize = 0;
        while i < self.names.len()
            invariant
                i <= self.names@.len(),
                forall|k: int| 0 <= k < i ==> #[trigger] self.names@[k]@ != name@,
            decreases self.names@.len() - i,
        {
            if self.names[i] == *name {
                return Some(i);
            }
            i = i + 1;
        }
        None
    }

    /// Whether `name` is taken.
    pub fn contains(&self, name: &String) -> (taken: bool)
        ensures
            taken == self@.contains(name@),
    {
        self.position(name).is_some()
    }

    /// Frees `name`, so that a new client can take it again. Returns whether it was taken.
    pub fn remove(&mut self, name: &String) -> (was_taken: bool)
        ensures
            was_taken == old(self)@.contains(name@),
            final(self)@ == old(self)@.remove(name@),
    {
        proof {
            use_type_invariant(&*self);
        }
        match self.position(name) {
            Some(i) => {
                let ghost before = self.names@;
                let mut names: Vec<String> = Vec::new();
                std::mem::swap(&mut names, &mut self.names);
                names.remove(i);
                assert forall|a: int, b: int|
                    0 <= a < names@.len() && 0 <= b < names@.len() && a != b implies
                    #[trigger] names@[a]@ != #[trigger] names@[b]@ by {
                    let a0 = if a < i { a } else { a + 1 };
                    let b0 = if b < i { b } else { b + 1 };
                    assert(names@[a] == before[a0]);
                    assert(names@[b] == before[b0]);
                }
                self.names = names;
                assert(self@ =~= old(self)@.remove(name@)) by {
                    assert forall|n: Seq<char>| self@.contains(n) implies old(self)@.remove(name@).contains(n) by {
                        let k = choose|k: int| 0 <= k < self.names@.len() && #[trigger] self.names@[k]@ == n;
                        let k0 = if k < i { k } else { k + 1 };
                        assert(before[k0]@ == n);
                        assert(k0 != i);
                    }
                    assert forall|n: Seq<char>| old(self)@.remove(name@).contains(n) implies self@.contains(n) by {
                        let k = choose|k: int| 0 <= k < before.len() && #[trigger] before[k]@ == n;
                        assert(k != i);
                        let k1 = if k < i { k } else { k - 1 };
                        assert(self.names@[k1]@ == n);
                    }
                }
                true
            },
            None => {
                assert(self@ =~= old(self)@.remove(name@));
                false
            },
        }
    }

    /// Takes `name` if it is free. Returns whether it was free.
    fn insert_if_free(&mut self, name: &String) -> (inserted: bool)
        ensures
            inserted == !old(self)@.contains(name@),
            final(self)@ == old(self)@.insert(name@),
    {
        proof {
            use_type_invariant(&*self);
        }
        match self.position(name) {
            Some(_) => {
                assert(self@ =~= old(self)@.insert(name@));
                false
            },
            None => {
                let ghost before = self.names@;
                let mut names: Vec<String> = Vec::new();
                std::mem::swap(&mut names, &mut self.names);
                names.push(name.clone());
                assert forall|a: int, b: int|
                    0 <= a < names@.len() && 0 <= b < names@.len() && a != b implies
                    #[trigger] names@[a]@ != #[trigger] names@[b]@ by {
                    if a == before.len() {
                        assert(names@[b] == before[b]);
                    } else if b == before.len() {
                        assert(names@[a] == before[a]);
                    } else {
                        assert(names@[a] == before[a]);
                        assert(names@[b] == before[b]);
                    }
                }
                self.names = names;
                assert(self@ =~= old(self)@.insert(name@)) by {
                    assert forall|n: Seq<char>| self@.contains(n) implies old(self)@.insert(name@).contains(n) by {
                        let k = choose|k: int| 0 <= k < self.names@.len() && #[trigger] self.names@[k]@ == n;
                        if k < before.len() {
                            assert(before[k]@ == n);
                        }
                    }
                    assert forall|n: Seq<char>| old(self)@.insert(name@).contains(n) implies self@.contains(n) by {
                        if n == name@ {
                            assert(self.names@[before.len() as int]@ == n);
                        } else {
                            let k = choose|k: int| 0 <= k < before.len() && #[trigger] before[k]@ == n;
                            assert(self.names@[k]@ == n);
                        }
                    }
                }
                true
            },
        }
    }
}

/// Claims `name` for a new client: succeeds, and takes the name, exactly when no other
/// client holds it.
pub fn check_username(users: &mut UserSet, name: &String) -> (claimed: bool)
    ensures
        claimed == !old(users)@.contains(name@),
        final(users)@ == old(users)@.insert(name@),
{
    users.insert_if_free(name)
}

} // verus!
