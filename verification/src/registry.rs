//! The registry of open stream identifiers: an ordered list without repeats.

use vstd::prelude::*;

verus! {

/// Stream identifiers in the order in which they were registered.
pub struct StreamRegistry {
    ids: Vec<u16>,
}

impl StreamRegistry {
    /// The registered identifiers, oldest first.
    pub closed spec fn view(&self) -> Seq<u16> {
        self.ids@
    }

    /// No identifier is registered twice.
    pub open spec fn wf(&self) -> bool {
        self@.no_duplicates()
    }

    /// A registry without any identifier.
    pub fn new() -> (r: Self)
        ensures
            r@ == Seq::<u16>::empty(),
            r.wf(),
    {
        StreamRegistry { ids: Vec::new() }
    }

    /// How many identifiers are registered.
    pub fn len(&self) -> (n: usize)
        ensures
            n == self@.len(),
    {
        self.ids.len()
    }

    /// The identifier registered at place `i`.
    pub fn get(&self, i: usize) -> (id: u16)
        requires
            i < self@.len(),
        ensures
            id == self@[i as int],
    {
        self.ids[i]
    }

    /// A copy of the identifiers, oldest first.
    pub fn ids(&self) -> (v: Vec<u16>)
        ensures
            v@ == self@,
    {
        let mut v: Vec<u16> = Vec::new();
        let mut i: usize = 0;
        while i < self.ids.len()
            invariant
                i <= self.ids.len(),
                v@ == self.ids@.take(i as int),
            decreases self.ids.len() - i,
        {
            v.push(self.ids[i]);
            i += 1;
            assert(self.ids@.take(i as int) == self.ids@.take(i - 1).push(self.ids@[i - 1]));
        }
        assert(self.ids@.take(i as int) == self.ids@);
        v
    }

    /// The first place at which `id` is registered.
    pub fn position(&self, id: u16) -> (r: Option<usize>)
        ensures
            match r {
                Some(i) => i < self@.len() && self@[i as int] == id && forall|j: int|
                    0 <= j < i ==> self@[j] != id,
                None => !self@.contains(id),
            },
    {
        let mut i: usize = 0;
        while i < self.ids.len()
            invariant
                i <= self.ids.len(),
                forall|j: int| 0 <= j < i ==> self.ids@[j] != id,
            decreases self.ids.len() - i,
        {
            if self.ids[i] == id {
                return Some(i);
            }
            i += 1;
        }
        None
    }

    /// Whether `id` is registered.
    pub fn contains(&self, id: u16) -> (b: bool)
        ensures
            b == self@.contains(id),
    {
        self.position(id).is_some()
    }

    /// Registers `id` behind the others unless it is registered already.
    pub fn register(&mut self, id: u16) -> (added: bool)
        requires
            old(self).wf(),
        ensures
            final(self).wf(),
            added == !old(self)@.contains(id),
            final(self)@ == registered(old(self)@, id),
            !added ==> *final(self) == *old(self),
    {
        if self.contains(id) {
            return false;
        }
        self.ids.push(id);
        true
    }

    /// Takes `id` out of the registry; the others keep their order.
    pub fn unregister(&mut self, id: u16) -> (removed: bool)
        requires
            old(self).wf(),
        ensures
            final(self).wf(),
            removed == old(self)@.contains(id),
            final(self)@ == unregistered(old(self)@, id),
            !final(self)@.contains(id),
            !removed ==> *final(self) == *old(self),
    {
        match self.position(id) {
            Some(i) => {
                let ghost before = self.ids@;
                self.ids.remove(i);
                proof {
                    assert(before.contains(id));
                    assert(before.index_of(id) == i as int);
                    lemma_unregistered_absent(before, id);
                }
                true
            },
            None => false,
        }
    }
}

/// The registry after `id` was registered: unchanged where it was there before.
pub open spec fn registered(s: Seq<u16>, id: u16) -> Seq<u16> {
    if s.contains(id) {
        s
    } else {
        s.push(id)
    }
}

/// The registry after `id` was taken out: unchanged where it was not there.
pub open spec fn unregistered(s: Seq<u16>, id: u16) -> Seq<u16> {
    if s.contains(id) {
        s.remove(s.index_of(id))
    } else {
        s
    }
}

/// After an id is registered it occurs exactly once; after it is taken out
/// it does not occur.
pub proof fn lemma_registry_membership(s: Seq<u16>, id: u16)
    requires
        s.no_duplicates(),
    ensures
        registered(s, id).no_duplicates(),
        registered(s, id).contains(id),
        occurrences(registered(s, id), id) == 1,
        unregistered(s, id).no_duplicates(),
        !unregistered(s, id).contains(id),
        occurrences(unregistered(s, id), id) == 0,
        !unregistered(registered(s, id), id).contains(id),
{
    let r = registered(s, id);
    if !s.contains(id) {
        assert(r[s.len() as int] == id);
        assert forall|a: int, b: int| 0 <= a < r.len() && 0 <= b < r.len() && a != b implies r[a]
            != r[b] by {
            if a == s.len() {
                assert(s.contains(r[b]));
            }
            if b == s.len() {
                assert(s.contains(r[a]));
            }
        }
    }
    lemma_unregistered_absent(s, id);
    lemma_unregistered_absent(r, id);
    lemma_occurrences(r, id);
    lemma_occurrences(unregistered(s, id), id);
}

/// How often `id` occurs in `s`.
pub open spec fn occurrences(s: Seq<u16>, id: u16) -> nat
    decreases s.len(),
{
    if s.len() == 0 {
        0
    } else {
        occurrences(s.drop_last(), id) + (if s.last() == id {
            1nat
        } else {
            0nat
        })
    }
}

/// In a sequence without repeats an id occurs once or not at all.
pub proof fn lemma_occurrences(s: Seq<u16>, id: u16)
    requires
        s.no_duplicates(),
    ensures
        occurrences(s, id) == (if s.contains(id) {
            1nat
        } else {
            0nat
        }),
    decreases s.len(),
{
    if s.len() > 0 {
        let t = s.drop_last();
        lemma_occurrences(t, id);
        if t.contains(id) {
            let i = choose|i: int| 0 <= i < t.len() && t[i] == id;
            assert(s[i] == id);
            assert(s.last() != id);
        } else if s.last() != id {
            assert forall|i: int| 0 <= i < s.len() implies s[i] != id by {
                if i < t.len() {
                    assert(t[i] == s[i]);
                }
            }
        } else {
            assert(s[s.len() - 1] == id);
        }
    }
}

proof fn lemma_unregistered_absent(s: Seq<u16>, id: u16)
    requires
        s.no_duplicates(),
    ensures
        unregistered(s, id).no_duplicates(),
        !unregistered(s, id).contains(id),
{
    if s.contains(id) {
        let i = s.index_of(id);
        let after = s.remove(i);
        assert forall|a: int, b: int|
            0 <= a < after.len() && 0 <= b < after.len() && a != b implies after[a] != after[b] by {
            let a0 = if a < i { a } else { a + 1 };
            let b0 = if b < i { b } else { b + 1 };
            assert(after[a] == s[a0]);
            assert(after[b] == s[b0]);
        }
        assert forall|a: int| 0 <= a < after.len() implies after[a] != id by {
            let a0 = if a < i { a } else { a + 1 };
            assert(after[a] == s[a0]);
        }
    }
}

} // verus!
