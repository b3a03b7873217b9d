//! Messages kept under keys, such as a form's validation errors: setting a
//! key replaces its message, removing it drops the message.

use vstd::prelude::*;

verus! {

/// Messages by key. Each key holds at most one message.
#[derive(Debug)]
pub struct KeyedNotifications {
    entries: Vec<(String, String)>,
}

/// The keys of `entries`, in order.
pub open spec fn entry_keys(entries: Seq<(String, String)>) -> Seq<Seq<char>> {
    entries.map_values(|e: (String, String)| e.0@)
}

/// The map that a list of entries with distinct keys stands for.
pub open spec fn entries_map(entries: Seq<(String, String)>) -> Map<Seq<char>, Seq<char>>
    decreases entries.len(),
{
    if entries.len() == 0 {
        Map::empty()
    } else {
        entries_map(entries.drop_last()).insert(entries.last().0@, entries.last().1@)
    }
}

proof fn lemma_entries_map_dom(entries: Seq<(String, String)>)
    ensures
        entries_map(entries).dom() == entry_keys(entries).to_set(),
        entries_map(entries).dom().finite(),
    decreases entries.len(),
{
    if entries.len() > 0 {
        lemma_entries_map_dom(entries.drop_last());
        assert(entry_keys(entries) == entry_keys(entries.drop_last()).push(entries.last().0@));
        entry_keys(entries.drop_last()).lemma_push_to_set_commute(entries.last().0@);
    } else {
        assert(entry_keys(entries).to_set() =~= Set::empty());
    }
}

proof fn lemma_entries_map_at(entries: Seq<(String, String)>, i: int)
    requires
        0 <= i < entries.len(),
        entry_keys(entries).no_duplicates(),
    ensures
        entries_map(entries).contains_key(entries[i].0@),
        entries_map(entries)[entries[i].0@] == entries[i].1@,
    decreases entries.len(),
{
    if i < entries.len() - 1 {
        let init = entries.drop_last();
        assert(entry_keys(init) == entry_keys(entries).drop_last());
        assert(entry_keys(entries)[i] == entries[i].0@);
        assert(entry_keys(entries)[entries.len() - 1] == entries.last().0@);
        lemma_entries_map_at(init, i);
    }
}

impl Default for KeyedNotifications {
    fn default() -> (r: Self)
        ensures
            r@ == Map::<Seq<char>, Seq<char>>::empty(),
    {
        KeyedNotifications::new()
    }
}

impl Clone for KeyedNotifications {
    fn clone(&self) -> (r: Self)
        ensures
            r@ == self@,
    {
        proof { use_type_invariant(self); }
        let mut entries: Vec<(String, String)> = Vec::new();
        let mut i: usize = 0;
        while i < self.entries.len()
            invariant
                i <= self.entries@.len(),
                entries@.len() == i,
                forall|j: int| 0 <= j < i ==> entries@[j].0@ == self.entries@[j].0@ && entries@[j].1@ == self.entries@[j].1@,
            decreases self.entries@.len() - i,
        {
            entries.push((self.entries[i].0.clone(), self.entries[i].1.clone()));
            i = i + 1;
        }
        proof {
            lemma_same_views(entries@, self.entries@);
        }
        KeyedNotifications { entries }
    }
}

/// Lists of entries with equal views stand for the same map and keys.
proof fn lemma_same_views(a: Seq<(String, String)>, b: Seq<(String, String)>)
    requires
        a.len() == b.len(),
        forall|j: int| 0 <= j < a.len() ==> a[j].0@ == b[j].0@ && a[j].1@ == b[j].1@,
    ensures
        entries_map(a) == entries_map(b),
        entry_keys(a) == entry_keys(b),
    decreases a.len(),
{
    if a.len() > 0 {
        lemma_same_views(a.drop_last(), b.drop_last());
    }
    assert(entry_keys(a) =~= entry_keys(b));
}


proof fn lemma_entries_map_update(s: Seq<(String, String)>, i: int, e: (String, String))
    requires
        0 <= i < s.len(),
        entry_keys(s).no_duplicates(),
        s[i].0@ == e.0@,
    ensures
        entries_map(s.update(i, e)) == entries_map(s).insert(e.0@, e.1@),
        entry_keys(s.update(i, e)) == entry_keys(s),
    decreases s.len(),
{
    let t = s.update(i, e);
    assert(entry_keys(t) =~= entry_keys(s));
    if i == s.len() - 1 {
        assert(t.drop_last() == s.drop_last());
        assert(entries_map(t) =~= entries_map(s).insert(e.0@, e.1@));
    } else {
        assert(t.drop_last() == s.drop_last().update(i, e));
        assert(entry_keys(s.drop_last()) == entry_keys(s).drop_last());
        assert(entry_keys(s)[i] == s[i].0@);
        assert(entry_keys(s)[s.len() - 1] == s.last().0@);
        lemma_entries_map_update(s.drop_last(), i, e);
        assert(entries_map(t) =~= entries_map(s).insert(e.0@, e.1@));
    }
}

proof fn lemma_entries_map_remove(s: Seq<(String, String)>, i: int)
    requires
        0 <= i < s.len(),
        entry_keys(s).no_duplicates(),
    ensures
        entries_map(s.remove(i)) == entries_map(s).remove(s[i].0@),
        entry_keys(s.remove(i)) == entry_keys(s).remove(i),
    decreases s.len(),
{
    let t = s.remove(i);
    assert(entry_keys(t) =~= entry_keys(s).remove(i));
    assert(entry_keys(s)[i] == s[i].0@);
    if i == s.len() - 1 {
        assert(t == s.drop_last());
        lemma_entries_map_dom(s.drop_last());
        assert(entry_keys(s.drop_last()) == entry_keys(s).drop_last());
        assert(!entry_keys(s.drop_last()).contains(s[i].0@));
        assert(entries_map(t) =~= entries_map(s).remove(s[i].0@));
    } else {
        assert(t.drop_last() == s.drop_last().remove(i));
        assert(t.last() == s.last());
        assert(entry_keys(s.drop_last()) == entry_keys(s).drop_last());
        assert(entry_keys(s)[s.len() - 1] == s.last().0@);
        lemma_entries_map_remove(s.drop_last(), i);
        assert(entries_map(t) =~= entries_map(s).remove(s[i].0@));
    }
}

impl View for KeyedNotifications {
    type V = Map<Seq<char>, Seq<char>>;

    closed spec fn view(&self) -> Map<Seq<char>, Seq<char>> {
        entries_map(self.entries@)
    }
}

impl KeyedNotifications {
    #[verifier::type_invariant]
    closed spec fn inv(self) -> bool {
        entry_keys(self.entries@).no_duplicates()
    }

    /// No messages.
    pub fn new() -> (r: Self)
        ensures
            r@ == Map::<Seq<char>, Seq<char>>::empty(),
    {
        KeyedNotifications { entries: Vec::new() }
    }

    /// Position of `key` among the entries.
    fn find(&self, key: &String) -> (r: Option<usize>)
        ensures
            match r {
                Some(i) => i < self.entries@.len() && self.entries@[i as int].0@ == key@,
                None => !entry_keys(self.entries@).contains(key@),
            },
    {
        let mut i: usize = 0;
        while i < self.entries.len()
            invariant
                i <= self.entries@.len(),
                forall|j: int| 0 <= j < i ==> self.entries@[j].0@ != key@,
            decreases self.entries@.len() - i,
        {
            if self.entries[i].0 == *key {
                return Some(i);
            }
            i = i + 1;
        }
        assert forall|j: int| 0 <= j < entry_keys(self.entries@).len()
            implies entry_keys(self.entries@)[j] != key@ by {}
        None
    }

    /// Sets the message under `key`, replacing the one it held.
    pub fn set(&mut self, key: &str, value: &str)
        ensures
            final(self)@ == old(self)@.insert(key@, value@),
    {
        proof { use_type_invariant(&*self); }
        let k = key.to_owned();
        let v = value.to_owned();
        let ghost old_entries = self.entries@;
        match self.find(&k) {
            Some(i) => {
                proof { lemma_entries_map_update(self.entries@, i as int, (k, v)); }
                let mut entries = Vec::new();
                std::mem::swap(&mut entries, &mut self.entries);
                entries.set(i, (k, v));
                self.entries = entries;
            },
            None => {
                proof {
                    lemma_entries_map_dom(self.entries@);
                }
                let mut entries = Vec::new();
                std::mem::swap(&mut entries, &mut self.entries);
                entries.push((k, v));
                proof {
                    assert(entries@.drop_last() == old_entries);
                    assert(entry_keys(entries@) == entry_keys(old_entries).push(key@));
                }
                self.entries = entries;
            },
        }
    }

    /// Drops the message under `key`, if any.
    pub fn remove(&mut self, key: &str)
        ensures
            final(self)@ == old(self)@.remove(key@),
    {
        proof { use_type_invariant(&*self); }
        let k = key.to_owned();
        match self.find(&k) {
            Some(i) => {
                proof { lemma_entries_map_remove(self.entries@, i as int); }
                let mut entries = Vec::new();
                std::mem::swap(&mut entries, &mut self.entries);
                entries.remove(i);
                self.entries = entries;
            },
            None => {
                proof {
                    lemma_entries_map_dom(self.entries@);
                    assert(self@.remove(key@) =~= self@);
                }
            },
        }
    }

    /// Whether any message is held.
    pub fn has_messages(&self) -> (r: bool)
        ensures
            r == !self@.is_empty(),
    {
        proof {
            use_type_invariant(self);
            lemma_entries_map_dom(self.entries@);
            if self.entries@.len() > 0 {
                assert(entry_keys(self.entries@)[0] == self.entries@[0].0@);
                assert(self@.dom().contains(self.entries@[0].0@));
            } else {
                assert(self@ =~= Map::empty());
            }
        }
        self.entries.len() > 0
    }

    /// The held messages, one for each key, in no promised order.
    pub fn messages(&self) -> (r: Vec<String>)
        ensures
            exists|ks: Seq<Seq<char>>|
                {
                    &&& ks.len() == r@.len()
                    &&& ks.no_duplicates()
                    &&& ks.to_set() == self@.dom()
                    &&& forall|i: int| 0 <= i < ks.len() ==> #[trigger] r@[i]@ == self@[ks[i]]
                },
    {
        proof { use_type_invariant(self); }
        let mut out: Vec<String> = Vec::new();
        let mut i: usize = 0;
        while i < self.entries.len()
            invariant
                i <= self.entries@.len(),
                out@.len() == i,
                forall|j: int| 0 <= j < i ==> out@[j]@ == self.entries@[j].1@,
            decreases self.entries@.len() - i,
        {
            out.push(self.entries[i].1.clone());
            i = i + 1;
        }
        proof {
            let ks = entry_keys(self.entries@);
            lemma_entries_map_dom(self.entries@);
            assert forall|j: int| 0 <= j < ks.len() implies #[trigger] out@[j]@ == self@[ks[j]] by {
                lemma_entries_map_at(self.entries@, j);
            }
        }
        out
    }
}

/// Setting a message and then removing its key is the same as removing
/// the key: nothing of the set message is left, and the other keys keep
/// their messages.
pub proof fn lemma_set_then_remove(m: Map<Seq<char>, Seq<char>>, key: Seq<char>, value: Seq<char>)
    ensures
        m.insert(key, value).remove(key) == m.remove(key),
{
    assert(m.insert(key, value).remove(key) =~= m.remove(key));
}

/// Setting a key twice keeps only the second message.
pub proof fn lemma_set_twice(m: Map<Seq<char>, Seq<char>>, key: Seq<char>, first: Seq<char>, second: Seq<char>)
    ensures
        m.insert(key, first).insert(key, second) == m.insert(key, second),
{
    assert(m.insert(key, first).insert(key, second) =~= m.insert(key, second));
}

} // verus!
