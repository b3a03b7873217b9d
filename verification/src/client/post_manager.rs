//! The posts on show, in the order they are shown, each under its id.

use indexmap::IndexMap;

use vstd::prelude::*;

use crate::domain::ids::PostId;
use crate::endpoint::post::PublicPost;

verus! {

#[verifier::external_type_specification]
#[verifier::external_body]
#[verifier::reject_recursive_types(K)]
#[verifier::reject_recursive_types(V)]
#[verifier::reject_recursive_types(S)]
pub struct ExIndexMap<K, V, S>(IndexMap<K, V, S>);

/// The entries of an `IndexMap` of posts keyed by their ids' values, in the
/// map's order.
pub uninterp spec fn post_map_entries(m: IndexMap<u128, PublicPost>) -> Seq<(u128, PublicPost)>;

/// The keys of a list of entries, in order.
pub open spec fn keys_of(entries: Seq<(u128, PublicPost)>) -> Seq<u128> {
    entries.map_values(|e: (u128, PublicPost)| e.0)
}

/// Position of `key` among the entries; `None` where it is absent.
pub open spec fn index_of(entries: Seq<(u128, PublicPost)>, key: u128) -> Option<int> {
    if exists|i: int| 0 <= i < entries.len() && entries[i].0 == key {
        Some(choose|i: int| 0 <= i < entries.len() && entries[i].0 == key)
    } else {
        None
    }
}

/// The entries after an insertion: an equal key keeps its place and takes
/// the new value; a new key comes last.
pub open spec fn inserted(entries: Seq<(u128, PublicPost)>, key: u128, value: PublicPost) -> Seq<(u128, PublicPost)> {
    match index_of(entries, key) {
        Some(i) => entries.update(i, (key, value)),
        None => entries.push((key, value)),
    }
}

/// The entries after removing `key` by swapping: the last entry takes the
/// removed one's place.
pub open spec fn swap_removed(entries: Seq<(u128, PublicPost)>, key: u128) -> Seq<(u128, PublicPost)> {
    match index_of(entries, key) {
        Some(i) => entries.update(i, entries.last()).drop_last(),
        None => entries,
    }
}

/// Calls `IndexMap::new`: no entries.
#[verifier::external_body]
fn map_new() -> (r: IndexMap<u128, PublicPost>)
    ensures
        post_map_entries(r) == Seq::<(u128, PublicPost)>::empty(),
{
    IndexMap::new()
}

/// Calls `IndexMap::clear`: no entries are left.
#[verifier::external_body]
fn map_clear(m: &mut IndexMap<u128, PublicPost>)
    ensures
        post_map_entries(*final(m)) == Seq::<(u128, PublicPost)>::empty(),
{
    m.clear()
}

/// Calls `IndexMap::insert`: where the key is present, its entry keeps its
/// place and takes the value; otherwise the entry is added last.
#[verifier::external_body]
fn map_insert(m: &mut IndexMap<u128, PublicPost>, key: u128, value: PublicPost)
    ensures
        post_map_entries(*final(m)) == inserted(post_map_entries(*old(m)), key, value),
{
    m.insert(key, value);
}

/// Calls `IndexMap::get`: the value of the entry with the key, if any.
#[verifier::external_body]
fn map_get<'a>(m: &'a IndexMap<u128, PublicPost>, key: u128) -> (r: Option<&'a PublicPost>)
    ensures
        match index_of(post_map_entries(*m), key) {
            Some(i) => r == Some(&post_map_entries(*m)[i].1),
            None => r is None,
        },
{
    m.get(&key)
}

/// Calls `IndexMap::swap_remove`: the entry with the key is removed and
/// the last entry takes its place. An `IndexMap` holds each key once.
#[verifier::external_body]
fn map_swap_remove(m: &mut IndexMap<u128, PublicPost>, key: u128)
    ensures
        keys_of(post_map_entries(*old(m))).no_duplicates(),
        post_map_entries(*final(m)) == swap_removed(post_map_entries(*old(m)), key),
{
    m.swap_remove(&key);
}

/// Calls `IndexMap::len`: the number of entries.
#[verifier::external_body]
fn map_len(m: &IndexMap<u128, PublicPost>) -> (r: usize)
    ensures
        r == post_map_entries(*m).len(),
{
    m.len()
}

/// Calls `IndexMap::get_index` and keeps the key: the key of the entry at
/// `index`, if there is one.
#[verifier::external_body]
fn map_key_at(m: &IndexMap<u128, PublicPost>, index: usize) -> (r: Option<u128>)
    ensures
        if index < post_map_entries(*m).len() {
            r == Some(post_map_entries(*m)[index as int].0)
        } else {
            r is None
        },
{
    m.get_index(index).map(|(k, _)| *k)
}

/// The entries after inserting `posts` one after another, each under its
/// id.
pub open spec fn populated(entries: Seq<(u128, PublicPost)>, posts: Seq<PublicPost>) -> Seq<(u128, PublicPost)>
    decreases posts.len(),
{
    if posts.len() == 0 {
        entries
    } else {
        inserted(populated(entries, posts.drop_last()), posts.last().id.0, posts.last())
    }
}

/// Inserting keeps each key once, the inserted key is present with the
/// inserted value, and every other key keeps its position.
pub proof fn lemma_inserted(entries: Seq<(u128, PublicPost)>, key: u128, value: PublicPost)
    requires
        keys_of(entries).no_duplicates(),
    ensures
        keys_of(inserted(entries, key, value)).no_duplicates(),
        index_of(inserted(entries, key, value), key) matches Some(i)
            && inserted(entries, key, value)[i].1 == value,
        forall|k: u128| k != key ==> #[trigger] index_of(inserted(entries, key, value), k) == index_of(entries, k),
{
    let r = inserted(entries, key, value);
    lemma_index_of_unique(entries, key);
    match index_of(entries, key) {
        Some(i) => {
            assert(keys_of(entries)[i] == key);
            assert(keys_of(r) =~= keys_of(entries));
        },
        None => {
            assert forall|j: int| 0 <= j < entries.len() implies entries[j].0 != key by {}
            assert(keys_of(r) =~= keys_of(entries).push(key));
            assert forall|a: int, b: int| 0 <= a < b < keys_of(r).len() implies keys_of(r)[a] != keys_of(r)[b] by {
                if b == entries.len() {
                    assert(keys_of(r)[a] == entries[a].0);
                } else {
                    assert(keys_of(r)[a] == keys_of(entries)[a]);
                    assert(keys_of(r)[b] == keys_of(entries)[b]);
                }
            }
        },
    }
    lemma_index_of_unique(r, key);
    assert(r[index_of(r, key)->0].0 == key) by {
        match index_of(entries, key) {
            Some(i) => { assert(r[i].0 == key); },
            None => { assert(r[entries.len() as int].0 == key); },
        }
    }
    assert forall|k: u128| k != key implies #[trigger] index_of(r, k) == index_of(entries, k) by {
        lemma_index_of_unique(entries, k);
        lemma_index_of_unique(r, k);
        if exists|j: int| 0 <= j < entries.len() && entries[j].0 == k {
            let j = choose|j: int| 0 <= j < entries.len() && entries[j].0 == k;
            assert(r[j].0 == k);
        } else {
            assert forall|j: int| 0 <= j < r.len() implies r[j].0 != k by {
                if j < entries.len() {
                    assert(r[j].0 == entries[j].0);
                }
            }
        }
    }
}

/// With each key held once, the position of a key is the one that holds it.
pub proof fn lemma_index_of_unique(entries: Seq<(u128, PublicPost)>, key: u128)
    requires
        keys_of(entries).no_duplicates(),
    ensures
        forall|j: int| 0 <= j < entries.len() && entries[j].0 == key ==> index_of(entries, key) == Some(j),
        index_of(entries, key) matches Some(i) ==> 0 <= i < entries.len() && entries[i].0 == key,
{
    assert forall|j: int| 0 <= j < entries.len() && entries[j].0 == key implies index_of(entries, key) == Some(j) by {
        let i = index_of(entries, key)->0;
        assert(keys_of(entries)[i] == entries[i].0);
        assert(keys_of(entries)[j] == entries[j].0);
    }
}

/// Showing a list of posts shows each id of the list exactly once.
pub proof fn lemma_populated(posts: Seq<PublicPost>)
    ensures
        keys_of(populated(Seq::empty(), posts)).no_duplicates(),
        forall|j: int| 0 <= j < posts.len() ==>
            #[trigger] index_of(populated(Seq::empty(), posts), posts[j].id.0) is Some,
    decreases posts.len(),
{
    if posts.len() == 0 {
        assert(keys_of(Seq::<(u128, PublicPost)>::empty()) =~= Seq::<u128>::empty());
    } else {
        let init = posts.drop_last();
        let last = posts.last();
        lemma_populated(init);
        let before = populated(Seq::empty(), init);
        lemma_inserted(before, last.id.0, last);
        assert forall|j: int| 0 <= j < posts.len() implies
            #[trigger] index_of(populated(Seq::empty(), posts), posts[j].id.0) is Some by {
            if j < init.len() && posts[j].id.0 != last.id.0 {
                assert(init[j] == posts[j]);
                assert(index_of(before, init[j].id.0) is Some);
            }
        }
    }
}

/// Showing a list of posts shows, under the id of its last post, that post.
pub proof fn lemma_populated_last_wins(posts: Seq<PublicPost>)
    requires
        posts.len() > 0,
    ensures
        index_of(populated(Seq::empty(), posts), posts.last().id.0) matches Some(i)
            && populated(Seq::empty(), posts)[i].1 == posts.last(),
{
    lemma_populated(posts.drop_last());
    lemma_inserted(populated(Seq::empty(), posts.drop_last()), posts.last().id.0, posts.last());
}

/// A removed key is gone: an `IndexMap` holds each key once, so after
/// swapping the last entry into the removed one's place no entry has the key.
pub proof fn lemma_swap_removed_is_gone(entries: Seq<(u128, PublicPost)>, key: u128)
    requires
        keys_of(entries).no_duplicates(),
    ensures
        index_of(swap_removed(entries, key), key) is None,
{
    let r = swap_removed(entries, key);
    match index_of(entries, key) {
        Some(i) => {
            let n = entries.len() - 1;
            assert forall|j: int| 0 <= j < r.len() implies r[j].0 != key by {
                if j == i {
                    assert(keys_of(entries)[n] == entries[n].0);
                    assert(keys_of(entries)[i] == entries[i].0);
                } else {
                    assert(keys_of(entries)[j] == entries[j].0);
                    assert(keys_of(entries)[i] == entries[i].0);
                }
            }
        },
        None => {},
    }
}

/// The posts on show, in order, under their ids.
pub struct PostManager {
    posts: IndexMap<u128, PublicPost>,
}

impl View for PostManager {
    type V = Seq<(u128, PublicPost)>;

    /// The entries, in the order the posts are shown.
    closed spec fn view(&self) -> Seq<(u128, PublicPost)> {
        post_map_entries(self.posts)
    }
}

impl Default for PostManager {
    fn default() -> (r: Self)
        ensures
            r@ == Seq::<(u128, PublicPost)>::empty(),
    {
        PostManager::new()
    }
}

impl PostManager {
    /// No posts.
    pub fn new() -> (r: Self)
        ensures
            r@ == Seq::<(u128, PublicPost)>::empty(),
    {
        PostManager { posts: map_new() }
    }

    /// Replaces the post with `id` by what `update_fn` makes of it, keeping
    /// its place; `false` where no post has that id.
    pub fn update<F: Fn(&PublicPost) -> PublicPost>(&mut self, id: PostId, update_fn: F) -> (r: bool)
        requires
            forall|p: &PublicPost| #[trigger] update_fn.requires((p,)),
        ensures
            r == (index_of(old(self)@, id.0) is Some),
            match index_of(old(self)@, id.0) {
                Some(i) => exists|p: PublicPost|
                    #[trigger] update_fn.ensures((&old(self)@[i].1,), p)
                    && final(self)@ == old(self)@.update(i, (id.0, p)),
                None => final(self)@ == old(self)@,
            },
    {
        let new_post = match map_get(&self.posts, id.0) {
            Some(post) => update_fn(post),
            None => return false,
        };
        let ghost i = index_of(self@, id.0)->0;
        assert(index_of(self@, id.0) == Some(i));
        map_insert(&mut self.posts, id.0, new_post);
        true
    }

    /// Shows exactly `posts`, in order; a later post with the same id
    /// replaces an earlier one in its place.
    pub fn populate(&mut self, posts: Vec<PublicPost>)
        ensures
            final(self)@ == populated(Seq::empty(), posts@),
            keys_of(final(self)@).no_duplicates(),
            forall|j: int| 0 <= j < posts@.len() ==>
                #[trigger] index_of(final(self)@, posts@[j].id.0) is Some,
    {
        proof { lemma_populated(posts@); }
        map_clear(&mut self.posts);
        let ghost all = posts@;
        for post in it: posts.into_iter()
            invariant
                it.seq() == all,
                self@ == populated(Seq::empty(), all.take(it.index())),
        {
            let ghost idx = it.index();
            proof {
                assert(all.take(idx + 1).drop_last() == all.take(idx));
                assert(all.take(idx + 1).last() == all[idx]);
            }
            let key = post.id.0;
            map_insert(&mut self.posts, key, post);
        }
        assert(all.take(all.len() as int) == all);
    }

    /// Whether no post is on show.
    pub fn is_empty(&self) -> (r: bool)
        ensures
            r == (self@.len() == 0),
    {
        map_len(&self.posts) == 0
    }

    /// Shows no post.
    pub fn clear(&mut self)
        ensures
            final(self)@ == Seq::<(u128, PublicPost)>::empty(),
    {
        map_clear(&mut self.posts);
    }

    /// The post with `post_id`, if it is on show.
    pub fn get(&self, post_id: &PostId) -> (r: Option<&PublicPost>)
        ensures
            match index_of(self@, post_id.0) {
                Some(i) => r == Some(&self@[i].1),
                None => r is None,
            },
    {
        map_get(&self.posts, post_id.0)
    }

    /// Takes the post with `post_id` off show; the last post takes its place.
    pub fn remove(&mut self, post_id: &PostId)
        ensures
            final(self)@ == swap_removed(old(self)@, post_id.0),
            index_of(final(self)@, post_id.0) is None,
    {
        map_swap_remove(&mut self.posts, post_id.0);
        proof { lemma_swap_removed_is_gone(old(self)@, post_id.0); }
    }

    /// The ids of the posts on show, in order.
    pub fn ids(&self) -> (r: Vec<PostId>)
        ensures
            r@.len() == self@.len(),
            forall|i: int| 0 <= i < r@.len() ==> #[trigger] r@[i].0 == self@[i].0,
    {
        let n = map_len(&self.posts);
        let mut out: Vec<PostId> = Vec::new();
        let mut i: usize = 0;
        while i < n
            invariant
                n == self@.len(),
                i <= n,
                out@.len() == i,
                forall|j: int| 0 <= j < i ==> #[trigger] out@[j].0 == self@[j].0,
            decreases n - i,
        {
            match map_key_at(&self.posts, i) {
                Some(k) => out.push(PostId(k)),
                None => {},
            }
            i = i + 1;
        }
        out
    }
}

} // verus!
