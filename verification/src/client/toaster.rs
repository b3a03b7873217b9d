//! Short-lived notices ("toasts") shown to the user, each with an expiry
//! time, kept under increasing ids.

use std::collections::HashMap;

use vstd::prelude::*;
use vstd::std_specs::iter::IteratorSpec;

use crate::clock::{read_clock, ClockReading};

verus! {

broadcast use vstd::std_specs::hash::group_hash_axioms;

/// What a toast reports.
#[derive(Clone, Copy, Debug, PartialEq, Eq)]
pub enum ToastKind {
    Error,
    Info,
    Success,
}

/// One notice: its text, the time it expires (milliseconds since the Unix
/// epoch, UTC) and its kind.
#[derive(Debug)]
pub struct Toast {
    pub message: String,
    pub expires: i64,
    pub kind: ToastKind,
}

/// The toasts on show, by id, and the id the next one gets.
#[derive(Debug)]
pub struct Toaster {
    toasts: HashMap<usize, Toast>,
    next_id: usize,
}

/// Time at which a toast made at `now` and shown for `duration`
/// milliseconds expires; times beyond the range of `i64` are held at its
/// bounds.
pub open spec fn expiry(now: i64, duration: i64) -> int {
    let t = now + duration;
    if t > i64::MAX {
        i64::MAX as int
    } else if t < i64::MIN {
        i64::MIN as int
    } else {
        t
    }
}

/// `after` is `before` with one more toast of the given kind and message,
/// made at `now` and shown for `duration` milliseconds, under `before`'s
/// next id; every other toast is kept.
pub open spec fn toast_pushed(
    before: Toaster,
    after: Toaster,
    message: Seq<char>,
    kind: ToastKind,
    now: i64,
    duration: i64,
) -> bool {
    &&& after.next_id() == before.next_id() + 1
    &&& after.toasts()[before.next_id()].expires == expiry(now, duration)
    &&& after.toasts().dom() == before.toasts().dom().insert(before.next_id())
    &&& forall|id: usize| #[trigger] before.toasts().contains_key(id) && id != before.next_id()
        ==> after.toasts()[id] == before.toasts()[id]
    &&& after.toasts()[before.next_id()].message@ == message
    &&& after.toasts()[before.next_id()].kind == kind
    &&& before.wf() ==> after.wf()
}

/// `after` is `before` swept at `now`: the toasts expired at `now` are
/// taken off show, the others are kept as they were, and the next id stays.
pub open spec fn swept(before: Toaster, after: Toaster, now: i64) -> bool {
    &&& forall|id: usize| #[trigger] after.toasts().contains_key(id) <==>
        (before.toasts().contains_key(id) && !(now > before.toasts()[id].expires))
    &&& forall|id: usize| #[trigger] after.toasts().contains_key(id) ==>
        after.toasts()[id] == before.toasts()[id]
    &&& after.next_id() == before.next_id()
}

/// A notice stays on show for its duration: a sweep at `t` keeps the toast
/// that was made at `at` for `duration` milliseconds exactly when `t` is not
/// past its expiry, which is `at + duration` where that fits in an `i64`.
pub proof fn law_notice_lasts_its_duration(
    before: Toaster,
    made: Toaster,
    later: Toaster,
    message: Seq<char>,
    kind: ToastKind,
    at: i64,
    duration: i64,
    t: i64,
)
    requires
        toast_pushed(before, made, message, kind, at, duration),
        swept(made, later, t),
    ensures
        later.toasts().contains_key(before.next_id()) <==> t <= expiry(at, duration),
        i64::MIN <= at + duration <= i64::MAX ==> (later.toasts().contains_key(before.next_id()) <==> t <= at + duration),
        later.toasts().contains_key(before.next_id()) ==> later.toasts()[before.next_id()].message@ == message
            && later.toasts()[before.next_id()].kind == kind,
{
    assert(made.toasts().contains_key(before.next_id()));
}

impl Default for Toaster {
    fn default() -> (r: Self)
        ensures
            r.toasts() == Map::<usize, Toast>::empty(),
            r.next_id() == 0,
            r.wf(),
    {
        Toaster::new()
    }
}

impl ToastKind {
    /// The style classes that a toast of this kind is drawn with.
    pub fn style(&self) -> (r: &'static str)
        ensures
            r@ == match self {
                ToastKind::Info => "bg-slate-200 border-slate-300"@,
                ToastKind::Success => "bg-emerald-200 border-emerald-300"@,
                ToastKind::Error => "bg-rose-300 border-rose-400"@,
            },
    {
        match self {
            ToastKind::Info => "bg-slate-200 border-slate-300",
            ToastKind::Success => "bg-emerald-200 border-emerald-300",
            ToastKind::Error => "bg-rose-300 border-rose-400",
        }
    }
}

impl Toaster {
    /// The toasts on show, by id.
    pub closed spec fn toasts(&self) -> Map<usize, Toast> {
        self.toasts@
    }

    /// The id that the next toast gets.
    pub closed spec fn next_id(&self) -> usize {
        self.next_id
    }

    /// Every toast's id is below the next id.
    pub closed spec fn wf(&self) -> bool {
        forall|id: usize| self.toasts@.contains_key(id) ==> id < self.next_id
    }

    /// No toasts; the first gets id 0.
    pub fn new() -> (r: Self)
        ensures
            r.toasts() == Map::<usize, Toast>::empty(),
            r.next_id() == 0,
            r.wf(),
    {
        Toaster { toasts: HashMap::new(), next_id: 0 }
    }

    /// Moves on to the next id.
    pub fn increment_id(&mut self)
        requires
            old(self).next_id() < usize::MAX,
        ensures
            final(self).toasts() == old(self).toasts(),
            final(self).next_id() == old(self).next_id() + 1,
            old(self).wf() ==> final(self).wf(),
    {
        self.next_id = self.next_id + 1;
    }

    /// Shows `toast` under the next id.
    pub fn push(&mut self, toast: Toast)
        requires
            old(self).next_id() < usize::MAX,
        ensures
            final(self).toasts() == old(self).toasts().insert(old(self).next_id(), toast),
            final(self).next_id() == old(self).next_id() + 1,
            old(self).wf() ==> final(self).wf(),
    {
        let id = self.next_id;
        self.toasts.insert(id, toast);
        self.increment_id();
    }

    /// Takes the toast with `id` off show.
    pub fn remove(&mut self, id: usize)
        ensures
            final(self).toasts() == old(self).toasts().remove(id),
            final(self).next_id() == old(self).next_id(),
            old(self).wf() ==> final(self).wf(),
    {
        self.toasts.remove(&id);
    }

    /// Shows `message` of the given kind from `now` for `duration` milliseconds.
    pub fn push_at(&mut self, message: &str, kind: ToastKind, now: i64, duration: i64)
        requires
            old(self).next_id() < usize::MAX,
        ensures
            final(self).next_id() == old(self).next_id() + 1,
            final(self).toasts().dom() == old(self).toasts().dom().insert(old(self).next_id()),
            forall|id: usize| #[trigger] old(self).toasts().contains_key(id) && id != old(self).next_id()
                ==> final(self).toasts()[id] == old(self).toasts()[id],
            final(self).toasts()[old(self).next_id()].message@ == message@,
            final(self).toasts()[old(self).next_id()].expires == expiry(now, duration),
            final(self).toasts()[old(self).next_id()].kind == kind,
            old(self).wf() ==> final(self).wf(),
    {
        let expires = if duration > 0 && now > i64::MAX - duration {
            i64::MAX
        } else if duration < 0 && now < i64::MIN - duration {
            i64::MIN
        } else {
            now + duration
        };
        let toast = Toast { message: message.to_owned(), expires, kind };
        self.push(toast);
    }

    /// Shows a success notice for `duration` milliseconds from
    /// now; the clock reading it was made at is returned.
    pub fn success(&mut self, message: &str, duration: i64) -> (at: ClockReading)
        requires
            old(self).next_id() < usize::MAX,
        ensures
            toast_pushed(*old(self), *final(self), message@, ToastKind::Success, at@, duration),
            final(self).next_id() == old(self).next_id() + 1,
            final(self).toasts().dom() == old(self).toasts().dom().insert(old(self).next_id()),
            forall|id: usize| #[trigger] old(self).toasts().contains_key(id) && id != old(self).next_id()
                ==> final(self).toasts()[id] == old(self).toasts()[id],
            final(self).toasts()[old(self).next_id()].message@ == message@,
            final(self).toasts()[old(self).next_id()].kind == ToastKind::Success,
            old(self).wf() ==> final(self).wf(),
    {
        let at = read_clock();
        self.push_at(message, ToastKind::Success, at.millis(), duration);
        at
    }

    /// Shows an informational notice for `duration` milliseconds from
    /// now; the clock reading it was made at is returned.
    pub fn info(&mut self, message: &str, duration: i64) -> (at: ClockReading)
        requires
            old(self).next_id() < usize::MAX,
        ensures
            toast_pushed(*old(self), *final(self), message@, ToastKind::Info, at@, duration),
            final(self).next_id() == old(self).next_id() + 1,
            final(self).toasts().dom() == old(self).toasts().dom().insert(old(self).next_id()),
            forall|id: usize| #[trigger] old(self).toasts().contains_key(id) && id != old(self).next_id()
                ==> final(self).toasts()[id] == old(self).toasts()[id],
            final(self).toasts()[old(self).next_id()].message@ == message@,
            final(self).toasts()[old(self).next_id()].kind == ToastKind::Info,
            old(self).wf() ==> final(self).wf(),
    {
        let at = read_clock();
        self.push_at(message, ToastKind::Info, at.millis(), duration);
        at
    }

    /// Shows an error notice for `duration` milliseconds from
    /// now; the clock reading it was made at is returned.
    pub fn error(&mut self, message: &str, duration: i64) -> (at: ClockReading)
        requires
            old(self).next_id() < usize::MAX,
        ensures
            toast_pushed(*old(self), *final(self), message@, ToastKind::Error, at@, duration),
            final(self).next_id() == old(self).next_id() + 1,
            final(self).toasts().dom() == old(self).toasts().dom().insert(old(self).next_id()),
            forall|id: usize| #[trigger] old(self).toasts().contains_key(id) && id != old(self).next_id()
                ==> final(self).toasts()[id] == old(self).toasts()[id],
            final(self).toasts()[old(self).next_id()].message@ == message@,
            final(self).toasts()[old(self).next_id()].kind == ToastKind::Error,
            old(self).wf() ==> final(self).wf(),
    {
        let at = read_clock();
        self.push_at(message, ToastKind::Error, at.millis(), duration);
        at
    }

    /// Number of toasts on show.
    pub fn len(&self) -> (r: usize)
        ensures
            r == self.toasts().len(),
    {
        self.toasts.len()
    }

    /// The toast with `id`, if it is on show.
    pub fn get(&self, id: usize) -> (r: Option<&Toast>)
        ensures
            match r {
                Some(t) => self.toasts().contains_key(id) && *t == self.toasts()[id],
                None => !self.toasts().contains_key(id),
            },
    {
        self.toasts.get(&id)
    }

    /// The ids of the toasts on show, each once, in no promised order.
    pub fn ids(&self) -> (r: Vec<usize>)
        ensures
            r@.no_duplicates(),
            forall|id: usize| #[trigger] r@.contains(id) <==> self.toasts().contains_key(id),
    {
        let ghost keys = self.toasts.keys().remaining();
        let mut out: Vec<usize> = Vec::new();
        for id in it: self.toasts.keys()
            invariant
                it.seq() == keys,
                keys.no_duplicates(),
                keys.unref().to_set() == self.toasts@.dom(),
                out@ == keys.unref().take(it.index()),
        {
            let ghost idx = it.index();
            assert(keys.unref()[idx] == *id);
            out.push(*id);
            assert(out@ == keys.unref().take(idx + 1));
        }
        proof {
            assert(out@ == keys.unref());
            assert forall|a: int, b: int| 0 <= a < b < out@.len() implies out@[a] != out@[b] by {
                assert(keys[a] != keys[b]);
            }
            assert forall|id: usize| #[trigger] out@.contains(id) <==> self.toasts@.contains_key(id) by {
                assert(keys.unref().to_set().contains(id) <==> keys.unref().contains(id));
            }
        }
        out
    }

    /// One round of the expiry loop at `now`: where no toast is on show the
    /// loop ends (`false`, nothing changes); otherwise every toast expired
    /// at `now` is taken off show and the loop waits and goes on (`true`).
    pub fn expire_step(&mut self, now: i64) -> (r: bool)
        ensures
            r == (old(self).toasts().len() != 0),
            !r ==> *final(self) == *old(self),
            r ==> forall|id: usize| #[trigger] final(self).toasts().contains_key(id) <==>
                (old(self).toasts().contains_key(id) && !(now > old(self).toasts()[id].expires)),
            forall|id: usize| #[trigger] final(self).toasts().contains_key(id) ==>
                final(self).toasts()[id] == old(self).toasts()[id],
            final(self).next_id() == old(self).next_id(),
            old(self).wf() ==> final(self).wf(),
    {
        if self.len() == 0 {
            false
        } else {
            self.remove_expired(now);
            true
        }
    }

    /// Takes every toast that has expired at `now` off show.
    pub fn remove_expired(&mut self, now: i64)
        ensures
            swept(*old(self), *final(self), now),
            forall|id: usize| #[trigger] final(self).toasts().contains_key(id) <==>
                (old(self).toasts().contains_key(id) && !(now > old(self).toasts()[id].expires)),
            forall|id: usize| #[trigger] final(self).toasts().contains_key(id) ==>
                final(self).toasts()[id] == old(self).toasts()[id],
            final(self).next_id() == old(self).next_id(),
            old(self).wf() ==> final(self).wf(),
    {
        let ids = self.expired_ids(now);
        let ghost start = self.toasts();
        assert forall|id: usize| #![trigger ids@.contains(id)] #![trigger start[id]]
            ids@.contains(id) <==> (start.contains_key(id) && now > start[id].expires) by {
            assert(ids@.contains(id) <==> (self.toasts().contains_key(id) && now > self.toasts()[id].expires));
        }
        let mut i: usize = 0;
        while i < ids.len()
            invariant
                i <= ids@.len(),
                self.next_id == old(self).next_id,
                start == old(self).toasts(),
                forall|id: usize| #![trigger ids@.contains(id)] #![trigger start[id]]
                    ids@.contains(id) <==> (start.contains_key(id) && now > start[id].expires),
                forall|id: usize| #[trigger] self.toasts@.contains_key(id) <==>
                    (start.contains_key(id) && !ids@.subrange(0, i as int).contains(id)),
                forall|id: usize| #[trigger] self.toasts@.contains_key(id) ==> self.toasts@[id] == start[id],
            decreases ids@.len() - i,
        {
            let id = ids[i];
            self.remove(id);
            proof {
                assert forall|x: usize| #[trigger] self.toasts@.contains_key(x) <==>
                    (start.contains_key(x) && !ids@.subrange(0, i + 1).contains(x)) by {
                    if ids@.subrange(0, i + 1).contains(x) && x != id {
                        let k = choose|k: int| 0 <= k < i + 1 && #[trigger] ids@.subrange(0, i + 1)[k] == x;
                        assert(ids@.subrange(0, i as int)[k] == x);
                    }
                    if ids@.subrange(0, i as int).contains(x) {
                        let k = choose|k: int| 0 <= k < i && #[trigger] ids@.subrange(0, i as int)[k] == x;
                        assert(ids@.subrange(0, i + 1)[k] == x);
                    }
                    if x == id {
                        assert(ids@.subrange(0, i + 1)[i as int] == x);
                    }
                }
            }
            i = i + 1;
        }
        assert(ids@.subrange(0, ids@.len() as int) == ids@);
    }

    /// The ids of the toasts that have expired at `now`, each once.
    pub fn expired_ids(&self, now: i64) -> (r: Vec<usize>)
        ensures
            r@.no_duplicates(),
            forall|id: usize| r@.contains(id) <==>
                (self.toasts().contains_key(id) && now > #[trigger] self.toasts()[id].expires),
    {
        let ghost keys = self.toasts.keys().remaining();
        assert(keys.unref().to_set() == self.toasts@.dom());
        let mut out: Vec<usize> = Vec::new();
        for id in it: self.toasts.keys()
            invariant
                it.seq() == keys,
                keys.no_duplicates(),
                keys.unref().to_set() == self.toasts@.dom(),
                out@.no_duplicates(),
                forall|x: usize| #[trigger] out@.contains(x) <==>
                    exists|j: int| 0 <= j < it.index() && *keys[j] == x
                        && now > self.toasts@[x].expires,
        {
            let ghost idx = it.index();
            let ghost old_out = out@;
            assert(keys.unref()[idx] == *id);
            assert(*keys[idx] == *id);
            assert(self.toasts@.contains_key(*id));
            let t = self.toasts.get(id).unwrap();
            if now > t.expires {
                assert(!old_out.contains(*id)) by {
                    if old_out.contains(*id) {
                        let j = choose|j: int| 0 <= j < idx && *keys[j] == *id
                            && now > self.toasts@[*id].expires;
                        assert(keys[j] != keys[idx]);
                    }
                }
                out.push(*id);
                assert forall|x: usize| #[trigger] out@.contains(x) <==>
                    exists|j: int| 0 <= j < idx + 1 && *keys[j] == x
                        && now > self.toasts@[x].expires by {
                    if x == *id {
                        assert(out@[out@.len() - 1] == x);
                    } else {
                        if out@.contains(x) {
                            let k = choose|k: int| 0 <= k < out@.len() && out@[k] == x;
                            assert(old_out[k] == x);
                        }
                        if old_out.contains(x) {
                            let k = choose|k: int| 0 <= k < old_out.len() && old_out[k] == x;
                            assert(out@[k] == x);
                        }
                    }
                }
            } else {
                assert forall|x: usize| #[trigger] out@.contains(x) <==>
                    exists|j: int| 0 <= j < idx + 1 && *keys[j] == x
                        && now > self.toasts@[x].expires by {
                    if exists|j: int| 0 <= j < idx + 1 && *keys[j] == x && now > self.toasts@[x].expires {
                        let j = choose|j: int| 0 <= j < idx + 1 && *keys[j] == x && now > self.toasts@[x].expires;
                        if j == idx {
                            assert(x == *id);
                        }
                    }
                }
            }
        }
        proof {
            assert forall|id: usize| #[trigger] self.toasts@.contains_key(id) implies
                exists|j: int| 0 <= j < keys.len() && *keys[j] == id by {
                assert(keys.unref().to_set().contains(id));
                let j = choose|j: int| 0 <= j < keys.len() && keys.unref()[j] == id;
                assert(*keys[j] == id);
            }
            assert forall|j: int| 0 <= j < keys.len() implies self.toasts@.contains_key(#[trigger] *keys[j]) by {
                assert(keys.unref()[j] == *keys[j]);
                assert(keys.unref().to_set().contains(*keys[j]));
            }
        }
        out
    }
}

/// A toast is never shown under an id that is already on show: pushing
/// adds a toast and leaves every other one in place.
pub proof fn lemma_push_never_replaces(toaster: &Toaster)
    requires
        toaster.wf(),
    ensures
        !toaster.toasts().contains_key(toaster.next_id()),
{
}

} // verus!
