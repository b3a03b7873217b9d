//! The form for a new poll.

use std::collections::BTreeMap;

use vstd::prelude::*;
use vstd::std_specs::btree::increasing_seq;
use vstd::std_specs::cmp::OrdSpec;
use vstd::std_specs::iter::IteratorSpec;

use crate::client::route::{Navigation, Route};
use super::NOTICE_MILLIS;
use crate::client::toaster::{toast_pushed, ToastKind, Toaster};
use crate::endpoint::post::NewPostOk;
use crate::domain::post::{
    poll_choice_description_check, poll_heading_check, PollChoiceDescription, PollHeading,
};

verus! {

broadcast use {vstd::std_specs::btree::group_btree_axioms, vstd::laws_cmp::group_laws_cmp};

/// What the poll form holds: the heading, the choices by key (shown in
/// increasing key order), and the key the next added choice gets.
#[derive(Clone, Debug)]
pub struct PageState {
    pub heading: String,
    pub poll_choices: BTreeMap<usize, String>,
    pub next_id: usize,
}

/// Whether every choice's text is a valid choice description.
pub open spec fn all_choices_valid(choices: Map<usize, String>) -> bool {
    forall|k: usize| #[trigger] choices.contains_key(k) ==> poll_choice_description_check(choices[k]@) is Ok
}

/// Whether a poll with this heading and these choices may be made: the
/// heading is valid, there are at least two choices and each is valid.
pub open spec fn poll_submittable(heading: Seq<char>, choices: Map<usize, String>) -> bool {
    &&& poll_heading_check(heading) is Ok
    &&& choices.len() >= 2
    &&& all_choices_valid(choices)
}

/// A poll that may be submitted has a heading of 1 to 50 characters and
/// at least two choices of 1 to 80 characters each; in particular a poll
/// with an empty heading, or with fewer than two choices, may not be.
pub proof fn law_submittable_poll_is_well_formed(heading: Seq<char>, choices: Map<usize, String>)
    requires
        poll_submittable(heading, choices),
    ensures
        1 <= heading.len() <= 50,
        choices.len() >= 2,
        forall|k: usize| #[trigger] choices.contains_key(k) ==> 1 <= choices[k]@.len() <= 80,
{
    assert forall|k: usize| #[trigger] choices.contains_key(k) implies 1 <= choices[k]@.len() <= 80 by {
        assert(poll_choice_description_check(choices[k]@) is Ok);
    }
}

impl Default for PageState {
    /// An empty heading and two empty choices, under keys 0 and 1.
    fn default() -> (r: Self)
        ensures
            r.heading@.len() == 0,
            r.poll_choices@.dom() == set![0usize, 1usize],
            r.poll_choices@[0]@.len() == 0,
            r.poll_choices@[1]@.len() == 0,
            r.next_id == 2,
            r.wf(),
    {
        let mut map = BTreeMap::new();
        map.insert(0, String::new());
        map.insert(1, String::new());
        PageState { heading: String::new(), poll_choices: map, next_id: 2 }
    }
}

impl PageState {
    /// Every choice's key is below the key the next added choice gets, so
    /// adding a choice never replaces one.
    pub open spec fn wf(&self) -> bool {
        forall|k: usize| #[trigger] self.poll_choices@.contains_key(k) ==> k < self.next_id
    }

    /// Whether the form may be submitted.
    pub fn can_submit(&self) -> (r: bool)
        ensures
            r == poll_submittable(self.heading@, self.poll_choices@),
            r ==> poll_heading_check(self.heading@) is Ok && all_choices_valid(self.poll_choices@),
    {
        if PollHeading::try_new(self.heading.as_str()).is_err() {
            return false;
        }
        if self.poll_choices.len() < 2 {
            return false;
        }
        let ghost vals = self.poll_choices.values().remaining();
        for choice in it: self.poll_choices.values()
            invariant
                it.seq() == vals,
                vals.unref().to_set() == self.poll_choices@.values(),
                forall|j: int| 0 <= j < it.index() ==> poll_choice_description_check((*vals[j])@) is Ok,
        {
            let ghost idx = it.index();
            assert(*vals[idx] == *choice);
            if PollChoiceDescription::try_new(choice.as_str()).is_err() {
                proof {
                    assert(vals.unref()[idx] == *choice);
                    assert(self.poll_choices@.values().contains(*choice));
                    let k = choose|k: usize| self.poll_choices@.contains_key(k) && self.poll_choices@[k] == *choice;
                    assert(!all_choices_valid(self.poll_choices@));
                }
                return false;
            }
        }
        proof {
            assert forall|k: usize| #[trigger] self.poll_choices@.contains_key(k) implies
                poll_choice_description_check(self.poll_choices@[k]@) is Ok by {
                let v = self.poll_choices@[k];
                assert(self.poll_choices@.values().contains(v));
                assert(vals.unref().to_set().contains(v));
                let j = choose|j: int| 0 <= j < vals.unref().len() && vals.unref()[j] == v;
                assert(*vals[j] == v);
            }
        }
        true
    }

    /// The poll's heading; `None` where it is not valid.
    pub fn poll_heading(&self) -> (r: Option<PollHeading>)
        ensures
            r is Some <==> poll_heading_check(self.heading@) is Ok,
            r matches Some(h) ==> h@ == self.heading@,
    {
        match PollHeading::try_new(self.heading.as_str()) {
            Ok(h) => Some(h),
            Err(_) => None,
        }
    }

    /// The choices' descriptions in increasing key order; `None` where one
    /// of them is not valid.
    pub fn descriptions(&self) -> (r: Option<Vec<PollChoiceDescription>>)
        ensures
            r is Some <==> all_choices_valid(self.poll_choices@),
            r matches Some(ds) ==> exists|ks: Seq<usize>|
                {
                    &&& ks.len() == ds@.len()
                    &&& ks.to_set() == self.poll_choices@.dom()
                    &&& forall|i: int, j: int| 0 <= i < j < ks.len() ==> ks[i] < ks[j]
                    &&& forall|i: int| 0 <= i < ks.len() ==> #[trigger] ds@[i]@ == self.poll_choices@[ks[i]]@
                },
    {
        let values = self.poll_choices.values();
        let ghost vals = values.remaining();
        let ghost ks = choose|ks: Seq<usize>|
            {
                &&& increasing_seq(ks)
                &&& ks.to_set() == self.poll_choices@.dom()
                &&& ks.no_duplicates()
                &&& vals == ks.map(|i: int, k: usize| &self.poll_choices@[k])
            };
        let mut out: Vec<PollChoiceDescription> = Vec::new();
        for choice in it: values
            invariant
                it.seq() == vals,
                increasing_seq(ks),
                ks.to_set() == self.poll_choices@.dom(),
                ks.no_duplicates(),
                vals == ks.map(|i: int, k: usize| &self.poll_choices@[k]),
                out@.len() == it.index(),
                forall|i: int| 0 <= i < it.index() ==> #[trigger] out@[i]@ == self.poll_choices@[ks[i]]@,
                forall|i: int| 0 <= i < it.index() ==>
                    poll_choice_description_check(#[trigger] self.poll_choices@[ks[i]]@) is Ok,
        {
            let ghost idx = it.index();
            assert(*vals[idx] == *choice);
            assert(*vals[idx] == self.poll_choices@[ks[idx]]);
            match PollChoiceDescription::try_new(choice.as_str()) {
                Ok(d) => out.push(d),
                Err(_) => {
                    proof {
                        assert(ks.to_set().contains(ks[idx]));
                        assert(self.poll_choices@.contains_key(ks[idx]));
                    }
                    return None;
                },
            }
        }
        proof {
            assert forall|k: usize| #[trigger] self.poll_choices@.contains_key(k) implies
                poll_choice_description_check(self.poll_choices@[k]@) is Ok by {
                assert(ks.to_set().contains(k));
                let j = choose|j: int| 0 <= j < ks.len() && ks[j] == k;
                assert(poll_choice_description_check(self.poll_choices@[ks[j]]@) is Ok);
            }
            assert forall|i: int, j: int| 0 <= i < j < ks.len() implies ks[i] < ks[j] by {
                assert(ks[i].cmp_spec(&ks[j]) is Less);
            }
        }
        Some(out)
    }

    /// Adds `choice` under the next key.
    pub fn push_choice(&mut self, choice: &str)
        requires
            old(self).next_id < usize::MAX,
        ensures
            final(self).poll_choices@.dom() == old(self).poll_choices@.dom().insert(old(self).next_id),
            final(self).poll_choices@[old(self).next_id]@ == choice@,
            forall|k: usize| k != old(self).next_id && #[trigger] old(self).poll_choices@.contains_key(k)
                ==> final(self).poll_choices@[k] == old(self).poll_choices@[k],
            final(self).next_id == old(self).next_id + 1,
            final(self).heading == old(self).heading,
            old(self).wf() ==> !old(self).poll_choices@.contains_key(old(self).next_id),
            old(self).wf() ==> final(self).poll_choices@.len() == old(self).poll_choices@.len() + 1,
            old(self).wf() ==> final(self).wf(),
    {
        self.poll_choices.insert(self.next_id, choice.to_owned());
        self.next_id = self.next_id + 1;
    }

    /// Sets the text of the choice under `key`, adding it where absent.
    pub fn replace_choice(&mut self, key: usize, choice: &str)
        ensures
            final(self).poll_choices@.dom() == old(self).poll_choices@.dom().insert(key),
            final(self).poll_choices@[key]@ == choice@,
            forall|k: usize| k != key && #[trigger] old(self).poll_choices@.contains_key(k)
                ==> final(self).poll_choices@[k] == old(self).poll_choices@[k],
            final(self).next_id == old(self).next_id,
            final(self).heading == old(self).heading,
            old(self).wf() && key < old(self).next_id ==> final(self).wf(),
    {
        self.poll_choices.insert(key, choice.to_owned());
    }

    /// Drops the choice under `key`.
    pub fn remove_choice(&mut self, key: usize)
        ensures
            final(self).poll_choices@ == old(self).poll_choices@.remove(key),
            final(self).next_id == old(self).next_id,
            final(self).heading == old(self).heading,
            old(self).wf() ==> final(self).wf(),
    {
        self.poll_choices.remove(&key);
    }
}

/// Takes the reply to posting the poll: `Poll Success!` and the home page
/// in the form's place in the history on success, `Poll failed: ` and the reason on failure.
pub fn on_post_response(toaster: &mut Toaster, res: Result<NewPostOk, String>, now: i64) -> (r: Option<Navigation>)
    requires
        old(toaster).next_id() < usize::MAX,
    ensures
        match res {
            Ok(_) => {
                &&& toast_pushed(*old(toaster), *final(toaster), "Poll Success!"@, ToastKind::Success, now, NOTICE_MILLIS)
                &&& r == Some(Navigation::Replace(Route::Home))
            },
            Err(e) => {
                &&& toast_pushed(*old(toaster), *final(toaster), "Poll failed: "@ + e@, ToastKind::Error, now, NOTICE_MILLIS)
                &&& r is None
            },
        },
{
    super::on_post_response(toaster, res, "Poll Success!", "Poll failed: ", now)
}

} // verus!
