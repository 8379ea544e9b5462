//! Permission & consent state machine.
//!
//! Every check-agent has a stored preference, one of [`PermissionState`].
//! `AskEveryTime` is the default for every check that has no stored choice,
//! so nothing runs without an explicit decision. The stored preferences are
//! a [`PermissionMap`]; every decision reads the map given to it, so
//! flipping a preference takes effect on the very next scan.

use crate::checks::lookup_last;
use crate::text::same_text;
use vstd::prelude::*;

verus! {

#[derive(Debug, Clone, Copy, PartialEq, Eq, Structural)]
pub enum PermissionState {
    Allowed,
    Denied,
    AskEveryTime,
}

impl Default for PermissionState {
    fn default() -> (s: Self)
        ensures
            s == PermissionState::AskEveryTime,
    {
        PermissionState::AskEveryTime
    }
}

impl DeepView for PermissionState {
    type V = PermissionState;

    open spec fn deep_view(&self) -> PermissionState {
        *self
    }
}

/// The stored preferences: `(check id, state)` pairs, each id at most once.
pub struct PermissionMap {
    pub entries: Vec<(String, PermissionState)>,
}

/// The stored state for `id` in `entries`, if any.
pub open spec fn stored(entries: Seq<(Seq<char>, PermissionState)>, id: Seq<char>) -> Option<PermissionState> {
    lookup_last(entries, id)
}

/// The effective preference for `id`: the stored one, else `AskEveryTime`.
pub open spec fn effective(entries: Seq<(Seq<char>, PermissionState)>, id: Seq<char>) -> PermissionState {
    match stored(entries, id) {
        Some(s) => s,
        None => PermissionState::AskEveryTime,
    }
}

pub open spec fn distinct_ids(entries: Seq<(Seq<char>, PermissionState)>) -> bool {
    forall|i: int, j: int| 0 <= i < j < entries.len() ==> entries[i].0 != entries[j].0
}

impl PermissionMap {
    pub open spec fn model(&self) -> Seq<(Seq<char>, PermissionState)> {
        self.entries.deep_view()
    }

    pub open spec fn well_formed(&self) -> bool {
        distinct_ids(self.model())
    }

    /// A map with no stored preference.
    pub fn new() -> (m: PermissionMap)
        ensures
            m.model().len() == 0,
            m.well_formed(),
    {
        PermissionMap { entries: Vec::new() }
    }

    /// Position of the last entry for `id`, if any.
    fn position(&self, id: &str) -> (r: Option<usize>)
        ensures
            r matches Some(i) ==> i < self.model().len() && self.model()[i as int].0 == id@
                && forall|j: int| i < j < self.model().len() ==> self.model()[j].0 != id@,
            r is None ==> forall|j: int| 0 <= j < self.model().len() ==> self.model()[j].0 != id@,
    {
        let mut i = self.entries.len();
        while i > 0
            invariant
                i <= self.entries.len(),
                forall|j: int| i <= j < self.model().len() ==> self.model()[j].0 != id@,
            decreases i,
        {
            if same_text(self.entries[i - 1].0.as_str(), id) {
                return Some(i - 1);
            }
            i = i - 1;
        }
        None
    }
}

pub proof fn lemma_lookup_last_none<V>(pairs: Seq<(Seq<char>, V)>, key: Seq<char>)
    requires
        forall|j: int| 0 <= j < pairs.len() ==> pairs[j].0 != key,
    ensures
        lookup_last(pairs, key) is None,
    decreases pairs.len(),
{
    if pairs.len() > 0 {
        lemma_lookup_last_none(pairs.drop_last(), key);
    }
}

pub proof fn lemma_lookup_last_at<V>(pairs: Seq<(Seq<char>, V)>, key: Seq<char>, i: int)
    requires
        0 <= i < pairs.len(),
        pairs[i].0 == key,
        forall|j: int| i < j < pairs.len() ==> pairs[j].0 != key,
    ensures
        lookup_last(pairs, key) == Some(pairs[i].1),
    decreases pairs.len(),
{
    if i < pairs.len() - 1 {
        lemma_lookup_last_at(pairs.drop_last(), key, i);
    }
}

pub proof fn lemma_lookup_last_push<V>(pairs: Seq<(Seq<char>, V)>, p: (Seq<char>, V), key: Seq<char>)
    ensures
        lookup_last(pairs.push(p), key) == (if p.0 == key {
            Some(p.1)
        } else {
            lookup_last(pairs, key)
        }),
{
    assert(pairs.push(p).drop_last() =~= pairs);
}

pub proof fn lemma_lookup_last_update<V>(pairs: Seq<(Seq<char>, V)>, i: int, v: V, key: Seq<char>)
    requires
        0 <= i < pairs.len(),
    ensures
        lookup_last(pairs.update(i, (pairs[i].0, v)), key) == (if pairs[i].0 == key && (forall|
            j: int,
        | i < j < pairs.len() ==> pairs[j].0 != key) {
            Some(v)
        } else {
            lookup_last(pairs, key)
        }),
    decreases pairs.len(),
{
    let q = pairs.update(i, (pairs[i].0, v));
    if i == pairs.len() - 1 {
        assert(q.drop_last() =~= pairs.drop_last());
    } else {
        assert(q.drop_last() =~= pairs.drop_last().update(i, (pairs[i].0, v)));
        lemma_lookup_last_update(pairs.drop_last(), i, v, key);
        if pairs.last().0 == key {
        } else {
            if pairs[i].0 == key && (forall|j: int| i < j < pairs.drop_last().len() ==> pairs.drop_last()[j].0 != key) {
                assert forall|j: int| i < j < pairs.len() implies pairs[j].0 != key by {
                    if j < pairs.len() - 1 {
                        assert(pairs[j] == pairs.drop_last()[j]);
                    }
                }
            }
            if pairs[i].0 == key && (forall|j: int| i < j < pairs.len() ==> pairs[j].0 != key) {
                assert forall|j: int| i < j < pairs.drop_last().len() implies pairs.drop_last()[j].0 != key by {
                    assert(pairs[j] == pairs.drop_last()[j]);
                }
            }
        }
    }
}

/// Returns the preference for every check id given, defaulting missing
/// entries to `AskEveryTime` (without storing the default).
pub fn get_all(map: &PermissionMap, check_ids: &[&str]) -> (r: Vec<(String, PermissionState)>)
    ensures
        r@.len() == check_ids@.len(),
        forall|k: int|
            0 <= k < r@.len() ==> (#[trigger] r@[k]).0@ == check_ids@[k]@ && r@[k].1 == effective(
                map.model(),
                check_ids@[k]@,
            ),
{
    let mut r: Vec<(String, PermissionState)> = Vec::new();
    let mut k: usize = 0;
    while k < check_ids.len()
        invariant
            k <= check_ids@.len(),
            r@.len() == k,
            forall|m: int|
                0 <= m < k ==> (#[trigger] r@[m]).0@ == check_ids@[m]@ && r@[m].1 == effective(
                    map.model(),
                    check_ids@[m]@,
                ),
        decreases check_ids@.len() - k,
    {
        let id = check_ids[k];
        let state = get_one(map, id);
        r.push((String::from_str(id), state));
        k = k + 1;
    }
    r
}

/// Looks up a single check's stored preference, defaulting to
/// `AskEveryTime` if none has ever been set.
pub fn get_one(map: &PermissionMap, check_id: &str) -> (s: PermissionState)
    ensures
        s == effective(map.model(), check_id@),
{
    match map.position(check_id) {
        Some(i) => {
            proof {
                lemma_lookup_last_at(map.model(), check_id@, i as int);
            }
            map.entries[i].1
        },
        None => {
            proof {
                lemma_lookup_last_none(map.model(), check_id@);
            }
            PermissionState::AskEveryTime
        },
    }
}

/// Stores `state` as the preference for `check_id`.
pub fn set_one(map: &mut PermissionMap, check_id: &str, state: PermissionState)
    ensures
        stored(final(map).model(), check_id@) == Some(state),
        forall|other: Seq<char>|
            other != check_id@ ==> stored(final(map).model(), other) == stored(old(map).model(), other),
        old(map).well_formed() ==> final(map).well_formed(),
{
    match map.position(check_id) {
        Some(i) => {
            let ghost before = map.model();
            let id = map.entries[i].0.clone();
            map.entries.set(i, (id, state));
            proof {
                assert(map.model() =~= before.update(i as int, (before[i as int].0, state)));
                lemma_lookup_last_update(before, i as int, state, check_id@);
                assert forall|other: Seq<char>| other != check_id@ implies stored(map.model(), other) == stored(
                    before,
                    other,
                ) by {
                    lemma_lookup_last_update(before, i as int, state, other);
                }
                if distinct_ids(before) {
                    assert(distinct_ids(map.model()));
                }
            }
        },
        None => {
            let ghost before = map.model();
            map.entries.push((String::from_str(check_id), state));
            proof {
                assert(map.model() =~= before.push((check_id@, state)));
                lemma_lookup_last_push(before, (check_id@, state), check_id@);
                assert forall|other: Seq<char>| other != check_id@ implies stored(map.model(), other) == stored(
                    before,
                    other,
                ) by {
                    lemma_lookup_last_push(before, (check_id@, state), other);
                }
            }
        },
    }
}

/// A stored preference is what the next read returns: after `set_one(id,
/// s)`, the effective preference of `id` is `s`, and every other check's
/// effective preference is unchanged.
pub proof fn law_read_after_write(
    before: Seq<(Seq<char>, PermissionState)>,
    after: Seq<(Seq<char>, PermissionState)>,
    id: Seq<char>,
    s: PermissionState,
)
    requires
        stored(after, id) == Some(s),
        forall|other: Seq<char>| other != id ==> stored(after, other) == stored(before, other),
    ensures
        effective(after, id) == s,
        forall|other: Seq<char>| other != id ==> effective(after, other) == effective(before, other),
{
}

/// A check that never had a preference stored is `AskEveryTime`.
pub proof fn law_default_is_ask_every_time(entries: Seq<(Seq<char>, PermissionState)>, id: Seq<char>)
    requires
        forall|j: int| 0 <= j < entries.len() ==> entries[j].0 != id,
    ensures
        effective(entries, id) == PermissionState::AskEveryTime,
{
    lemma_lookup_last_none(entries, id);
}

} // verus!
