//! The slot tracker.

use vstd::prelude::*;

verus! {

/// One record of the tracker: for one parameter vector, the row currently
/// receiving operations of that configuration and the index of the row's
/// first unused operation slot.
struct SlotEntry {
    params: Vec<u64>,
    row: usize,
    next_free: usize,
}

/// Per-parameter-vector record of which row is currently open and how many
/// of its operation slots are filled. Keys are parameter vectors (sequences
/// of field-element values); the value for a key is `(row, next_free)`, with
/// operation indices `[0, next_free)` of the row already packed. The tracker
/// is owned and updated by the external row-allocation logic; finalize only
/// reads it.
pub struct CurrentSlot {
    entries: Vec<SlotEntry>,
}

/// The map that a sequence of records denotes; a later record for a key
/// overrides an earlier one.
spec fn slots_map(s: Seq<SlotEntry>) -> Map<Seq<u64>, (usize, usize)>
    decreases s.len(),
{
    if s.len() == 0 {
        Map::empty()
    } else {
        slots_map(s.drop_last()).insert(
            s.last().params@,
            (s.last().row, s.last().next_free),
        )
    }
}

/// Records at indices `[i, len)` are irrelevant to a key none of them holds.
proof fn lemma_slots_map_agree(s: Seq<SlotEntry>, i: int, p: Seq<u64>)
    requires
        0 <= i <= s.len(),
        forall|j: int| i <= j < s.len() ==> s[j].params@ != p,
    ensures
        slots_map(s).contains_key(p) == slots_map(s.take(i)).contains_key(p),
        slots_map(s).contains_key(p) ==> slots_map(s)[p] == slots_map(s.take(i))[p],
    decreases s.len(),
{
    if i == s.len() {
        assert(s.take(i) =~= s);
    } else {
        let s0 = s.drop_last();
        assert(s.last() == s[s.len() - 1]);
        assert forall|j: int| i <= j < s0.len() implies s0[j].params@ != p by {
            assert(s0[j] == s[j]);
        }
        lemma_slots_map_agree(s0, i, p);
        assert(s0.take(i) =~= s.take(i));
    }
}

/// Overwriting the last record that holds a key acts on the denoted map as an
/// insert at that key.
proof fn lemma_slots_map_update(s: Seq<SlotEntry>, i: int, e: SlotEntry, p: Seq<u64>)
    requires
        0 <= i < s.len(),
        s[i].params@ == p,
        e.params@ == p,
        forall|j: int| i < j < s.len() ==> s[j].params@ != p,
    ensures
        slots_map(s.update(i, e)) == slots_map(s).insert(p, (e.row, e.next_free)),
    decreases s.len(),
{
    let su = s.update(i, e);
    let ve = (e.row, e.next_free);
    if i == s.len() - 1 {
        assert(su.drop_last() =~= s.drop_last());
        assert(su.last() == e);
        assert(slots_map(su) == slots_map(s.drop_last()).insert(p, ve));
        assert(slots_map(s.drop_last()).insert(
            p,
            (s.last().row, s.last().next_free),
        ).insert(p, ve) =~= slots_map(s.drop_last()).insert(p, ve));
    } else {
        let s0 = s.drop_last();
        let lk = s.last().params@;
        let lv = (s.last().row, s.last().next_free);
        assert(s.last() == s[s.len() - 1]);
        assert(lk != p);
        assert(su.drop_last() =~= s0.update(i, e));
        assert(su.last() == s.last());
        assert forall|j: int| i < j < s0.len() implies s0[j].params@ != p by {
            assert(s0[j] == s[j]);
        }
        assert(s0[i] == s[i]);
        lemma_slots_map_update(s0, i, e, p);
        assert(slots_map(su) == slots_map(s0).insert(p, ve).insert(lk, lv));
        assert(slots_map(s0).insert(p, ve).insert(lk, lv) =~= slots_map(s0).insert(
            lk,
            lv,
        ).insert(p, ve));
    }
}

/// Exact equality of two parameter vectors.
fn eq_params(a: &Vec<u64>, b: &Vec<u64>) -> (r: bool)
    ensures
        r == (a@ == b@),
{
    if a.len() != b.len() {
        return false;
    }
    let mut k: usize = 0;
    while k < a.len()
        invariant
            k <= a.len(),
            a@.len() == b@.len(),
            forall|t: int| 0 <= t < k ==> a@[t] == b@[t],
        decreases a.len() - k,
    {
        if a[k] != b[k] {
            return false;
        }
        k += 1;
    }
    proof {
        assert(a@ =~= b@);
    }
    true
}

impl View for CurrentSlot {
    type V = Map<Seq<u64>, (usize, usize)>;

    closed spec fn view(&self) -> Map<Seq<u64>, (usize, usize)> {
        slots_map(self.entries@)
    }
}

impl CurrentSlot {
    /// A tracker with no record of any parameter vector.
    pub fn new() -> (t: CurrentSlot)
        ensures
            t@ == Map::<Seq<u64>, (usize, usize)>::empty(),
    {
        CurrentSlot { entries: Vec::new() }
    }

    /// The `(row, next_free)` record for the given parameter vector, or
    /// `None` when nothing was ever opened for these parameters.
    pub fn get(&self, params: &Vec<u64>) -> (r: Option<(usize, usize)>)
        ensures
            r == (if self@.contains_key(params@) {
                Some(self@[params@])
            } else {
                None::<(usize, usize)>
            }),
    {
        let mut i: usize = self.entries.len();
        loop
            invariant
                i <= self.entries.len(),
                forall|j: int|
                    i <= j < self.entries@.len() ==> self.entries@[j].params@ != params@,
            decreases i,
        {
            if i == 0 {
                proof {
                    lemma_slots_map_agree(self.entries@, 0, params@);
                    assert(self.entries@.take(0) =~= Seq::<SlotEntry>::empty());
                }
                return None;
            }
            i = i - 1;
            if eq_params(&self.entries[i].params, params) {
                proof {
                    lemma_slots_map_agree(self.entries@, i + 1, params@);
                    let t = self.entries@.take(i + 1);
                    assert(t.last() == self.entries@[i as int]);
                    assert(slots_map(t) == slots_map(t.drop_last()).insert(
                        t.last().params@,
                        (t.last().row, t.last().next_free),
                    ));
                }
                let entry = &self.entries[i];
                return Some((entry.row, entry.next_free));
            }
        }
    }

    /// Records `(row, next_free)` for the given parameter vector, replacing
    /// any earlier record for the same parameters.
    pub fn insert(&mut self, params: Vec<u64>, row: usize, next_free: usize)
        ensures
            final(self)@ == old(self)@.insert(params@, (row, next_free)),
    {
        let ghost s = self.entries@;
        let mut i: usize = self.entries.len();
        loop
            invariant
                i <= self.entries.len(),
                self.entries@ == s,
                slots_map(s) == old(self)@,
                forall|j: int| i <= j < s.len() ==> s[j].params@ != params@,
            decreases i,
        {
            if i == 0 {
                break;
            }
            i = i - 1;
            if eq_params(&self.entries[i].params, &params) {
                let ghost pv = params@;
                let e = SlotEntry { params, row, next_free };
                let ghost ge = e;
                self.entries[i] = e;
                proof {
                    assert(self.entries@ == s.update(i as int, ge));
                    lemma_slots_map_update(s, i as int, ge, pv);
                }
                return;
            }
        }
        self.entries.push(SlotEntry { params, row, next_free });
        proof {
            assert(self.entries@.drop_last() =~= s);
            assert(self.entries@.last().params@ == params@);
        }
    }
}

} // verus!
