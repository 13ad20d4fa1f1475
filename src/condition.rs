use vstd::prelude::*;
use crate::context::{assign, has_key, keys_unique, value_of};
use crate::domain::{region_ids, Region, ScreenCapture};
use crate::text::text_eq;

verus! {

/// Last observed hash of each region id.
pub type HashStore = Seq<(Seq<char>, u64)>;

/// One region observed with hash `h`: the new store, and whether the region changed.
pub open spec fn observe(store: HashStore, id: Seq<char>, h: u64) -> (HashStore, bool) {
    match value_of(store, id) {
        None => (assign(store, id, h), false),
        Some(prev) => if prev != h {
            (assign(store, id, h), true)
        } else {
            (store, false)
        },
    }
}

/// The first `n` regions observed in order: the new store, and whether any of them changed.
pub open spec fn scan(store: HashStore, ids: Seq<Seq<char>>, hs: Seq<u64>, n: nat) -> (HashStore, bool)
    decreases n,
{
    if n == 0 {
        (store, false)
    } else {
        let (s1, c1) = scan(store, ids, hs, (n - 1) as nat);
        let (s2, c2) = observe(s1, ids[n - 1], hs[n - 1]);
        (s2, c1 || c2)
    }
}

pub open spec fn saturating_inc(n: u32) -> u32 {
    if n == u32::MAX { n } else { (n + 1) as u32 }
}

/// Debounced change/stability detector over region hashes.
pub struct RegionCondition {
    pub consecutive_checks: u32,
    pub expect_change: bool,
    pub last_hashes: Vec<(String, u64)>,
    pub consecutive_same_state: u32,
    pub last_had_change: Option<bool>,
}

impl RegionCondition {
    pub open spec fn store(&self) -> HashStore {
        self.last_hashes@.map_values(|p: (String, u64)| (p.0@, p.1))
    }

    pub open spec fn wf(&self) -> bool {
        &&& keys_unique(self.store())
        &&& self.consecutive_checks >= 1
    }

    /// Whether some region changed, observing `hs` for the regions `ids`.
    pub open spec fn sees_change(&self, ids: Seq<Seq<char>>, hs: Seq<u64>) -> bool {
        scan(self.store(), ids, hs, ids.len()).1
    }

    /// The tracked state and streak length after a poll that saw `changed`.
    pub open spec fn streak_after(&self, changed: bool) -> (Option<bool>, u32) {
        match self.last_had_change {
            None => (Some(changed), 1),
            Some(prev) => if prev == changed {
                (Some(prev), saturating_inc(self.consecutive_same_state))
            } else {
                (Some(changed), 1)
            },
        }
    }

    /// Whether the condition is met after polling `hs` for the regions `ids`.
    pub open spec fn met_after(&self, ids: Seq<Seq<char>>, hs: Seq<u64>) -> bool {
        let changed = self.sees_change(ids, hs);
        changed == self.expect_change && self.streak_after(changed).1 >= self.consecutive_checks
    }

    /// `next` is `self` after one poll that observed `hs` for the regions `ids`.
    pub open spec fn polled(&self, next: RegionCondition, ids: Seq<Seq<char>>, hs: Seq<u64>) -> bool {
        let changed = self.sees_change(ids, hs);
        &&& next.consecutive_checks == self.consecutive_checks
        &&& next.expect_change == self.expect_change
        &&& next.store() == scan(self.store(), ids, hs, ids.len()).0
        &&& next.last_had_change == self.streak_after(changed).0
        &&& next.consecutive_same_state == self.streak_after(changed).1
        &&& next.wf()
    }

    /// A fresh detector; `consecutive_checks` below 1 counts as 1.
    pub fn new(consecutive_checks: u32, expect_change: bool) -> (r: RegionCondition)
        ensures
            r.wf(),
            r.consecutive_checks == if consecutive_checks >= 1 { consecutive_checks } else { 1 },
            r.expect_change == expect_change,
            r.store() == Seq::<(Seq<char>, u64)>::empty(),
            r.consecutive_same_state == 0,
            r.last_had_change is None,
    {
        let r = RegionCondition {
            consecutive_checks: if consecutive_checks >= 1 { consecutive_checks } else { 1 },
            expect_change,
            last_hashes: Vec::new(),
            consecutive_same_state: 0,
            last_had_change: None,
        };
        proof {
            assert(r.store() =~= Seq::<(Seq<char>, u64)>::empty());
        }
        r
    }

    fn observe_one(&mut self, id: &String, h: u64) -> (changed: bool)
        requires
            keys_unique(old(self).store()),
        ensures
            (final(self).store(), changed) == observe(old(self).store(), id@, h),
            keys_unique(final(self).store()),
            final(self).consecutive_checks == old(self).consecutive_checks,
            final(self).expect_change == old(self).expect_change,
            final(self).consecutive_same_state == old(self).consecutive_same_state,
            final(self).last_had_change == old(self).last_had_change,
    {
        let ghost es = self.store();
        let n = self.last_hashes.len();
        let mut i: usize = 0;
        while i < n
            invariant
                n == self.last_hashes@.len(),
                es == self.store(),
                es == old(self).store(),
                keys_unique(es),
                i <= n,
                forall|j: int| 0 <= j < i ==> es[j].0 != id@,
                self.consecutive_checks == old(self).consecutive_checks,
                self.expect_change == old(self).expect_change,
                self.consecutive_same_state == old(self).consecutive_same_state,
                self.last_had_change == old(self).last_had_change,
            decreases n - i,
        {
            if text_eq(self.last_hashes[i].0.as_str(), id.as_str()) {
                let prev = self.last_hashes[i].1;
                proof {
                    assert(es[i as int].0 == id@);
                    let k = choose|k: int| 0 <= k < es.len() && #[trigger] es[k].0 == id@;
                    assert(k == i);
                }
                if prev != h {
                    self.last_hashes.set(i, (id.clone(), h));
                    proof {
                        assert(self.store() =~= es.update(i as int, (id@, h)));
                        assert forall|a: int, b: int| 0 <= a < self.store().len() && 0 <= b < self.store().len() && a != b
                            implies self.store()[a].0 != self.store()[b].0 by {}
                    }
                    return true;
                }
                return false;
            }
            i = i + 1;
        }
        self.last_hashes.push((id.clone(), h));
        proof {
            assert(self.store() =~= es.push((id@, h)));
            assert(!has_key(es, id@));
        }
        false
    }

    /// One poll with the hashes already taken: `hashes[i]` is the hash of `regions[i]`.
    pub fn evaluate_hashes(&mut self, regions: &[Region], hashes: &[u64]) -> (r: bool)
        requires
            old(self).wf(),
            hashes@.len() == regions@.len(),
        ensures
            old(self).polled(*final(self), region_ids(regions@), hashes@),
            r == old(self).met_after(region_ids(regions@), hashes@),
    {
        let ghost ids = region_ids(regions@);
        let ghost start = self.store();
        let mut any_changed = false;
        let n = regions.len();
        let mut i: usize = 0;
        while i < n
            invariant
                n == regions@.len(),
                hashes@.len() == n,
                ids == region_ids(regions@),
                i <= n,
                keys_unique(self.store()),
                (self.store(), any_changed) == scan(start, ids, hashes@, i as nat),
                self.consecutive_checks == old(self).consecutive_checks,
                self.expect_change == old(self).expect_change,
                self.consecutive_same_state == old(self).consecutive_same_state,
                self.last_had_change == old(self).last_had_change,
            decreases n - i,
        {
            let c = self.observe_one(&regions[i].id, hashes[i]);
            any_changed = any_changed || c;
            i = i + 1;
        }
        match self.last_had_change {
            None => {
                self.last_had_change = Some(any_changed);
                self.consecutive_same_state = 1;
            },
            Some(prev) => {
                if prev == any_changed {
                    self.consecutive_same_state = self.consecutive_same_state.saturating_add(1);
                } else {
                    self.last_had_change = Some(any_changed);
                    self.consecutive_same_state = 1;
                }
            },
        }
        any_changed == self.expect_change && self.consecutive_same_state >= self.consecutive_checks
    }

    /// One poll: hashes each region through `capture`, then updates the streak.
    pub fn evaluate<S: ScreenCapture>(&mut self, now: u64, regions: &[Region], capture: &S) -> (r: bool)
        requires
            old(self).wf(),
        ensures
            exists|hs: Seq<u64>|
                hs.len() == regions@.len()
                && #[trigger] old(self).polled(*final(self), region_ids(regions@), hs)
                && r == old(self).met_after(region_ids(regions@), hs),
    {
        let mut hashes: Vec<u64> = Vec::new();
        let n = regions.len();
        let mut i: usize = 0;
        while i < n
            invariant
                n == regions@.len(),
                i <= n,
                hashes@.len() == i,
            decreases n - i,
        {
            let h = capture.hash_region(&regions[i], 1);
            hashes.push(h);
            i = i + 1;
        }
        self.evaluate_hashes(regions, hashes.as_slice())
    }
}

} // verus!
