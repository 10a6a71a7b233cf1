use vstd::prelude::*;
use crate::beatmap::{BeatmapCharacteristic, Rank};
use crate::difficulty::{Difficulty, DifficultyView};
use crate::lookup::{first_named, named};
use crate::lookup::{lemma_named_absent, lemma_named_at, lemma_named_push, lemma_named_same};
use crate::lookup::lemma_named_some;

verus! {

/// The place of a difficulty in a map: its characteristic and its rank.
#[derive(Clone, Copy, PartialEq, Eq, Structural, Debug)]
pub struct Slot {
    pub characteristic: BeatmapCharacteristic,
    pub rank: Rank,
}

#[derive(Clone, Debug, PartialEq)]
struct Ranked {
    slot: Slot,
    difficulty: Difficulty,
}

/// The difficulty documents of a map, by characteristic and by rank.
#[derive(Clone, Debug, PartialEq)]
pub struct DifficultyTable {
    characteristics: Vec<BeatmapCharacteristic>,
    entries: Vec<Ranked>,
}

impl DifficultyTable {
    closed spec fn pairs(&self) -> Seq<(Slot, DifficultyView)> {
        Seq::new(
            self.entries@.len(),
            |i: int| (self.entries@[i].slot, self.entries@[i].difficulty.deep_view()),
        )
    }

    /// The table has a key for the characteristic, with or without documents under it.
    pub closed spec fn declares(&self, characteristic: BeatmapCharacteristic) -> bool {
        self.characteristics@.contains(characteristic)
    }

    /// The document at a slot, where there is one.
    pub closed spec fn at(&self, slot: Slot) -> Option<DifficultyView> {
        named(self.pairs(), slot)
    }

    /// The table as a map from characteristics to maps from ranks to documents.
    pub open spec fn map(&self) -> Map<BeatmapCharacteristic, Map<Rank, DifficultyView>> {
        Map::new(
            |c: BeatmapCharacteristic| self.declares(c),
            |c: BeatmapCharacteristic|
                Map::new(
                    |r: Rank| self.at(Slot { characteristic: c, rank: r }) is Some,
                    |r: Rank| self.at(Slot { characteristic: c, rank: r })->Some_0,
                ),
        )
    }

    /// A table without keys.
    pub fn new() -> (t: DifficultyTable)
        ensures
            forall|c: BeatmapCharacteristic| !t.declares(c),
            forall|slot: Slot| t.at(slot) is None,
    {
        let t = DifficultyTable { characteristics: Vec::new(), entries: Vec::new() };
        proof {
            assert forall|slot: Slot| t.at(slot) is None by {
                lemma_named_absent(t.pairs(), slot);
            }
        }
        t
    }

    /// Whether the table has a key for the characteristic.
    pub fn has(&self, characteristic: BeatmapCharacteristic) -> (b: bool)
        ensures
            b == self.declares(characteristic),
    {
        holds(&self.characteristics, characteristic)
    }

    /// Gives the table a key for the characteristic, if it has none yet.
    pub fn declare(&mut self, characteristic: BeatmapCharacteristic)
        ensures
            forall|c: BeatmapCharacteristic|
                final(self).declares(c) <==> old(self).declares(c) || c == characteristic,
            forall|slot: Slot| final(self).at(slot) == old(self).at(slot),
    {
        if !self.has(characteristic) {
            self.characteristics.push(characteristic);
            proof {
                let before = old(self).characteristics@;
                let after = self.characteristics@;
                assert(after == before.push(characteristic));
                assert forall|c: BeatmapCharacteristic|
                    after.contains(c) <==> before.contains(c) || c == characteristic by {
                    if before.contains(c) {
                        let j = choose|j: int| 0 <= j < before.len() && before[j] == c;
                        assert(after[j] == c);
                    }
                    if c == characteristic {
                        assert(after[before.len() as int] == c);
                    }
                }
                assert(self.pairs() =~= old(self).pairs());
            }
        }
    }

    fn position(&self, slot: Slot) -> (r: Option<usize>)
        ensures
            r matches Some(i) ==> first_named(self.pairs(), slot, i as int),
            r is None ==> forall|j: int|
                0 <= j < self.pairs().len() ==> (#[trigger] self.pairs()[j]).0 != slot,
    {
        let mut i: usize = 0;
        while i < self.entries.len()
            invariant
                i <= self.entries.len(),
                forall|j: int| 0 <= j < i ==> (#[trigger] self.pairs()[j]).0 != slot,
            decreases self.entries.len() - i,
        {
            if self.entries[i].slot == slot {
                return Some(i);
            }
            i += 1;
        }
        None
    }

    /// Puts a document at a slot, in place of the one that was there, and gives the table
    /// a key for the slot's characteristic.
    pub fn insert(&mut self, slot: Slot, difficulty: Difficulty)
        ensures
            forall|k: Slot|
                final(self).at(k) == if k == slot {
                    Some(difficulty.deep_view())
                } else {
                    old(self).at(k)
                },
            forall|c: BeatmapCharacteristic|
                final(self).declares(c) <==> old(self).declares(c) || c == slot.characteristic,
    {
        self.declare(slot.characteristic);
        let ghost declared = *self;
        let ghost before = self.pairs();
        let ghost added = (slot, difficulty.deep_view());
        match self.position(slot) {
            Some(i) => {
                self.entries.set(i, Ranked { slot, difficulty });
                proof {
                    assert forall|c: BeatmapCharacteristic|
                        self.declares(c) <==> old(self).declares(c) || c
                            == slot.characteristic by {
                        assert(self.characteristics@ == declared.characteristics@);
                        assert(self.declares(c) == declared.declares(c));
                    }
                    let after = self.pairs();
                    assert(after =~= before.update(i as int, added));
                    assert forall|k: Slot|
                        named(after, k) == if k == slot {
                            Some(added.1)
                        } else {
                            named(before, k)
                        } by {
                        if k == slot {
                            assert forall|j: int| 0 <= j < i implies (#[trigger] after[j]).0
                                != slot by {
                                assert(before[j].0 != slot);
                            }
                            lemma_named_at(after, slot, i as int);
                        } else {
                            lemma_named_same(before, after, k);
                        }
                    }
                }
            },
            None => {
                self.entries.push(Ranked { slot, difficulty });
                proof {
                    assert forall|c: BeatmapCharacteristic|
                        self.declares(c) <==> old(self).declares(c) || c
                            == slot.characteristic by {
                        assert(self.characteristics@ == declared.characteristics@);
                        assert(self.declares(c) == declared.declares(c));
                    }
                    let after = self.pairs();
                    assert(after =~= before.push(added));
                    lemma_named_absent(before, slot);
                    assert forall|k: Slot|
                        named(after, k) == if k == slot {
                            Some(added.1)
                        } else {
                            named(before, k)
                        } by {
                        lemma_named_push(before, added, k);
                    }
                }
            },
        }
    }

    /// The document at a characteristic and a rank.
    pub fn get(&self, characteristic: BeatmapCharacteristic, rank: Rank) -> (r: Option<&Difficulty>)
        ensures
            r is Some <==> self.at(Slot { characteristic, rank }) is Some,
            r matches Some(d) ==> self.at(Slot { characteristic, rank }) == Some(d.deep_view()),
    {
        let slot = Slot { characteristic, rank };
        match self.position(slot) {
            Some(i) => {
                proof {
                    lemma_named_at(self.pairs(), slot, i as int);
                }
                Some(&self.entries[i].difficulty)
            },
            None => {
                proof {
                    lemma_named_absent(self.pairs(), slot);
                }
                None
            },
        }
    }

    /// The characteristics that the table has a key for, each once.
    pub fn characteristics(&self) -> (r: Vec<BeatmapCharacteristic>)
        ensures
            r@.no_duplicates(),
            forall|c: BeatmapCharacteristic| r@.contains(c) <==> self.declares(c),
    {
        let mut out: Vec<BeatmapCharacteristic> = Vec::new();
        let mut i: usize = 0;
        while i < self.characteristics.len()
            invariant
                i <= self.characteristics.len(),
                out@.no_duplicates(),
                forall|c: BeatmapCharacteristic|
                    out@.contains(c) <==> self.characteristics@.take(i as int).contains(c),
            decreases self.characteristics.len() - i,
        {
            let c = self.characteristics[i];
            let ghost seen = self.characteristics@.take(i as int);
            let ghost next = self.characteristics@.take(i + 1);
            let ghost so_far = out@;
            assert(next =~= seen.push(c));
            if !holds(&out, c) {
                out.push(c);
            }
            proof {
                assert forall|x: BeatmapCharacteristic| out@.contains(x) <==> next.contains(x) by {
                    if next.contains(x) {
                        let j = choose|j: int| 0 <= j < next.len() && next[j] == x;
                        if j < i {
                            assert(seen[j] == x);
                            assert(so_far.contains(x));
                            let k = choose|k: int| 0 <= k < so_far.len() && so_far[k] == x;
                            assert(out@[k] == x);
                        } else {
                            if so_far.contains(c) {
                                let k = choose|k: int| 0 <= k < so_far.len() && so_far[k] == x;
                                assert(out@[k] == x);
                            } else {
                                assert(out@[so_far.len() as int] == x);
                            }
                        }
                    }
                    if out@.contains(x) {
                        let k = choose|k: int| 0 <= k < out@.len() && out@[k] == x;
                        if k < so_far.len() {
                            assert(so_far[k] == x);
                            assert(so_far.contains(x));
                            assert(seen.contains(x));
                            let j = choose|j: int| 0 <= j < seen.len() && seen[j] == x;
                            assert(next[j] == x);
                        } else {
                            assert(next[i as int] == x);
                        }
                    }
                }
            }
            i += 1;
        }
        assert(self.characteristics@.take(i as int) =~= self.characteristics@);
        out
    }

    /// The ranks under which a characteristic holds a document, each once.
    pub fn ranks(&self, characteristic: BeatmapCharacteristic) -> (r: Vec<Rank>)
        ensures
            r@.no_duplicates(),
            forall|rank: Rank|
                r@.contains(rank) <==> self.at(Slot { characteristic, rank }) is Some,
    {
        let mut out: Vec<Rank> = Vec::new();
        let mut i: usize = 0;
        let ghost pairs = self.pairs();
        while i < self.entries.len()
            invariant
                i <= self.entries.len(),
                pairs == self.pairs(),
                out@.no_duplicates(),
                forall|rank: Rank|
                    out@.contains(rank) <==> exists|j: int|
                        0 <= j < i && (#[trigger] pairs[j]).0 == (Slot { characteristic, rank }),
            decreases self.entries.len() - i,
        {
            let slot = self.entries[i].slot;
            let ghost so_far = out@;
            assert(pairs[i as int].0 == slot);
            if slot.characteristic == characteristic && !holds_rank(&out, slot.rank) {
                out.push(slot.rank);
            }
            proof {
                assert forall|rank: Rank|
                    out@.contains(rank) <==> exists|j: int|
                        0 <= j < i + 1 && (#[trigger] pairs[j]).0 == (Slot {
                            characteristic,
                            rank,
                        }) by {
                    let wanted = Slot { characteristic, rank };
                    if out@.contains(rank) {
                        let k = choose|k: int| 0 <= k < out@.len() && out@[k] == rank;
                        if k < so_far.len() {
                            assert(so_far[k] == rank);
                            assert(so_far.contains(rank));
                            let j = choose|j: int| 0 <= j < i && (#[trigger] pairs[j]).0 == wanted;
                            assert(0 <= j < i + 1 && pairs[j].0 == wanted);
                        } else {
                            assert(pairs[i as int].0 == wanted);
                        }
                    }
                    if exists|j: int| 0 <= j < i + 1 && (#[trigger] pairs[j]).0 == wanted {
                        let j = choose|j: int| 0 <= j < i + 1 && (#[trigger] pairs[j]).0 == wanted;
                        if j < i {
                            assert(so_far.contains(rank));
                            let k = choose|k: int| 0 <= k < so_far.len() && so_far[k] == rank;
                            assert(out@[k] == rank);
                        } else {
                            if so_far.contains(rank) {
                                let k = choose|k: int| 0 <= k < so_far.len() && so_far[k] == rank;
                                assert(out@[k] == rank);
                            } else {
                                assert(out@[so_far.len() as int] == rank);
                            }
                        }
                    }
                }
            }
            i += 1;
        }
        proof {
            assert forall|rank: Rank|
                out@.contains(rank) <==> self.at(Slot { characteristic, rank }) is Some by {
                let wanted = Slot { characteristic, rank };
                if out@.contains(rank) {
                    let j = choose|j: int| 0 <= j < i && (#[trigger] pairs[j]).0 == wanted;
                    lemma_named_some(pairs, wanted, j);
                }
                if named(pairs, wanted) is Some {
                    let c = choose|c: int| first_named(pairs, wanted, c);
                    assert(pairs[c].0 == wanted);
                }
            }
        }
        out
    }
}

fn holds(items: &Vec<BeatmapCharacteristic>, wanted: BeatmapCharacteristic) -> (b: bool)
    ensures
        b == items@.contains(wanted),
{
    let mut i: usize = 0;
    while i < items.len()
        invariant
            i <= items.len(),
            forall|j: int| 0 <= j < i ==> items@[j] != wanted,
        decreases items.len() - i,
    {
        if items[i] == wanted {
            return true;
        }
        i += 1;
    }
    false
}

fn holds_rank(items: &Vec<Rank>, wanted: Rank) -> (b: bool)
    ensures
        b == items@.contains(wanted),
{
    let mut i: usize = 0;
    while i < items.len()
        invariant
            i <= items.len(),
            forall|j: int| 0 <= j < i ==> items@[j] != wanted,
        decreases items.len() - i,
    {
        if items[i] == wanted {
            return true;
        }
        i += 1;
    }
    false
}

} // verus!
