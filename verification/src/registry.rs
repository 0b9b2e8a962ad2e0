//! The registry of status records, keyed by dump identifier.

use vstd::prelude::*;
use crate::status::{DumpInfo, DumpInfoView};
use crate::error::TaskOutcome;

verus! {

/// Every record ever accepted, at most one per identifier.
///
/// Records are added and updated in place; none is ever removed.
#[derive(Debug)]
pub struct StatusRegistry {
    entries: Vec<DumpInfo>,
}

/// What the registry holds after the record under `uid` took `outcome` at
/// `now`: a running record becomes done or failed, and anything else,
/// including an absent or finished record, is left as it is.
pub open spec fn resolved(
    infos: Map<Seq<char>, DumpInfoView>,
    uid: Seq<char>,
    outcome: crate::error::TaskOutcomeView,
    now: i64,
) -> Map<Seq<char>, DumpInfoView> {
    if infos.contains_key(uid) && infos[uid].in_progress() {
        match outcome.error_message() {
            None => infos.insert(uid, infos[uid].done(now)),
            Some(message) => infos.insert(uid, infos[uid].with_error(message, now)),
        }
    } else {
        infos
    }
}

impl StatusRegistry {
    /// The position of the record with identifier `uid`, if there is one.
    pub closed spec fn slot(&self, uid: Seq<char>) -> int {
        choose|i: int| 0 <= i < self.entries.len() && self.entries[i].uid@ == uid
    }

    /// No identifier occurs twice.
    pub closed spec fn wf(&self) -> bool {
        forall|i: int, j: int|
            0 <= i < self.entries.len() && 0 <= j < self.entries.len() && i != j
                ==> self.entries[i].uid@ != self.entries[j].uid@
    }

    proof fn lemma_slot(&self, i: int)
        requires
            self.wf(),
            0 <= i < self.entries.len(),
        ensures
            self@.contains_key(self.entries[i].uid@),
            self.slot(self.entries[i].uid@) == i,
            self@[self.entries[i].uid@] == self.entries[i]@,
    {
        let uid = self.entries[i].uid@;
        assert(0 <= i < self.entries.len() && self.entries[i].uid@ == uid);
    }

    proof fn lemma_absent(&self, uid: Seq<char>)
        requires
            forall|i: int| 0 <= i < self.entries.len() ==> self.entries[i].uid@ != uid,
        ensures
            !self@.contains_key(uid),
    {
    }

    /// An empty registry.
    pub fn new() -> (res: Self)
        ensures
            res.wf(),
            res@ == Map::<Seq<char>, DumpInfoView>::empty(),
    {
        let res = StatusRegistry { entries: Vec::new() };
        assert(res@ =~= Map::<Seq<char>, DumpInfoView>::empty());
        res
    }

    fn position(&self, uid: &String) -> (res: Option<usize>)
        requires
            self.wf(),
        ensures
            match res {
                Some(i) => i < self.entries.len() && self.entries[i as int].uid@ == uid@
                    && self@.contains_key(uid@) && self@[uid@] == self.entries[i as int]@,
                None => !self@.contains_key(uid@)
                    && forall|i: int| 0 <= i < self.entries.len() ==> self.entries[i].uid@ != uid@,
            },
    {
        let mut i: usize = 0;
        while i < self.entries.len()
            invariant
                i <= self.entries.len(),
                self.wf(),
                forall|j: int| 0 <= j < i ==> self.entries[j].uid@ != uid@,
            decreases self.entries.len() - i,
        {
            if self.entries[i].uid == *uid {
                proof {
                    self.lemma_slot(i as int);
                }
                return Some(i);
            }
            i += 1;
        }
        proof {
            self.lemma_absent(uid@);
        }
        None
    }

    /// How many records the registry holds.
    pub fn len(&self) -> (res: usize)
        requires
            self.wf(),
        ensures
            res == self@.len(),
            self@.dom().finite(),
    {
        proof {
            self.lemma_len();
        }
        self.entries.len()
    }

    proof fn lemma_len(&self)
        requires
            self.wf(),
        ensures
            self@.dom().finite(),
            self@.len() == self.entries.len(),
    {
        let uids = self.entries@.map_values(|e: DumpInfo| e.uid@);
        assert forall|i: int, j: int| 0 <= i < uids.len() && 0 <= j < uids.len() && i != j implies uids[i] != uids[j] by {}
        assert(uids.no_duplicates());
        uids.unique_seq_to_set();
        assert(uids.to_set() =~= self@.dom()) by {
            assert forall|k: Seq<char>| uids.to_set().contains(k) implies self@.dom().contains(k) by {
                let i = choose|i: int| 0 <= i < uids.len() && uids[i] == k;
                self.lemma_slot(i);
            }
            assert forall|k: Seq<char>| self@.dom().contains(k) implies uids.to_set().contains(k) by {
                let i = self.slot(k);
                assert(uids[i] == k);
            }
        }
    }

    /// A copy of the record under `uid`, if there is one.
    pub fn get(&self, uid: &String) -> (res: Option<DumpInfo>)
        requires
            self.wf(),
        ensures
            match res {
                Some(info) => self@.contains_key(uid@) && info@ == self@[uid@],
                None => !self@.contains_key(uid@),
            },
    {
        match self.position(uid) {
            Some(i) => Some(self.entries[i].clone()),
            None => None,
        }
    }

    /// Stores `info` under its identifier, in place of any record that was
    /// there.
    pub fn insert(&mut self, info: DumpInfo)
        requires
            old(self).wf(),
        ensures
            final(self).wf(),
            final(self)@ == old(self)@.insert(info@.uid, info@),
    {
        let ghost before = *self;
        let ghost added = info@;
        match self.position(&info.uid) {
            Some(i) => {
                self.entries.set(i, info);
                proof {
                    self.lemma_after_write(before, added, i as int);
                }
            },
            None => {
                self.entries.push(info);
                proof {
                    self.lemma_after_write(before, added, before.entries.len() as int);
                }
            },
        }
    }

    /// Writing one record, over the record with its identifier or at the
    /// end, is an insertion into the map.
    proof fn lemma_after_write(&self, before: Self, added: DumpInfoView, at: int)
        requires
            before.wf(),
            0 <= at <= before.entries.len(),
            at < before.entries.len() ==> before.entries[at].uid@ == added.uid
                && self.entries.len() == before.entries.len(),
            at == before.entries.len() ==> self.entries.len() == before.entries.len() + 1
                && forall|i: int| 0 <= i < before.entries.len()
                    ==> before.entries[i].uid@ != added.uid,
            self.entries[at]@ == added,
            forall|j: int| 0 <= j < before.entries.len() && j != at
                ==> self.entries[j] == before.entries[j],
        ensures
            self.wf(),
            self@ == before@.insert(added.uid, added),
    {
        assert(0 <= at < self.entries.len());
        assert(self.entries[at]@ == added);
        assert(forall|j: int| 0 <= j < self.entries.len() && j != at
            ==> 0 <= j < before.entries.len() && self.entries[j] == before.entries[j]
                && before.entries[j].uid@ != added.uid);
        assert(self.wf());
        let after = before@.insert(added.uid, added);
        assert forall|k: Seq<char>| self@.contains_key(k) <==> after.contains_key(k) by {
            if self@.contains_key(k) {
                let i = self.slot(k);
                if i != at {
                    before.lemma_slot(i);
                }
            }
            if after.contains_key(k) {
                if k == added.uid {
                    self.lemma_slot(at);
                } else {
                    let i = before.slot(k);
                    self.lemma_slot(i);
                }
            }
        }
        assert forall|k: Seq<char>| self@.contains_key(k) implies self@[k] == after[k] by {
            let i = self.slot(k);
            self.lemma_slot(i);
            if i != at {
                before.lemma_slot(i);
            }
        }
        assert(self@ =~= after);
    }

    /// Records how the dump under `uid` ended: a running record becomes done
    /// or failed at `now`; a finished or absent one is left as it is.
    /// Returns whether a record changed.
    pub fn resolve(&mut self, uid: &String, outcome: &TaskOutcome, now: i64) -> (res: bool)
        requires
            old(self).wf(),
        ensures
            final(self).wf(),
            final(self)@ == resolved(old(self)@, uid@, outcome@, now),
            res == (old(self)@.contains_key(uid@) && old(self)@[uid@].in_progress()),
    {
        let ghost before = *self;
        match self.position(uid) {
            Some(i) => {
                if self.entries[i].dump_already_in_progress() {
                    let mut info = self.entries[i].clone();
                    match outcome.error_message() {
                        None => info.done(now),
                        Some(message) => info.with_error(message, now),
                    }
                    let ghost added = info@;
                    self.entries.set(i, info);
                    proof {
                        self.lemma_after_write(before, added, i as int);
                    }
                    true
                } else {
                    false
                }
            },
            None => false,
        }
    }
}

impl View for StatusRegistry {
    type V = Map<Seq<char>, DumpInfoView>;

    closed spec fn view(&self) -> Map<Seq<char>, DumpInfoView> {
        Map::new(
            |uid: Seq<char>|
                exists|i: int| 0 <= i < self.entries.len() && self.entries[i].uid@ == uid,
            |uid: Seq<char>| self.entries[self.slot(uid)]@,
        )
    }
}

} // verus!
