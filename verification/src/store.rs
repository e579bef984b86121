use vstd::prelude::*;
use crate::ident::CallerId;
use crate::index::{key_index_contents, KeyIndex};
use crate::record::{
    contains_id, create_fits, description_len, edited_record, fresh_record, lemma_closed_record_wf,
    lemma_edited_record_wf, lemma_fresh_record_wf, lemma_voted_record_wf,
    lemma_wf_tallies_bounded, record_wf, voted_record, Choice, CreateProposal, Proposal,
    ProposalModel, VoteError, ID_COST, MAX_RECORD_SIZE, RECORD_BASE_COST,
};
use crate::transitions::{close_outcome, create_outcome, edit_outcome, store_wf, vote_outcome};

verus! {

/// The keyed store of proposals, living for the process lifetime.
///
/// Each record's key sits in an ordered stable-memory table
/// (`KeyIndex`) that maps it to a slot in an in-process vector holding
/// the record's fields.  The store starts empty at every process
/// start: the key table is created empty whatever its memory region
/// held before, and record contents never live in that region.
/// Records are never deleted; `create` overwrites whatever stood under
/// its key without warning, which silently discards earlier votes — a
/// documented design gap kept for compatibility.
pub struct ProposalStore {
    index: KeyIndex,
    slots: Vec<Proposal>,
}

impl View for ProposalStore {
    type V = Map<u64, ProposalModel>;

    closed spec fn view(&self) -> Map<u64, ProposalModel> {
        Map::new(
            |k: u64| key_index_contents(self.index).contains_key(k),
            |k: u64| self.slots@[key_index_contents(self.index)[k] as int]@,
        )
    }
}

impl ProposalStore {
    /// The store's internal invariant: the key table is finite, every
    /// slot number it holds is in range, no two keys share a slot, and
    /// every slot holds a well-formed record.
    pub closed spec fn inv(&self) -> bool {
        let c = key_index_contents(self.index);
        &&& c.dom().finite()
        &&& forall|k: u64| #[trigger] c.contains_key(k) ==> (c[k] as int) < self.slots@.len()
        &&& forall|k1: u64, k2: u64|
            #![trigger c[k1], c[k2]]
            c.contains_key(k1) && c.contains_key(k2) && k1 != k2 ==> c[k1] != c[k2]
        &&& forall|i: int| 0 <= i < self.slots@.len() ==> record_wf(#[trigger] self.slots@[i]@)
    }

    /// A store satisfying its invariant holds finitely many keys, and
    /// under every key a well-formed record — one whose three tallies
    /// account exactly for its recorded voters.
    pub proof fn lemma_inv_implies_store_wf(&self)
        requires
            self.inv(),
        ensures
            store_wf(self@),
            self@.dom().finite(),
    {
        assert(self@.dom() =~= key_index_contents(self.index).dom());
    }

    /// Turns a slot number from the key table into an index into the
    /// slot vector; the invariant keeps every stored slot number in
    /// range, so the cast loses nothing.
    fn slot_index(&self, i: u64) -> (iu: usize)
        requires
            i < self.slots@.len(),
        ensures
            iu == i,
    {
        let n = self.slots.len();
        proof {
            assert(i < n);
        }
        i as usize
    }

    /// An empty store: the backing key table is created empty whatever
    /// its memory region held before.
    pub fn new() -> (s: ProposalStore)
        ensures
            s.inv(),
            s@ == Map::<u64, ProposalModel>::empty(),
    {
        let index = KeyIndex::new();
        let s = ProposalStore { index, slots: Vec::new() };
        proof {
            assert(key_index_contents(s.index).dom() =~= Set::<u64>::empty());
            assert(s@ =~= Map::<u64, ProposalModel>::empty());
        }
        s
    }

    /// Pure lookup: the record stored under the key, if any.
    pub fn get_proposal(&self, key: u64) -> (r: Option<Proposal>)
        requires
            self.inv(),
        ensures
            r is Some <==> self@.contains_key(key),
            r matches Some(p) ==> p@ == self@[key],
    {
        match self.index.get(key) {
            None => None,
            Some(i) => {
                let iu = self.slot_index(i);
                Some(self.slots[iu].duplicate())
            },
        }
    }

    /// Builds a fresh record from the request — owner set to the
    /// invoking identity, tallies zeroed, no recorded voters — and
    /// stores it under the key, silently overwriting any record already
    /// there.  Returns the stored record, or `None` when the request's
    /// description would put the record over the size cap, in which
    /// case the store is unchanged.
    pub fn create_proposal(&mut self, key: u64, request: CreateProposal, caller: CallerId) -> (r:
        Option<Proposal>)
        requires
            old(self).inv(),
            caller.wf(),
        ensures
            final(self).inv(),
            final(self)@ == create_outcome(old(self)@, key, request@, caller@),
            r is Some <==> create_fits(request@),
            r matches Some(p) ==> p@ == fresh_record(request@, caller@),
    {
        let desc_len = description_len(&request.description);
        if desc_len > MAX_RECORD_SIZE - RECORD_BASE_COST - ID_COST {
            return None;
        }
        let record = Proposal {
            description: request.description,
            approve: 0,
            reject: 0,
            pass: 0,
            is_active: request.is_active,
            voted: Vec::new(),
            owner: caller,
        };
        let result = record.duplicate();
        proof {
            assert(record@ =~= fresh_record(request@, caller@));
            lemma_fresh_record_wf(request@, caller@);
        }
        match self.index.get(key) {
            Some(i) => {
                let iu = self.slot_index(i);
                self.slots[iu] = record;
            },
            None => {
                let idx = self.slots.len();
                self.slots.push(record);
                self.index.insert(key, idx as u64);
            },
        }
        proof {
            assert(self@ =~= old(self)@.insert(key, fresh_record(request@, caller@)));
        }
        Some(result)
    }

    /// Replaces the record's description and activity with the
    /// request's, leaving tallies, voters and owner untouched.  Refused
    /// with `NoSuchProposal` for a missing key, with `AccessRejected`
    /// for a caller other than the owner, and with `UpdateError` when
    /// the edited record would outgrow the size cap; each refusal
    /// leaves the store unchanged.
    pub fn edit_proposal(&mut self, key: u64, request: CreateProposal, caller: &CallerId) -> (r:
        Result<(), VoteError>)
        requires
            old(self).inv(),
        ensures
            final(self).inv(),
            final(self)@ == edit_outcome(old(self)@, key, request@, caller@).0,
            r == edit_outcome(old(self)@, key, request@, caller@).1,
    {
        let i = match self.index.get(key) {
            None => {
                return Err(VoteError::NoSuchProposal);
            },
            Some(i) => self.slot_index(i),
        };
        if !self.slots[i].owner.same_as(caller) {
            return Err(VoteError::AccessRejected);
        }
        let desc_len = description_len(&request.description);
        let vlen = self.slots[i].voted.len();
        proof {
            lemma_wf_tallies_bounded(self.slots@[i as int]@);
        }
        if desc_len > MAX_RECORD_SIZE
            || RECORD_BASE_COST + desc_len + ID_COST * (vlen + 1) > MAX_RECORD_SIZE {
            return Err(VoteError::UpdateError);
        }
        proof {
            lemma_edited_record_wf(old(self)@[key], request@);
        }
        let mut p = self.slots.remove(i);
        p.description = request.description;
        p.is_active = request.is_active;
        self.slots.insert(i, p);
        proof {
            assert(self.slots@ =~= old(self).slots@.update(
                i as int,
                self.slots@[i as int],
            ));
            assert(self.slots@[i as int]@ =~= edited_record(old(self)@[key], request@));
            assert(self@ =~= old(self)@.insert(key, edited_record(old(self)@[key], request@)));
        }
        Ok(())
    }

    /// Sets the record inactive, whether or not it already was: a
    /// second close is a no-op success.  Refused with `NoSuchProposal`
    /// for a missing key and with `AccessRejected` for a caller other
    /// than the owner; each refusal leaves the store unchanged.
    pub fn end_proposal(&mut self, key: u64, caller: &CallerId) -> (r: Result<(), VoteError>)
        requires
            old(self).inv(),
        ensures
            final(self).inv(),
            final(self)@ == close_outcome(old(self)@, key, caller@).0,
            r == close_outcome(old(self)@, key, caller@).1,
    {
        let i = match self.index.get(key) {
            None => {
                return Err(VoteError::NoSuchProposal);
            },
            Some(i) => self.slot_index(i),
        };
        if !self.slots[i].owner.same_as(caller) {
            return Err(VoteError::AccessRejected);
        }
        proof {
            lemma_closed_record_wf(old(self)@[key]);
        }
        let mut p = self.slots.remove(i);
        p.is_active = false;
        self.slots.insert(i, p);
        proof {
            assert(self.slots@ =~= old(self).slots@.update(
                i as int,
                self.slots@[i as int],
            ));
            assert(self.slots@[i as int]@ =~= crate::record::closed_record(old(self)@[key]));
            assert(self@ =~= old(self)@.insert(
                key,
                crate::record::closed_record(old(self)@[key]),
            ));
        }
        Ok(())
    }

    /// Casts the caller's vote: records the identity and grows the
    /// tally matching the choice by one.  Refused with `NoSuchProposal`
    /// for a missing key, with `ProposalIsNotActive` for an inactive
    /// record, with `AlreadyVoted` for an identity already recorded,
    /// and with `UpdateError` when the record has no room to record one
    /// more voter; each refusal leaves the store unchanged.
    pub fn vote(&mut self, key: u64, choice: Choice, caller: CallerId) -> (r: Result<
        (),
        VoteError,
    >)
        requires
            old(self).inv(),
            caller.wf(),
        ensures
            final(self).inv(),
            final(self)@ == vote_outcome(old(self)@, key, choice, caller@).0,
            r == vote_outcome(old(self)@, key, choice, caller@).1,
    {
        let i = match self.index.get(key) {
            None => {
                return Err(VoteError::NoSuchProposal);
            },
            Some(i) => self.slot_index(i),
        };
        if !self.slots[i].is_active {
            return Err(VoteError::ProposalIsNotActive);
        }
        if contains_id(&self.slots[i].voted, &caller) {
            return Err(VoteError::AlreadyVoted);
        }
        let desc_len = description_len(&self.slots[i].description);
        let vlen = self.slots[i].voted.len();
        proof {
            lemma_wf_tallies_bounded(self.slots@[i as int]@);
        }
        if RECORD_BASE_COST + desc_len + ID_COST * (vlen + 1) + ID_COST > MAX_RECORD_SIZE {
            return Err(VoteError::UpdateError);
        }
        proof {
            lemma_voted_record_wf(old(self)@[key], choice, caller@);
        }
        let mut p = self.slots.remove(i);
        match choice {
            Choice::Approve => {
                p.approve = p.approve + 1;
            },
            Choice::Reject => {
                p.reject = p.reject + 1;
            },
            Choice::Pass => {
                p.pass = p.pass + 1;
            },
        }
        p.voted.push(caller);
        self.slots.insert(i, p);
        proof {
            assert(self.slots@ =~= old(self).slots@.update(
                i as int,
                self.slots@[i as int],
            ));
            assert(self.slots@[i as int]@ =~= voted_record(old(self)@[key], choice, caller@));
            assert(self@ =~= old(self)@.insert(
                key,
                voted_record(old(self)@[key], choice, caller@),
            ));
        }
        Ok(())
    }

    /// The number of stored records.
    pub fn get_proposal_count(&self) -> (n: u64)
        requires
            self.inv(),
        ensures
            n == self@.dom().len(),
    {
        proof {
            assert(self@.dom() =~= key_index_contents(self.index).dom());
        }
        self.index.len()
    }
}

} // verus!
