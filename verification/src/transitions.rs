use vstd::prelude::*;
use crate::ident::MAX_ID_BYTES;
use crate::record::{
    closed_record, create_fits, edit_fits, edited_record, fresh_record, record_wf, vote_fits,
    voted_record, Choice, ProposalModel, RequestModel, VoteError,
};

verus! {

/// Every record held by the store is well formed.
pub open spec fn store_wf(s: Map<u64, ProposalModel>) -> bool {
    forall|k: u64| #[trigger] s.contains_key(k) ==> record_wf(s[k])
}

/// The store after a create: a fresh record overwrites whatever stood
/// under the key.  A request too large to fit leaves the store unchanged.
pub open spec fn create_outcome(
    s: Map<u64, ProposalModel>,
    key: u64,
    req: RequestModel,
    caller: Seq<u8>,
) -> Map<u64, ProposalModel> {
    if create_fits(req) {
        s.insert(key, fresh_record(req, caller))
    } else {
        s
    }
}

/// The store and result of an edit: refused for a missing key, for a
/// caller other than the owner, and for a record that would outgrow the
/// size cap; otherwise the request's fields replace description and
/// activity.
pub open spec fn edit_outcome(
    s: Map<u64, ProposalModel>,
    key: u64,
    req: RequestModel,
    caller: Seq<u8>,
) -> (Map<u64, ProposalModel>, Result<(), VoteError>) {
    if !s.contains_key(key) {
        (s, Err(VoteError::NoSuchProposal))
    } else if s[key].owner != caller {
        (s, Err(VoteError::AccessRejected))
    } else if !edit_fits(s[key], req) {
        (s, Err(VoteError::UpdateError))
    } else {
        (s.insert(key, edited_record(s[key], req)), Ok(()))
    }
}

/// The store and result of a close: refused for a missing key and for a
/// caller other than the owner; otherwise the record is made inactive,
/// whether or not it already was.
pub open spec fn close_outcome(
    s: Map<u64, ProposalModel>,
    key: u64,
    caller: Seq<u8>,
) -> (Map<u64, ProposalModel>, Result<(), VoteError>) {
    if !s.contains_key(key) {
        (s, Err(VoteError::NoSuchProposal))
    } else if s[key].owner != caller {
        (s, Err(VoteError::AccessRejected))
    } else {
        (s.insert(key, closed_record(s[key])), Ok(()))
    }
}

/// The store and result of a vote: refused for a missing key, for an
/// inactive record, for a caller that already voted, and for a record
/// with no room to record one more voter; otherwise the caller is
/// recorded and the chosen tally grows by one.
pub open spec fn vote_outcome(
    s: Map<u64, ProposalModel>,
    key: u64,
    choice: Choice,
    caller: Seq<u8>,
) -> (Map<u64, ProposalModel>, Result<(), VoteError>) {
    if !s.contains_key(key) {
        (s, Err(VoteError::NoSuchProposal))
    } else if !s[key].is_active {
        (s, Err(VoteError::ProposalIsNotActive))
    } else if s[key].voted.contains(caller) {
        (s, Err(VoteError::AlreadyVoted))
    } else if !vote_fits(s[key]) {
        (s, Err(VoteError::UpdateError))
    } else {
        (s.insert(key, voted_record(s[key], choice, caller)), Ok(()))
    }
}

/// Each operation hands back a store whose records are all still well
/// formed, whatever the key, request, choice and (well-formed) caller.
pub proof fn lemma_outcomes_preserve_store_wf(
    s: Map<u64, ProposalModel>,
    key: u64,
    req: RequestModel,
    choice: Choice,
    caller: Seq<u8>,
)
    requires
        store_wf(s),
        caller.len() <= MAX_ID_BYTES,
    ensures
        store_wf(create_outcome(s, key, req, caller)),
        store_wf(edit_outcome(s, key, req, caller).0),
        store_wf(close_outcome(s, key, caller).0),
        store_wf(vote_outcome(s, key, choice, caller).0),
{
    if create_fits(req) {
        crate::record::lemma_fresh_record_wf(req, caller);
    }
    if s.contains_key(key) {
        if s[key].owner == caller && edit_fits(s[key], req) {
            crate::record::lemma_edited_record_wf(s[key], req);
        }
        if s[key].owner == caller {
            crate::record::lemma_closed_record_wf(s[key]);
        }
        if s[key].is_active && !s[key].voted.contains(caller) && vote_fits(s[key]) {
            crate::record::lemma_voted_record_wf(s[key], choice, caller);
        }
    }
}

} // verus!
