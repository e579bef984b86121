use vstd::prelude::*;
use crate::record::{
    create_fits, vote_fits, Choice, ProposalModel, RequestModel, VoteError,
};
use crate::transitions::{close_outcome, create_outcome, edit_outcome, store_wf, vote_outcome};

verus! {

/// On a key the store does not hold, edit, close and vote all answer
/// `NoSuchProposal` and change nothing.
pub proof fn lemma_missing_key_rejected(
    s: Map<u64, ProposalModel>,
    key: u64,
    req: RequestModel,
    choice: Choice,
    caller: Seq<u8>,
)
    requires
        !s.contains_key(key),
    ensures
        edit_outcome(s, key, req, caller) == (s, Err::<(), VoteError>(VoteError::NoSuchProposal)),
        close_outcome(s, key, caller) == (s, Err::<(), VoteError>(VoteError::NoSuchProposal)),
        vote_outcome(s, key, choice, caller) == (
            s,
            Err::<(), VoteError>(VoteError::NoSuchProposal),
        ),
{
}

/// A create that fits stores, under its key, a record owned by the
/// invoking identity with all three tallies zero and nobody recorded as
/// having voted.
pub proof fn lemma_create_stores_fresh_record(
    s: Map<u64, ProposalModel>,
    key: u64,
    req: RequestModel,
    caller: Seq<u8>,
)
    requires
        create_fits(req),
    ensures
        create_outcome(s, key, req, caller).contains_key(key),
        create_outcome(s, key, req, caller)[key].owner == caller,
        create_outcome(s, key, req, caller)[key].approve == 0,
        create_outcome(s, key, req, caller)[key].reject == 0,
        create_outcome(s, key, req, caller)[key].pass == 0,
        create_outcome(s, key, req, caller)[key].voted.len() == 0,
        create_outcome(s, key, req, caller)[key].description == req.description,
        create_outcome(s, key, req, caller)[key].is_active == req.is_active,
{
}

/// An edit by anyone but the owner answers `AccessRejected` and leaves
/// the stored record unchanged.
pub proof fn lemma_edit_by_other_rejected(
    s: Map<u64, ProposalModel>,
    key: u64,
    req: RequestModel,
    caller: Seq<u8>,
)
    requires
        s.contains_key(key),
        caller != s[key].owner,
    ensures
        edit_outcome(s, key, req, caller) == (s, Err::<(), VoteError>(VoteError::AccessRejected)),
{
}

/// A close by the owner succeeds and deactivates the record; a second
/// close by the owner succeeds again and changes nothing more.
pub proof fn lemma_close_idempotent(s: Map<u64, ProposalModel>, key: u64, caller: Seq<u8>)
    requires
        s.contains_key(key),
        caller == s[key].owner,
    ensures
        close_outcome(s, key, caller).1 == Ok::<(), VoteError>(()),
        !close_outcome(s, key, caller).0[key].is_active,
        close_outcome(close_outcome(s, key, caller).0, key, caller).1 == Ok::<(), VoteError>(()),
        close_outcome(close_outcome(s, key, caller).0, key, caller).0 == close_outcome(
            s,
            key,
            caller,
        ).0,
{
    let s1 = close_outcome(s, key, caller).0;
    let s2 = close_outcome(s1, key, caller).0;
    assert(s1[key] =~= crate::record::closed_record(s[key]));
    assert(crate::record::closed_record(s1[key]) =~= s1[key]);
    assert(s2 =~= s1);
}

/// A first vote on an active record with room succeeds, grows exactly
/// the chosen tally by one and records the caller; any further vote by
/// the same caller, whatever the choice, answers `AlreadyVoted` and
/// changes nothing.
pub proof fn lemma_vote_once_then_rejected(
    s: Map<u64, ProposalModel>,
    key: u64,
    choice: Choice,
    caller: Seq<u8>,
)
    requires
        s.contains_key(key),
        s[key].is_active,
        !s[key].voted.contains(caller),
        vote_fits(s[key]),
    ensures
        vote_outcome(s, key, choice, caller).1 == Ok::<(), VoteError>(()),
        vote_outcome(s, key, choice, caller).0[key].voted == s[key].voted.push(caller),
        vote_outcome(s, key, choice, caller).0[key].approve == s[key].approve + (
        if choice is Approve {
            1int
        } else {
            0int
        }),
        vote_outcome(s, key, choice, caller).0[key].reject == s[key].reject + (
        if choice is Reject {
            1int
        } else {
            0int
        }),
        vote_outcome(s, key, choice, caller).0[key].pass == s[key].pass + (
        if choice is Pass {
            1int
        } else {
            0int
        }),
        forall|again: Choice|
            vote_outcome(vote_outcome(s, key, choice, caller).0, key, again, caller) == (
                vote_outcome(s, key, choice, caller).0,
                Err::<(), VoteError>(VoteError::AlreadyVoted),
            ),
{
    let s1 = vote_outcome(s, key, choice, caller).0;
    assert(s1[key].voted == s[key].voted.push(caller));
    assert(s1[key].voted[s[key].voted.len() as int] == caller);
    assert(s1[key].voted.contains(caller));
}

/// A vote on an inactive record answers `ProposalIsNotActive` and
/// changes nothing, whoever votes and whatever the choice.
pub proof fn lemma_vote_on_inactive_rejected(
    s: Map<u64, ProposalModel>,
    key: u64,
    choice: Choice,
    caller: Seq<u8>,
)
    requires
        s.contains_key(key),
        !s[key].is_active,
    ensures
        vote_outcome(s, key, choice, caller) == (
            s,
            Err::<(), VoteError>(VoteError::ProposalIsNotActive),
        ),
{
}

/// A record's owner never changes after creation: whatever an edit, a
/// close or a vote does or refuses, the record keeps its owner.
pub proof fn lemma_owner_never_changes(
    s: Map<u64, ProposalModel>,
    key: u64,
    req: RequestModel,
    choice: Choice,
    caller: Seq<u8>,
)
    requires
        s.contains_key(key),
    ensures
        edit_outcome(s, key, req, caller).0[key].owner == s[key].owner,
        close_outcome(s, key, caller).0[key].owner == s[key].owner,
        vote_outcome(s, key, choice, caller).0[key].owner == s[key].owner,
{
}

/// In a store of well-formed records, every record's three tallies sum
/// to the number of identities recorded as having voted on it.
pub proof fn lemma_tallies_account_for_voters(s: Map<u64, ProposalModel>, key: u64)
    requires
        store_wf(s),
        s.contains_key(key),
    ensures
        s[key].approve + s[key].reject + s[key].pass == s[key].voted.len(),
{
}

} // verus!
