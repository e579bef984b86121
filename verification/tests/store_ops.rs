use proposal_store::{CallerId, Choice, CreateProposal, ProposalStore, VoteError};

fn caller(n: u8) -> CallerId {
    CallerId::new(vec![n]).unwrap()
}

fn req(description: &str, is_active: bool) -> CreateProposal {
    CreateProposal { description: description.to_string(), is_active }
}

#[test]
fn get_on_missing_key_is_none() {
    let store = ProposalStore::new();
    assert!(store.get_proposal(42).is_none());
    assert_eq!(store.get_proposal_count(), 0);
}

#[test]
fn mutations_on_missing_key_return_no_such_proposal() {
    let mut store = ProposalStore::new();
    let a = caller(1);
    assert_eq!(
        store.edit_proposal(7, req("x", true), &a),
        Err(VoteError::NoSuchProposal)
    );
    assert_eq!(store.end_proposal(7, &a), Err(VoteError::NoSuchProposal));
    assert_eq!(
        store.vote(7, Choice::Approve, caller(2)),
        Err(VoteError::NoSuchProposal)
    );
    assert_eq!(store.get_proposal_count(), 0);
}

#[test]
fn create_initializes_record() {
    let mut store = ProposalStore::new();
    let a = caller(1);
    let created = store.create_proposal(5, req("Build a park", true), a).unwrap();
    assert_eq!(created.description, "Build a park");
    assert!(created.is_active);
    assert_eq!(created.approve, 0);
    assert_eq!(created.reject, 0);
    assert_eq!(created.pass, 0);
    assert_eq!(created.voted.len(), 0);
    assert!(created.owner.same_as(&caller(1)));

    let stored = store.get_proposal(5).unwrap();
    assert_eq!(stored.description, "Build a park");
    assert!(stored.owner.same_as(&caller(1)));
    assert_eq!(stored.approve, 0);
    assert_eq!(stored.voted.len(), 0);
    assert_eq!(store.get_proposal_count(), 1);
}

#[test]
fn create_overwrites_existing_record_and_discards_votes() {
    let mut store = ProposalStore::new();
    store.create_proposal(1, req("first", true), caller(1));
    assert_eq!(store.vote(1, Choice::Approve, caller(2)), Ok(()));
    assert_eq!(store.get_proposal(1).unwrap().approve, 1);

    // A second create under the same key silently replaces the record.
    store.create_proposal(1, req("second", false), caller(3));
    let p = store.get_proposal(1).unwrap();
    assert_eq!(p.description, "second");
    assert_eq!(p.approve, 0);
    assert_eq!(p.voted.len(), 0);
    assert!(p.owner.same_as(&caller(3)));
    assert_eq!(store.get_proposal_count(), 1);
}

#[test]
fn edit_by_owner_keeps_votes_and_owner() {
    let mut store = ProposalStore::new();
    let a = caller(1);
    store.create_proposal(1, req("old text", true), caller(1));
    assert_eq!(store.vote(1, Choice::Reject, caller(2)), Ok(()));
    assert_eq!(store.edit_proposal(1, req("new text", false), &a), Ok(()));
    let p = store.get_proposal(1).unwrap();
    assert_eq!(p.description, "new text");
    assert!(!p.is_active);
    assert_eq!(p.reject, 1);
    assert_eq!(p.voted.len(), 1);
    assert!(p.voted[0].same_as(&caller(2)));
    assert!(p.owner.same_as(&caller(1)));
}

#[test]
fn edit_by_other_caller_is_access_rejected() {
    let mut store = ProposalStore::new();
    store.create_proposal(1, req("original", true), caller(1));
    let intruder = caller(2);
    assert_eq!(
        store.edit_proposal(1, req("defaced", false), &intruder),
        Err(VoteError::AccessRejected)
    );
    let p = store.get_proposal(1).unwrap();
    assert_eq!(p.description, "original");
    assert!(p.is_active);
}

#[test]
fn close_by_other_caller_is_access_rejected() {
    let mut store = ProposalStore::new();
    store.create_proposal(1, req("open", true), caller(1));
    let intruder = caller(2);
    assert_eq!(store.end_proposal(1, &intruder), Err(VoteError::AccessRejected));
    assert!(store.get_proposal(1).unwrap().is_active);
}

#[test]
fn close_is_idempotent() {
    let mut store = ProposalStore::new();
    let a = caller(1);
    store.create_proposal(1, req("to close", true), caller(1));
    assert_eq!(store.end_proposal(1, &a), Ok(()));
    assert!(!store.get_proposal(1).unwrap().is_active);
    assert_eq!(store.end_proposal(1, &a), Ok(()));
    assert!(!store.get_proposal(1).unwrap().is_active);
    assert_eq!(store.get_proposal(1).unwrap().voted.len(), 0);
}

#[test]
fn vote_counts_each_choice_once_per_caller() {
    let mut store = ProposalStore::new();
    store.create_proposal(1, req("tally me", true), caller(1));
    assert_eq!(store.vote(1, Choice::Approve, caller(2)), Ok(()));
    assert_eq!(store.vote(1, Choice::Reject, caller(3)), Ok(()));
    assert_eq!(store.vote(1, Choice::Pass, caller(4)), Ok(()));
    assert_eq!(store.vote(1, Choice::Approve, caller(5)), Ok(()));
    let p = store.get_proposal(1).unwrap();
    assert_eq!(p.approve, 2);
    assert_eq!(p.reject, 1);
    assert_eq!(p.pass, 1);
    assert_eq!(p.voted.len(), 4);
}

#[test]
fn repeat_vote_is_already_voted_and_changes_nothing() {
    let mut store = ProposalStore::new();
    store.create_proposal(1, req("one each", true), caller(1));
    assert_eq!(store.vote(1, Choice::Approve, caller(2)), Ok(()));
    assert_eq!(store.vote(1, Choice::Pass, caller(2)), Err(VoteError::AlreadyVoted));
    let p = store.get_proposal(1).unwrap();
    assert_eq!(p.approve, 1);
    assert_eq!(p.reject, 0);
    assert_eq!(p.pass, 0);
    assert_eq!(p.voted.len(), 1);
    assert!(p.voted[0].same_as(&caller(2)));
}

#[test]
fn vote_on_inactive_record_is_rejected() {
    let mut store = ProposalStore::new();
    store.create_proposal(1, req("dormant", false), caller(1));
    assert_eq!(
        store.vote(1, Choice::Approve, caller(2)),
        Err(VoteError::ProposalIsNotActive)
    );
    let p = store.get_proposal(1).unwrap();
    assert_eq!(p.approve, 0);
    assert_eq!(p.voted.len(), 0);
}

fn assert_tallies_match_voters(store: &ProposalStore, keys: &[u64]) {
    for &k in keys {
        if let Some(p) = store.get_proposal(k) {
            let sum = p.approve as usize + p.reject as usize + p.pass as usize;
            assert_eq!(sum, p.voted.len());
        }
    }
}

#[test]
fn tallies_account_for_voters_across_operation_sequence() {
    let keys: [u64; 3] = [1, 2, 9];
    let mut store = ProposalStore::new();
    assert_tallies_match_voters(&store, &keys);
    store.create_proposal(1, req("alpha", true), caller(1));
    assert_tallies_match_voters(&store, &keys);
    store.create_proposal(2, req("beta", true), caller(2));
    assert_tallies_match_voters(&store, &keys);
    let _ = store.vote(1, Choice::Approve, caller(3));
    assert_tallies_match_voters(&store, &keys);
    let _ = store.vote(1, Choice::Approve, caller(3));
    assert_tallies_match_voters(&store, &keys);
    let _ = store.vote(2, Choice::Pass, caller(3));
    assert_tallies_match_voters(&store, &keys);
    let _ = store.edit_proposal(1, req("alpha prime", true), &caller(1));
    assert_tallies_match_voters(&store, &keys);
    let _ = store.edit_proposal(2, req("stolen", true), &caller(9));
    assert_tallies_match_voters(&store, &keys);
    let _ = store.vote(1, Choice::Reject, caller(4));
    assert_tallies_match_voters(&store, &keys);
    let _ = store.end_proposal(1, &caller(1));
    assert_tallies_match_voters(&store, &keys);
    let _ = store.vote(1, Choice::Pass, caller(5));
    assert_tallies_match_voters(&store, &keys);
    store.create_proposal(1, req("alpha reborn", true), caller(6));
    assert_tallies_match_voters(&store, &keys);
    let _ = store.vote(9, Choice::Approve, caller(7));
    assert_tallies_match_voters(&store, &keys);
}

#[test]
fn full_lifecycle_scenario() {
    let mut store = ProposalStore::new();
    let a = caller(10);
    let b = caller(20);
    store.create_proposal(1, req("Fund X", true), caller(10));
    assert_eq!(store.edit_proposal(1, req("Fund X v2", true), &a), Ok(()));
    assert_eq!(store.get_proposal(1).unwrap().description, "Fund X v2");
    assert_eq!(store.vote(1, Choice::Approve, caller(20)), Ok(()));
    let p = store.get_proposal(1).unwrap();
    assert_eq!(p.approve, 1);
    assert_eq!(p.voted.len(), 1);
    assert!(p.voted[0].same_as(&b));
    assert_eq!(store.vote(1, Choice::Reject, caller(20)), Err(VoteError::AlreadyVoted));
    assert_eq!(store.end_proposal(1, &a), Ok(()));
    assert!(!store.get_proposal(1).unwrap().is_active);
    assert_eq!(
        store.vote(1, Choice::Reject, caller(20)),
        Err(VoteError::ProposalIsNotActive)
    );
}

#[test]
fn distinct_keys_hold_distinct_records() {
    let mut store = ProposalStore::new();
    store.create_proposal(3, req("three", true), caller(1));
    store.create_proposal(4, req("four", false), caller(2));
    store.create_proposal(11, req("eleven", true), caller(3));
    assert_eq!(store.get_proposal_count(), 3);
    assert_eq!(store.get_proposal(3).unwrap().description, "three");
    assert_eq!(store.get_proposal(4).unwrap().description, "four");
    assert_eq!(store.get_proposal(11).unwrap().description, "eleven");
    assert!(store.get_proposal(4).unwrap().owner.same_as(&caller(2)));
    assert!(store.get_proposal(5).is_none());
}
