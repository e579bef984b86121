use proposal_store::{CallerId, Choice, CreateProposal, ProposalStore, VoteError, MAX_ID_BYTES};

fn caller(n: u8) -> CallerId {
    CallerId::new(vec![n]).unwrap()
}

fn req(description: &str, is_active: bool) -> CreateProposal {
    CreateProposal { description: description.to_string(), is_active }
}

#[test]
fn caller_id_accepts_up_to_the_byte_limit() {
    assert!(CallerId::new(vec![0u8; MAX_ID_BYTES]).is_some());
    assert!(CallerId::new(vec![0u8; MAX_ID_BYTES + 1]).is_none());
    assert!(CallerId::new(Vec::new()).is_some());
}

#[test]
fn caller_id_equality_is_by_bytes() {
    let a = CallerId::new(vec![1, 2, 3]).unwrap();
    let b = CallerId::new(vec![1, 2, 3]).unwrap();
    let c = CallerId::new(vec![1, 2, 4]).unwrap();
    let d = CallerId::new(vec![1, 2]).unwrap();
    assert!(a.same_as(&b));
    assert!(!a.same_as(&c));
    assert!(!a.same_as(&d));
}

#[test]
fn create_rejects_oversized_description() {
    let mut store = ProposalStore::new();
    // The largest description that still fits a fresh record is 4954
    // bytes: the cap of 5000 less the base cost 16 and the owner cost
    // 30.
    let fits = "d".repeat(4954);
    let too_long = "d".repeat(4955);
    assert!(store.create_proposal(1, CreateProposal { description: fits, is_active: true }, caller(1)).is_some());
    assert!(store.create_proposal(2, CreateProposal { description: too_long, is_active: true }, caller(1)).is_none());
    assert_eq!(store.get_proposal_count(), 1);
    assert!(store.get_proposal(2).is_none());
}

#[test]
fn size_cap_counts_utf8_bytes_not_characters() {
    let mut store = ProposalStore::new();
    // U+00E9 takes two bytes in UTF-8, so 2477 of them (4954 bytes)
    // fit a fresh record and 2478 (4956 bytes) do not, though both
    // counts are far below 4954 characters.
    let fits = "\u{e9}".repeat(2477);
    let too_long = "\u{e9}".repeat(2478);
    assert!(store
        .create_proposal(1, CreateProposal { description: fits, is_active: true }, caller(1))
        .is_some());
    assert!(store
        .create_proposal(2, CreateProposal { description: too_long, is_active: true }, caller(1))
        .is_none());
    assert_eq!(store.get_proposal_count(), 1);
}

#[test]
fn edit_rejects_a_description_that_no_longer_fits() {
    let mut store = ProposalStore::new();
    store.create_proposal(1, req("short", true), caller(1));
    // One recorded voter raises the record's fixed cost by 30, so the
    // description may now be at most 4924 bytes.
    assert_eq!(store.vote(1, Choice::Approve, caller(2)), Ok(()));
    let a = caller(1);
    let fits = "d".repeat(4924);
    let too_long = "d".repeat(4925);
    assert_eq!(
        store.edit_proposal(1, CreateProposal { description: too_long, is_active: true }, &a),
        Err(VoteError::UpdateError)
    );
    let p = store.get_proposal(1).unwrap();
    assert_eq!(p.description, "short");
    assert_eq!(p.approve, 1);
    assert_eq!(
        store.edit_proposal(1, CreateProposal { description: fits, is_active: true }, &a),
        Ok(())
    );
    assert_eq!(store.get_proposal(1).unwrap().description.len(), 4924);
}

#[test]
fn vote_rejects_when_the_record_is_full() {
    let mut store = ProposalStore::new();
    // A record created with the largest description that fits has no
    // room left to record a voter.
    let full = "d".repeat(4954);
    store.create_proposal(1, CreateProposal { description: full, is_active: true }, caller(1));
    assert_eq!(store.vote(1, Choice::Approve, caller(2)), Err(VoteError::UpdateError));
    let p = store.get_proposal(1).unwrap();
    assert_eq!(p.approve, 0);
    assert_eq!(p.voted.len(), 0);
    assert!(p.is_active);
}

#[test]
fn many_voters_fit_on_a_short_record() {
    let mut store = ProposalStore::new();
    store.create_proposal(1, req("popular", true), caller(1));
    for n in 0..100u8 {
        assert_eq!(store.vote(1, Choice::Pass, CallerId::new(vec![7, n]).unwrap()), Ok(()));
    }
    let p = store.get_proposal(1).unwrap();
    assert_eq!(p.pass, 100);
    assert_eq!(p.voted.len(), 100);
}
