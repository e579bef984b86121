use vstd::prelude::*;
use crate::ident::{CallerId, MAX_ID_BYTES};

verus! {

/// The vote a caller casts on a proposal.
#[derive(Clone, Copy, PartialEq, Eq, Debug)]
pub enum Choice {
    Approve,
    Reject,
    Pass,
}

/// Why a store operation was refused.
///
/// `InvalidChoice` is reserved for a transport layer that decodes a vote
/// choice from the wire; with `Choice` a closed enumeration, no verified
/// operation produces it.  `UpdateError` reports a persistence failure:
/// the updated record would exceed the size cap.
#[derive(Clone, Copy, PartialEq, Eq, Debug)]
pub enum VoteError {
    AlreadyVoted,
    ProposalIsNotActive,
    InvalidChoice,
    NoSuchProposal,
    AccessRejected,
    UpdateError,
}

/// A governance proposal record.
pub struct Proposal {
    pub description: String,
    pub approve: u32,
    pub reject: u32,
    pub pass: u32,
    pub is_active: bool,
    pub voted: Vec<CallerId>,
    pub owner: CallerId,
}

/// The transient input that sets a record's operator-chosen fields.
pub struct CreateProposal {
    pub description: String,
    pub is_active: bool,
}

/// The mathematical value of a stored record.
#[verifier::ext_equal]
pub ghost struct ProposalModel {
    pub description: Seq<char>,
    pub approve: nat,
    pub reject: nat,
    pub pass: nat,
    pub is_active: bool,
    pub voted: Seq<Seq<u8>>,
    pub owner: Seq<u8>,
}

/// The mathematical value of a create or edit request.
#[verifier::ext_equal]
pub ghost struct RequestModel {
    pub description: Seq<char>,
    pub is_active: bool,
}

/// The identities behind a sequence of tokens.
pub open spec fn id_views(s: Seq<CallerId>) -> Seq<Seq<u8>> {
    s.map_values(|c: CallerId| c@)
}

impl View for Proposal {
    type V = ProposalModel;

    open spec fn view(&self) -> ProposalModel {
        ProposalModel {
            description: self.description@,
            approve: self.approve as nat,
            reject: self.reject as nat,
            pass: self.pass as nat,
            is_active: self.is_active,
            voted: id_views(self.voted@),
            owner: self.owner@,
        }
    }
}

impl View for CreateProposal {
    type V = RequestModel;

    open spec fn view(&self) -> RequestModel {
        RequestModel { description: self.description@, is_active: self.is_active }
    }
}

/// The size cap on a stored record, standing for the storage layer's
/// 5000-byte limit on a serialized record.
pub const MAX_RECORD_SIZE: usize = 5000;

/// The fixed cost, in bytes, a record pays beyond its description and
/// identities.
pub const RECORD_BASE_COST: usize = 16;

/// The cost, in bytes, each stored identity (the owner and each
/// recorded voter) adds to a record: the identity's bytes plus framing.
pub const ID_COST: usize = 30;

/// The bytes a description occupies: the length of its UTF-8 encoding.
pub open spec fn description_bytes(s: Seq<char>) -> nat {
    vstd::utf8::encode_utf8(s).len()
}

/// The size of a record in bytes: its description's UTF-8 length plus a
/// fixed cost for the owner and for each recorded voter.
pub open spec fn record_size(p: ProposalModel) -> nat {
    (RECORD_BASE_COST + description_bytes(p.description) + ID_COST * (p.voted.len() + 1)) as nat
}

/// What holds of every stored record: the three tallies account exactly
/// for the recorded voters, no identity is recorded twice, every stored
/// identity is well formed, and the record fits the size cap.
pub open spec fn record_wf(p: ProposalModel) -> bool {
    &&& p.approve + p.reject + p.pass == p.voted.len()
    &&& forall|i: int, j: int| 0 <= i < j < p.voted.len() ==> p.voted[i] != p.voted[j]
    &&& forall|i: int| 0 <= i < p.voted.len() ==> #[trigger] p.voted[i].len() <= MAX_ID_BYTES
    &&& p.owner.len() <= MAX_ID_BYTES
    &&& record_size(p) <= MAX_RECORD_SIZE
}

/// The record `create` builds: the request's fields, zero tallies, no
/// recorded voters, and the invoking identity as owner.
pub open spec fn fresh_record(req: RequestModel, caller: Seq<u8>) -> ProposalModel {
    ProposalModel {
        description: req.description,
        approve: 0,
        reject: 0,
        pass: 0,
        is_active: req.is_active,
        voted: Seq::empty(),
        owner: caller,
    }
}

/// Whether a record built from the request fits the size cap.
pub open spec fn create_fits(req: RequestModel) -> bool {
    RECORD_BASE_COST + description_bytes(req.description) + ID_COST <= MAX_RECORD_SIZE
}

/// The record after an edit: the request's fields replace description
/// and activity; tallies, voters and owner stay.
pub open spec fn edited_record(p: ProposalModel, req: RequestModel) -> ProposalModel {
    ProposalModel { description: req.description, is_active: req.is_active, ..p }
}

/// Whether the record would still fit the size cap after the edit.
pub open spec fn edit_fits(p: ProposalModel, req: RequestModel) -> bool {
    record_size(edited_record(p, req)) <= MAX_RECORD_SIZE
}

/// The record after a close: inactive, everything else unchanged.
pub open spec fn closed_record(p: ProposalModel) -> ProposalModel {
    ProposalModel { is_active: false, ..p }
}

/// Whether the record has room to record one more voter.
pub open spec fn vote_fits(p: ProposalModel) -> bool {
    record_size(p) + ID_COST <= MAX_RECORD_SIZE
}

/// The record after a vote: the caller is recorded and the tally
/// matching the choice grows by one.
pub open spec fn voted_record(p: ProposalModel, choice: Choice, caller: Seq<u8>) -> ProposalModel {
    match choice {
        Choice::Approve => ProposalModel { approve: p.approve + 1, voted: p.voted.push(caller), ..p },
        Choice::Reject => ProposalModel { reject: p.reject + 1, voted: p.voted.push(caller), ..p },
        Choice::Pass => ProposalModel { pass: p.pass + 1, voted: p.voted.push(caller), ..p },
    }
}

pub proof fn lemma_fresh_record_wf(req: RequestModel, caller: Seq<u8>)
    requires
        create_fits(req),
        caller.len() <= MAX_ID_BYTES,
    ensures
        record_wf(fresh_record(req, caller)),
        record_size(fresh_record(req, caller)) == RECORD_BASE_COST + description_bytes(
            req.description,
        ) + ID_COST,
{
}

pub proof fn lemma_edited_record_wf(p: ProposalModel, req: RequestModel)
    requires
        record_wf(p),
        edit_fits(p, req),
    ensures
        record_wf(edited_record(p, req)),
{
}

pub proof fn lemma_closed_record_wf(p: ProposalModel)
    requires
        record_wf(p),
    ensures
        record_wf(closed_record(p)),
        record_size(closed_record(p)) == record_size(p),
{
}

pub proof fn lemma_voted_record_wf(p: ProposalModel, choice: Choice, caller: Seq<u8>)
    requires
        record_wf(p),
        !p.voted.contains(caller),
        vote_fits(p),
        caller.len() <= MAX_ID_BYTES,
    ensures
        record_wf(voted_record(p, choice, caller)),
{
    let q = voted_record(p, choice, caller);
    assert(q.voted == p.voted.push(caller));
    assert forall|i: int, j: int| 0 <= i < j < q.voted.len() implies q.voted[i] != q.voted[j] by {
        if j < p.voted.len() {
            assert(p.voted[i] != p.voted[j]);
        } else {
            assert(q.voted[j] == caller);
            assert(p.voted[i] == q.voted[i]);
            assert(!p.voted.contains(caller));
        }
    }
    assert forall|i: int| 0 <= i < q.voted.len() implies #[trigger] q.voted[i].len() <= MAX_ID_BYTES by {
        if i < p.voted.len() {
            assert(p.voted[i].len() <= MAX_ID_BYTES);
        }
    }
}

/// The length in bytes of a description's UTF-8 encoding.
pub(crate) fn description_len(s: &String) -> (n: usize)
    ensures
        n == description_bytes(s@),
{
    s.as_str().as_bytes().len()
}

/// A copy of a token sequence that names the same identities.
pub(crate) fn dup_ids(v: &Vec<CallerId>) -> (r: Vec<CallerId>)
    ensures
        id_views(r@) == id_views(v@),
{
    let n = v.len();
    let mut out: Vec<CallerId> = Vec::new();
    let mut i: usize = 0;
    while i < n
        invariant
            n == v@.len(),
            0 <= i <= n,
            out@.len() == i,
            forall|j: int| 0 <= j < i ==> #[trigger] out@[j]@ == v@[j]@,
        decreases n - i,
    {
        out.push(v[i].duplicate());
        i += 1;
    }
    proof {
        assert(id_views(out@) =~= id_views(v@));
    }
    out
}

/// Whether the target identity stands among the tokens.
pub(crate) fn contains_id(v: &Vec<CallerId>, target: &CallerId) -> (r: bool)
    ensures
        r == id_views(v@).contains(target@),
{
    let n = v.len();
    let mut i: usize = 0;
    while i < n
        invariant
            n == v@.len(),
            0 <= i <= n,
            forall|j: int| 0 <= j < i ==> #[trigger] v@[j]@ != target@,
        decreases n - i,
    {
        if v[i].same_as(target) {
            proof {
                assert(id_views(v@)[i as int] == target@);
            }
            return true;
        }
        i += 1;
    }
    proof {
        assert forall|j: int| 0 <= j < id_views(v@).len() implies id_views(v@)[j] != target@ by {
            assert(v@[j]@ != target@);
        }
    }
    false
}

impl Proposal {
    /// A copy of the record with the same mathematical value.
    pub fn duplicate(&self) -> (r: Proposal)
        ensures
            r@ == self@,
    {
        let r = Proposal {
            description: self.description.clone(),
            approve: self.approve,
            reject: self.reject,
            pass: self.pass,
            is_active: self.is_active,
            voted: dup_ids(&self.voted),
            owner: self.owner.duplicate(),
        };
        proof {
            assert(r@ =~= self@);
        }
        r
    }
}

/// Every tally in a well-formed record stays below `u32::MAX`: the size
/// cap bounds the number of recorded voters, which bounds each tally.
pub proof fn lemma_wf_tallies_bounded(p: ProposalModel)
    requires
        record_wf(p),
    ensures
        p.voted.len() < 166,
        p.approve < u32::MAX,
        p.reject < u32::MAX,
        p.pass < u32::MAX,
{
}

} // verus!
