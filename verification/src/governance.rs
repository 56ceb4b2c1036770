//! Protocol parameters, proposals and quorum voting.

use crate::error::ErrorCode;
use vstd::prelude::*;

verus! {

/// The number of votes, for and against together, at which a proposal is
/// resolved.
pub const QUORUM_THRESHOLD: u32 = 10;

/// Protocol-wide configuration, set once when the protocol is initialized.
#[derive(Clone, Copy, Debug, PartialEq, Eq, Structural)]
pub struct Governance {
    /// The protocol's collateral ratio.
    pub collateral_ratio: u64,
}

/// Where a proposal stands. It leaves `Pending` once and never comes back.
#[derive(Clone, Copy, Debug, PartialEq, Eq, Structural)]
pub enum ProposalStatus {
    Pending,
    Approved,
    Rejected,
}

/// The identity under which a vote is cast: 32 bytes, compared byte for byte.
#[derive(Clone, Copy, Debug, PartialEq, Eq, Hash)]
pub struct VoterId {
    pub key: [u8; 32],
}

/// A governance proposal with its tally and the voters who have been counted.
#[derive(Clone, Debug, PartialEq, Eq)]
pub struct Proposal {
    pub description: String,
    pub approval_votes: u32,
    pub reject_votes: u32,
    pub status: ProposalStatus,
    /// Who has voted, in the order the votes were counted.
    pub voters: Vec<VoterId>,
}

/// A proposal as a mathematical value.
pub struct ProposalView {
    pub description: Seq<char>,
    pub approval_votes: u32,
    pub reject_votes: u32,
    pub status: ProposalStatus,
    pub voters: Seq<VoterId>,
}

impl View for Proposal {
    type V = ProposalView;

    open spec fn view(&self) -> ProposalView {
        ProposalView {
            description: self.description@,
            approval_votes: self.approval_votes,
            reject_votes: self.reject_votes,
            status: self.status,
            voters: self.voters@,
        }
    }
}

/// The status that a tally calls for: `Pending` below the quorum; at or above
/// it `Approved` where the approvals strictly outnumber the rejections, and
/// `Rejected` where they do not.
pub open spec fn resolution(approval_votes: u32, reject_votes: u32) -> ProposalStatus {
    if approval_votes + reject_votes < QUORUM_THRESHOLD {
        ProposalStatus::Pending
    } else if approval_votes > reject_votes {
        ProposalStatus::Approved
    } else {
        ProposalStatus::Rejected
    }
}

impl ProposalView {
    /// A proposal as it is created: pending, with no votes and no voters.
    pub open spec fn fresh(description: Seq<char>) -> ProposalView {
        ProposalView {
            description,
            approval_votes: 0,
            reject_votes: 0,
            status: ProposalStatus::Pending,
            voters: Seq::empty(),
        }
    }

    /// Whether `voter` has already been counted on this proposal.
    pub open spec fn has_voted(self, voter: VoterId) -> bool {
        self.voters.contains(voter)
    }

    /// What holds of every proposal that was created and then only voted on:
    /// each counted vote belongs to one voter, nobody was counted twice, and the
    /// status is the one that the tally calls for. Such a proposal never holds
    /// more votes than the quorum.
    pub open spec fn wf(self) -> bool {
        &&& self.voters.len() == self.approval_votes + self.reject_votes
        &&& self.voters.no_duplicates()
        &&& self.approval_votes + self.reject_votes <= QUORUM_THRESHOLD
        &&& self.status == resolution(self.approval_votes, self.reject_votes)
    }

    /// The proposal with one more vote counted, whatever its status.
    pub open spec fn counted(self, approve: bool, voter: VoterId) -> ProposalView {
        let approval_votes = if approve {
            (self.approval_votes + 1) as u32
        } else {
            self.approval_votes
        };
        let reject_votes = if approve {
            self.reject_votes
        } else {
            (self.reject_votes + 1) as u32
        };
        ProposalView {
            approval_votes,
            reject_votes,
            status: resolution(approval_votes, reject_votes),
            voters: self.voters.push(voter),
            ..self
        }
    }

    /// The proposal after `voter` has voted, or the reason for refusing.
    pub open spec fn vote_result(self, approve: bool, voter: VoterId) -> Result<
        ProposalView,
        ErrorCode,
    > {
        if self.status != ProposalStatus::Pending {
            Err(ErrorCode::ProposalClosed)
        } else if self.has_voted(voter) {
            Err(ErrorCode::DuplicateVote)
        } else if (if approve {
            self.approval_votes
        } else {
            self.reject_votes
        }) == u32::MAX {
            Err(ErrorCode::Overflow)
        } else {
            Ok(self.counted(approve, voter))
        }
    }
}

/// Sets up the protocol parameters with the given collateral ratio.
pub fn initialize(collateral_ratio: u64) -> (governance: Governance)
    ensures
        governance.collateral_ratio == collateral_ratio,
{
    Governance { collateral_ratio }
}

/// Opens a proposal: pending, with no votes and no voters.
pub fn create_proposal(description: String) -> (proposal: Proposal)
    ensures
        proposal@ == ProposalView::fresh(description@),
        proposal@.wf(),
{
    Proposal {
        description,
        approval_votes: 0,
        reject_votes: 0,
        status: ProposalStatus::Pending,
        voters: Vec::new(),
    }
}

/// Whether two voter identities are the same.
pub fn same_voter(a: &VoterId, b: &VoterId) -> (same: bool)
    ensures
        same == (*a == *b),
{
    let mut i: usize = 0;
    while i < 32
        invariant
            i <= 32,
            forall|j: int| 0 <= j < i ==> a.key@[j] == b.key@[j],
        decreases 32 - i,
    {
        if a.key[i] != b.key[i] {
            return false;
        }
        i = i + 1;
    }
    assert(a.key =~= b.key);
    true
}

/// Whether `voter` has already been counted on `proposal`.
pub fn has_voted(proposal: &Proposal, voter: &VoterId) -> (voted: bool)
    ensures
        voted == proposal@.has_voted(*voter),
{
    let mut i: usize = 0;
    while i < proposal.voters.len()
        invariant
            i <= proposal.voters.len(),
            forall|j: int| 0 <= j < i ==> proposal.voters@[j] != *voter,
        decreases proposal.voters.len() - i,
    {
        if same_voter(&proposal.voters[i], voter) {
            return true;
        }
        i = i + 1;
    }
    false
}

/// Counts `voter`'s vote on `proposal` and resolves the proposal once the
/// quorum is reached.
///
/// Refused with `ProposalClosed` exactly when the proposal is no longer
/// pending; otherwise with `DuplicateVote` exactly when `voter` has already
/// been counted; otherwise with `Overflow` exactly when the counter to be raised
/// is at its maximum, which no proposal reaches that was created and only voted
/// on. On success the vote is counted, the voter recorded, and the status is
/// the one that the new tally calls for.
pub fn vote_on_proposal(proposal: &mut Proposal, approve: bool, voter: VoterId) -> (res: Result<
    (),
    ErrorCode,
>)
    ensures
        old(proposal)@.vote_result(approve, voter) matches Ok(after)
            ==> res is Ok && final(proposal)@ == after,
        old(proposal)@.vote_result(approve, voter) matches Err(e)
            ==> res == Err::<(), ErrorCode>(e)
                && final(proposal)@ == old(proposal)@,
        res is Ok
            ==> final(proposal).status
                == resolution(final(proposal).approval_votes, final(proposal).reject_votes),
        old(proposal).status != ProposalStatus::Pending
            ==> final(proposal).status == old(proposal).status,
        old(proposal)@.wf() ==> final(proposal)@.wf(),
{
    if proposal.status != ProposalStatus::Pending {
        return Err(ErrorCode::ProposalClosed);
    }
    if has_voted(proposal, &voter) {
        return Err(ErrorCode::DuplicateVote);
    }
    let mut approval_votes: u32 = proposal.approval_votes;
    let mut reject_votes: u32 = proposal.reject_votes;
    if approve {
        approval_votes = match approval_votes.checked_add(1) {
            Some(sum) => sum,
            None => {
                return Err(ErrorCode::Overflow);
            },
        };
    } else {
        reject_votes = match reject_votes.checked_add(1) {
            Some(sum) => sum,
            None => {
                return Err(ErrorCode::Overflow);
            },
        };
    }
    let total_votes: u64 = approval_votes as u64 + reject_votes as u64;
    let status: ProposalStatus = if total_votes < QUORUM_THRESHOLD as u64 {
        ProposalStatus::Pending
    } else if approval_votes > reject_votes {
        ProposalStatus::Approved
    } else {
        ProposalStatus::Rejected
    };
    proof {
        if proposal@.wf() {
            lemma_vote_on_well_formed(proposal@, approve, voter);
        }
    }
    proposal.approval_votes = approval_votes;
    proposal.reject_votes = reject_votes;
    proposal.status = status;
    proposal.voters.push(voter);
    Ok(())
}

/// On a well-formed proposal no counter is ever full, so a vote is refused
/// only because the proposal is closed or the voter was counted before; and a
/// vote that is counted leaves the proposal well-formed.
pub proof fn lemma_vote_on_well_formed(proposal: ProposalView, approve: bool, voter: VoterId)
    requires
        proposal.wf(),
    ensures
        proposal.vote_result(approve, voter)
            != Err::<ProposalView, ErrorCode>(ErrorCode::Overflow),
        proposal.vote_result(approve, voter) matches Ok(after) ==> after.wf(),
{
    if proposal.vote_result(approve, voter) is Ok {
        let after = proposal.counted(approve, voter);
        assert forall|i: int, j: int|
            0 <= i < after.voters.len() && 0 <= j < after.voters.len() && i != j implies after.voters[i]
            != after.voters[j] by {
            if i < proposal.voters.len() && j < proposal.voters.len() {
            } else if i < proposal.voters.len() {
                assert(proposal.voters.contains(proposal.voters[i]));
            } else {
                assert(proposal.voters.contains(proposal.voters[j]));
            }
        }
    }
}

} // verus!
