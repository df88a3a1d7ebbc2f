use vstd::prelude::*;
use crate::error::ErrorCode;
use crate::participant::Principal;

verus! {

/// A governance proposal with its tally.
#[derive(Debug)]
pub struct GovernanceProposal {
    pub proposal_id: u64,
    pub description: String,
    pub votes_for: u64,
    pub votes_against: u64,
    pub executed: bool,
    pub created_at: i64,
    /// Everyone who has voted, in order.
    pub voters: Vec<Principal>,
}

/// Creates a proposal with no votes.
pub fn create_proposal(proposal_id: u64, description: String, now: i64) -> (p: GovernanceProposal)
    ensures
        p.proposal_id == proposal_id,
        p.description@ == description@,
        p.votes_for == 0,
        p.votes_against == 0,
        !p.executed,
        p.created_at == now,
        p.voters@ == Seq::<Principal>::empty(),
{
    GovernanceProposal {
        proposal_id,
        description,
        votes_for: 0,
        votes_against: 0,
        executed: false,
        created_at: now,
        voters: Vec::new(),
    }
}

/// Whether `voter` is among `voters`.
fn has_voted(voters: &Vec<Principal>, voter: Principal) -> (r: bool)
    ensures
        r == voters@.contains(voter),
{
    let mut i: usize = 0;
    while i < voters.len()
        invariant
            i <= voters@.len(),
            forall|j: int| 0 <= j < i ==> voters@[j] != voter,
        decreases voters@.len() - i,
    {
        if voters[i] == voter {
            return true;
        }
        i += 1;
    }
    false
}

/// Records one vote of `voter`; nobody votes twice on a proposal.
pub fn vote_proposal(proposal: &mut GovernanceProposal, voter: Principal, vote_for: bool) -> (r:
    Result<(), ErrorCode>)
    ensures
        old(proposal).voters@.contains(voter) ==> r == Err::<(), ErrorCode>(
            ErrorCode::AlreadyVoted,
        ),
        !old(proposal).voters@.contains(voter) && (if vote_for {
            old(proposal).votes_for == u64::MAX
        } else {
            old(proposal).votes_against == u64::MAX
        }) ==> r == Err::<(), ErrorCode>(ErrorCode::Overflow),
        r is Ok <==> !old(proposal).voters@.contains(voter) && (if vote_for {
            old(proposal).votes_for < u64::MAX
        } else {
            old(proposal).votes_against < u64::MAX
        }),
        r is Err ==> final(proposal).voters@ == old(proposal).voters@ && final(proposal).votes_for
            == old(proposal).votes_for && final(proposal).votes_against == old(
            proposal,
        ).votes_against,
        r is Ok ==> {
            &&& final(proposal).voters@ == old(proposal).voters@.push(voter)
            &&& final(proposal).votes_for == old(proposal).votes_for + (if vote_for {
                1int
            } else {
                0
            })
            &&& final(proposal).votes_against == old(proposal).votes_against + (if vote_for {
                0int
            } else {
                1
            })
        },
        final(proposal).proposal_id == old(proposal).proposal_id,
        final(proposal).description == old(proposal).description,
        final(proposal).executed == old(proposal).executed,
        final(proposal).created_at == old(proposal).created_at,
{
    if has_voted(&proposal.voters, voter) {
        return Err(ErrorCode::AlreadyVoted);
    }
    if vote_for {
        match proposal.votes_for.checked_add(1) {
            Some(v) => proposal.votes_for = v,
            None => return Err(ErrorCode::Overflow),
        }
    } else {
        match proposal.votes_against.checked_add(1) {
            Some(v) => proposal.votes_against = v,
            None => return Err(ErrorCode::Overflow),
        }
    }
    proposal.voters.push(voter);
    Ok(())
}

/// Executes a proposal, once.
pub fn execute_proposal(proposal: &mut GovernanceProposal) -> (r: Result<(), ErrorCode>)
    ensures
        old(proposal).executed ==> r == Err::<(), ErrorCode>(ErrorCode::AlreadyExecuted),
        !old(proposal).executed ==> r is Ok,
        final(proposal).executed,
        final(proposal).proposal_id == old(proposal).proposal_id,
        final(proposal).description == old(proposal).description,
        final(proposal).votes_for == old(proposal).votes_for,
        final(proposal).votes_against == old(proposal).votes_against,
        final(proposal).created_at == old(proposal).created_at,
        final(proposal).voters@ == old(proposal).voters@,
{
    if proposal.executed {
        return Err(ErrorCode::AlreadyExecuted);
    }
    proposal.executed = true;
    Ok(())
}

} // verus!
