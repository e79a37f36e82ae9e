//! The decisions of the consensus service: which part of the application answers each request
//! of the consensus engine, and how.
use vstd::prelude::*;

use crate::error::Error;

verus! {

/// The requests of the consensus engine.
#[derive(Debug, Clone, Copy, PartialEq, Eq, Structural)]
pub enum ConsensusRequestKind {
    InitChain,
    PrepareProposal,
    ProcessProposal,
    ExtendVote,
    VerifyVoteExtension,
    FinalizeBlock,
    Commit,
}

/// How the service answers a request.
#[derive(Debug, Clone, Copy, PartialEq, Eq, Structural)]
pub enum ConsensusStep {
    /// Initialize the chain, then commit.
    InitChain,
    /// Let the application prepare the proposal.
    PrepareProposal,
    /// Let the application process the proposal; accept it if that succeeds.
    ProcessProposal,
    /// Answer with an empty vote extension.
    EmptyVoteExtension,
    /// Accept the vote extension.
    AcceptVoteExtension,
    /// Let the application finalize the block.
    FinalizeBlock,
    /// Commit the application state.
    Commit,
}

/// The answer to a proposal.
#[derive(Debug, Clone, Copy, PartialEq, Eq, Structural)]
pub enum ProcessProposalResponse {
    Accept,
    Reject,
}

/// The storage version of a database that was never written to.
pub const UNINITIALIZED_VERSION: u64 = 0xffff_ffff_ffff_ffff;

/// How the service answers a request of the given kind.
pub fn handle_request(kind: ConsensusRequestKind) -> (r: ConsensusStep)
    ensures
        r == (match kind {
            ConsensusRequestKind::InitChain => ConsensusStep::InitChain,
            ConsensusRequestKind::PrepareProposal => ConsensusStep::PrepareProposal,
            ConsensusRequestKind::ProcessProposal => ConsensusStep::ProcessProposal,
            ConsensusRequestKind::ExtendVote => ConsensusStep::EmptyVoteExtension,
            ConsensusRequestKind::VerifyVoteExtension => ConsensusStep::AcceptVoteExtension,
            ConsensusRequestKind::FinalizeBlock => ConsensusStep::FinalizeBlock,
            ConsensusRequestKind::Commit => ConsensusStep::Commit,
        }),
{
    match kind {
        ConsensusRequestKind::InitChain => ConsensusStep::InitChain,
        ConsensusRequestKind::PrepareProposal => ConsensusStep::PrepareProposal,
        ConsensusRequestKind::ProcessProposal => ConsensusStep::ProcessProposal,
        ConsensusRequestKind::ExtendVote => ConsensusStep::EmptyVoteExtension,
        ConsensusRequestKind::VerifyVoteExtension => ConsensusStep::AcceptVoteExtension,
        ConsensusRequestKind::FinalizeBlock => ConsensusStep::FinalizeBlock,
        ConsensusRequestKind::Commit => ConsensusStep::Commit,
    }
}

/// The answer to a proposal, given whether the application processed it without error.
pub fn handle_process_proposal(processed: bool) -> (r: ProcessProposalResponse)
    ensures
        r == (if processed {
            ProcessProposalResponse::Accept
        } else {
            ProcessProposalResponse::Reject
        }),
{
    if processed {
        ProcessProposalResponse::Accept
    } else {
        ProcessProposalResponse::Reject
    }
}

/// The chain can be initialized only on a database that was never written to.
pub fn check_init_chain(latest_version: u64) -> (r: Result<(), Error>)
    ensures
        r == (if latest_version == UNINITIALIZED_VERSION {
            Ok::<(), Error>(())
        } else {
            Err(Error::DatabaseAlreadyInitialized)
        }),
{
    if latest_version != UNINITIALIZED_VERSION {
        Err(Error::DatabaseAlreadyInitialized)
    } else {
        Ok(())
    }
}

} // verus!
