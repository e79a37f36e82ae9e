use astria_sequencer::consensus::{
    check_init_chain, handle_process_proposal, handle_request, ConsensusRequestKind,
    ConsensusStep, ProcessProposalResponse, UNINITIALIZED_VERSION,
};
use astria_sequencer::error::Error;

#[test]
fn each_request_has_its_step() {
    assert_eq!(handle_request(ConsensusRequestKind::InitChain), ConsensusStep::InitChain);
    assert_eq!(handle_request(ConsensusRequestKind::PrepareProposal), ConsensusStep::PrepareProposal);
    assert_eq!(handle_request(ConsensusRequestKind::ProcessProposal), ConsensusStep::ProcessProposal);
    assert_eq!(handle_request(ConsensusRequestKind::ExtendVote), ConsensusStep::EmptyVoteExtension);
    assert_eq!(
        handle_request(ConsensusRequestKind::VerifyVoteExtension),
        ConsensusStep::AcceptVoteExtension
    );
    assert_eq!(handle_request(ConsensusRequestKind::FinalizeBlock), ConsensusStep::FinalizeBlock);
    assert_eq!(handle_request(ConsensusRequestKind::Commit), ConsensusStep::Commit);
}

#[test]
fn proposal_accepted_only_when_processed() {
    assert_eq!(handle_process_proposal(true), ProcessProposalResponse::Accept);
    assert_eq!(handle_process_proposal(false), ProcessProposalResponse::Reject);
}

#[test]
fn init_chain_only_on_fresh_database() {
    assert_eq!(check_init_chain(UNINITIALIZED_VERSION), Ok(()));
    assert_eq!(check_init_chain(0), Err(Error::DatabaseAlreadyInitialized));
    assert_eq!(check_init_chain(7), Err(Error::DatabaseAlreadyInitialized));
}
