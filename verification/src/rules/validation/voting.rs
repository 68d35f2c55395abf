//! Rules of the voting process.

pub mod after_formal_voting;
pub mod can_create_voting;
pub mod finished_voting_can_be_cancelled;
pub mod vote_in_time;
pub mod voting_not_completed;

pub use after_formal_voting::AfterFormalVoting;
pub use can_create_voting::CanCreateVoting;
pub use finished_voting_can_be_cancelled::FinishedVotingCanBeCancelled;
pub use vote_in_time::VoteInTime;
pub use voting_not_completed::VotingNotCompleted;
