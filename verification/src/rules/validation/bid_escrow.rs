//! Rules of the bid escrow process.

pub mod can_be_onboarded;
pub mod can_bid_be_cancelled;
pub mod can_bid_be_picked;
pub mod can_bid_on_auction_state;
pub mod can_bid_on_own_job;
pub mod can_job_offer_be_cancelled;
pub mod can_pick_bid;
pub mod can_progress_job_offer;
pub mod does_proposed_payment_exceed_budget;
pub mod does_proposed_payment_match_transferred;
pub mod has_permissions_to_cancel_bid;
pub mod has_permissions_to_cancel_job_offer;
pub mod is_bid_stake_correct;
pub mod is_dos_fee_enough;
pub mod is_grace_period;
pub mod is_stake_non_zero;

pub use can_be_onboarded::CanBeOnboarded;
pub use can_bid_be_cancelled::CanBidBeCancelled;
pub use can_bid_be_picked::CanBidBePicked;
pub use can_bid_on_auction_state::CanBidOnAuctionState;
pub use can_bid_on_own_job::CanBidOnOwnJob;
pub use can_job_offer_be_cancelled::CanJobOfferBeCancelled;
pub use can_pick_bid::CanPickBid;
pub use can_progress_job_offer::CanProgressJobOffer;
pub use does_proposed_payment_exceed_budget::DoesProposedPaymentExceedBudget;
pub use does_proposed_payment_match_transferred::DoesProposedPaymentMatchTransferred;
pub use has_permissions_to_cancel_bid::HasPermissionsToCancelBid;
pub use has_permissions_to_cancel_job_offer::HasPermissionsToCancelJobOffer;
pub use is_bid_stake_correct::IsBidStakeCorrect;
pub use is_dos_fee_enough::IsDosFeeEnough;
pub use is_grace_period::IsGracePeriod;
pub use is_stake_non_zero::IsStakeNonZero;
