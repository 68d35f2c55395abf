//! Jobs and their requests.

use vstd::prelude::*;

use crate::errors::Error;
use crate::rules::validation::bid_escrow::{CanPickBid, DoesProposedPaymentMatchTransferred};
use crate::rules::validation::Validation;
use crate::rules::{first_error, generic_outcomes, RulesBuilder};
use crate::types::{Address, Balance, BidId, BlockTime, DocumentHash, JobId, JobOfferId, VotingId};
use crate::u256::U256;

verus! {

/// Job status.
#[derive(Clone, Copy, Debug, PartialEq, Eq, Structural)]
pub enum JobStatus {
    /// Created, the worker works on it.
    Created,
    /// Cancelled.
    Cancelled,
    /// Job proof submitted.
    Submitted,
    /// Completed.
    Completed,
}

/// The kind of worker doing a job.
#[derive(Clone, Copy, Debug, PartialEq, Eq, Structural)]
pub enum WorkerType {
    /// A VA.
    Internal,
    /// A non-VA who becomes a VA once the job is accepted.
    ExternalToVA,
    /// A non-VA who does not want to become a VA.
    External,
}

/// Data required to pick a bid.
#[derive(Clone, Copy, Debug)]
pub struct PickBidRequest {
    /// Job id.
    pub job_id: JobId,
    /// Related job offer id.
    pub job_offer_id: JobOfferId,
    /// Picked bid id.
    pub bid_id: BidId,
    /// The request creator.
    pub caller: Address,
    /// Job poster address.
    pub poster: Address,
    /// Worker address.
    pub worker: Address,
    /// If the worker is a VA.
    pub is_worker_va: bool,
    /// Should be onboarded when the job is done.
    pub onboard: bool,
    /// Time the bid is picked.
    pub block_time: BlockTime,
    /// Time to complete the job.
    pub timeframe: BlockTime,
    /// Job reward.
    pub payment: Balance,
    /// The amount transferred by the job poster.
    pub transferred_cspr: Balance,
    /// Bid reputation stake.
    pub stake: Balance,
    /// Bid CSPR stake of an external worker.
    pub external_worker_cspr_stake: Balance,
}

impl PickBidRequest {
    /// The outcomes of the rules a new job must pass, in order.
    pub open spec fn checks(&self) -> Seq<Result<(), Error>> {
        seq![
            CanPickBid { caller: self.caller, poster: self.poster }.outcome(),
            DoesProposedPaymentMatchTransferred {
                proposed_payment: self.payment,
                transferred: self.transferred_cspr,
            }.outcome(),
        ]
    }
}

/// Data required to reclaim a job.
#[derive(Clone, Copy, Debug)]
pub struct ReclaimJobRequest {
    /// The id of the new job.
    pub new_job_id: JobId,
    /// The id of the new bid.
    pub new_bid_id: BidId,
    /// Time to complete the job.
    pub proposed_timeframe: BlockTime,
    /// Worker address.
    pub worker: Address,
    /// Bid reputation stake.
    pub reputation_stake: Balance,
    /// Bid CSPR stake of an external worker.
    pub cspr_stake: Option<Balance>,
    /// Should be onboarded when the job is done.
    pub onboard: bool,
    /// Reclaim time.
    pub block_time: BlockTime,
}

/// Data required to submit a job proof.
#[derive(Debug)]
pub struct SubmitJobProofRequest {
    pub proof: DocumentHash,
    pub caller: Address,
}

/// A job.
#[derive(Debug)]
pub struct Job {
    pub job_id: JobId,
    pub bid_id: BidId,
    pub job_offer_id: JobOfferId,
    pub voting_id: Option<VotingId>,
    pub job_proof: Option<DocumentHash>,
    pub start_time: BlockTime,
    pub time_for_job: BlockTime,
    pub status: JobStatus,
    pub worker: Address,
    pub worker_type: WorkerType,
    pub poster: Address,
    pub payment: Balance,
    pub stake: Balance,
    pub external_worker_cspr_stake: Balance,
    pub followed_by: Option<JobId>,
}

/// The worker type of a newly picked bid: a VA works as an internal worker,
/// a non-VA as an external worker who may want to become a VA.
pub open spec fn picked_worker_type(is_worker_va: bool, onboard: bool) -> WorkerType {
    if is_worker_va {
        WorkerType::Internal
    } else if onboard {
        WorkerType::ExternalToVA
    } else {
        WorkerType::External
    }
}

/// The worker type of a worker who reclaims a job: one who wants to become
/// a VA, an external worker when staking CSPR, an internal one otherwise.
pub open spec fn reclaiming_worker_type(stakes_cspr: bool, onboard: bool) -> WorkerType {
    if onboard {
        WorkerType::ExternalToVA
    } else if stakes_cspr {
        WorkerType::External
    } else {
        WorkerType::Internal
    }
}

/// A picked VA works on the job as an internal worker; a picked non-VA is
/// an external worker, one who wants to become a VA when it asks to be
/// onboarded.
pub proof fn law_picked_worker_type(onboard: bool)
    ensures
        picked_worker_type(true, onboard) == WorkerType::Internal,
        picked_worker_type(false, true) == WorkerType::ExternalToVA,
        picked_worker_type(false, false) == WorkerType::External,
        picked_worker_type(false, onboard) != WorkerType::Internal,
{
}

/// A worker who reclaims a job and asks to be onboarded wants to become a
/// VA; otherwise one who stakes CSPR is an external worker and one who
/// stakes only reputation is an internal one.
pub proof fn law_reclaiming_worker_type(stakes_cspr: bool)
    ensures
        reclaiming_worker_type(stakes_cspr, true) == WorkerType::ExternalToVA,
        reclaiming_worker_type(true, false) == WorkerType::External,
        reclaiming_worker_type(false, false) == WorkerType::Internal,
{
}

impl Job {
    /// The job's finish time.
    pub open spec fn spec_finish_time(&self) -> int {
        self.start_time + self.time_for_job
    }

    /// Creates a job from a picked bid, when the caller is the job poster and
    /// the transferred amount matches the payment.
    pub fn new(request: &PickBidRequest) -> (r: Result<Self, Error>)
        ensures
            match r {
                Ok(job) => {
                    &&& first_error(request.checks()) is Ok
                    &&& job == (Job {
                        job_id: request.job_id,
                        bid_id: request.bid_id,
                        job_offer_id: request.job_offer_id,
                        voting_id: None,
                        job_proof: None,
                        start_time: request.block_time,
                        time_for_job: request.timeframe,
                        status: JobStatus::Created,
                        worker: request.worker,
                        worker_type: picked_worker_type(request.is_worker_va, request.onboard),
                        poster: request.poster,
                        payment: request.payment,
                        stake: request.stake,
                        external_worker_cspr_stake: request.external_worker_cspr_stake,
                        followed_by: None,
                    })
                },
                Err(e) => first_error(request.checks()) == Err::<(), Error>(e),
            },
            r matches Ok(job) ==> {
                &&& request.is_worker_va ==> job.worker_type == WorkerType::Internal
                &&& !request.is_worker_va && request.onboard ==> job.worker_type
                    == WorkerType::ExternalToVA
                &&& !request.is_worker_va && !request.onboard ==> job.worker_type
                    == WorkerType::External
            },
    {
        let rules = RulesBuilder::new().add_validation(
            CanPickBid::create(request.caller, request.poster),
        ).add_validation(
            DoesProposedPaymentMatchTransferred::create(request.payment, request.transferred_cspr),
        ).build();
        proof {
            assert(generic_outcomes(rules.validations@) =~= request.checks());
        }
        if let Err(e) = rules.validate_generic_validations() {
            return Err(e);
        }
        let worker_type = if request.is_worker_va {
            WorkerType::Internal
        } else if request.onboard {
            WorkerType::ExternalToVA
        } else {
            WorkerType::External
        };

        Ok(
            Job {
                job_id: request.job_id,
                bid_id: request.bid_id,
                job_offer_id: request.job_offer_id,
                voting_id: None,
                job_proof: None,
                start_time: request.block_time,
                time_for_job: request.timeframe,
                status: JobStatus::Created,
                worker: request.worker,
                worker_type,
                poster: request.poster,
                payment: request.payment,
                stake: request.stake,
                external_worker_cspr_stake: request.external_worker_cspr_stake,
                followed_by: None,
            },
        )
    }

    /// Completes the job and creates the job that follows it, with a new
    /// worker and bid: the new job is already submitted and keeps the offer,
    /// the poster and the payment.
    pub fn reclaim(&mut self, request: ReclaimJobRequest) -> (r: Job)
        ensures
            final(self).status == JobStatus::Completed,
            final(self).followed_by == Some(request.new_job_id),
            final(self).job_id == old(self).job_id,
            final(self).bid_id == old(self).bid_id,
            final(self).job_offer_id == old(self).job_offer_id,
            final(self).voting_id == old(self).voting_id,
            final(self).job_proof == old(self).job_proof,
            final(self).start_time == old(self).start_time,
            final(self).time_for_job == old(self).time_for_job,
            final(self).worker == old(self).worker,
            final(self).worker_type == old(self).worker_type,
            final(self).poster == old(self).poster,
            final(self).payment == old(self).payment,
            final(self).stake == old(self).stake,
            final(self).external_worker_cspr_stake == old(self).external_worker_cspr_stake,
            r.job_id == request.new_job_id,
            r.bid_id == request.new_bid_id,
            r.job_offer_id == old(self).job_offer_id,
            r.voting_id is None,
            r.job_proof is None,
            r.start_time == request.block_time,
            r.time_for_job == request.proposed_timeframe,
            r.status == JobStatus::Submitted,
            r.worker == request.worker,
            r.worker_type == reclaiming_worker_type(request.cspr_stake is Some, request.onboard),
            request.onboard ==> r.worker_type == WorkerType::ExternalToVA,
            !request.onboard && request.cspr_stake is Some ==> r.worker_type == WorkerType::External,
            !request.onboard && request.cspr_stake is None ==> r.worker_type == WorkerType::Internal,
            r.poster == old(self).poster,
            r.payment == old(self).payment,
            r.stake == request.reputation_stake,
            r.external_worker_cspr_stake.value() == match request.cspr_stake {
                Some(s) => s.value(),
                None => 0,
            },
            r.followed_by is None,
    {
        self.status = JobStatus::Completed;
        self.followed_by = Some(request.new_job_id);

        let worker_type = if request.onboard {
            WorkerType::ExternalToVA
        } else if request.cspr_stake.is_some() {
            WorkerType::External
        } else {
            WorkerType::Internal
        };
        let external_worker_cspr_stake = match request.cspr_stake {
            Some(s) => s,
            None => U256::zero(),
        };

        Job {
            job_id: request.new_job_id,
            bid_id: request.new_bid_id,
            job_offer_id: self.job_offer_id,
            voting_id: None,
            job_proof: None,
            start_time: request.block_time,
            time_for_job: request.proposed_timeframe,
            status: JobStatus::Submitted,
            worker: request.worker,
            worker_type,
            poster: self.poster,
            payment: self.payment,
            stake: request.reputation_stake,
            external_worker_cspr_stake,
            followed_by: None,
        }
    }

    /// What a cancellation of the job at `block_time` by `caller` gives:
    /// only a created job can be cancelled, only by its poster, and only
    /// once the grace period that follows its finish time is over.
    pub open spec fn spec_validate_cancel(&self, block_time: BlockTime, caller: Address) -> Result<
        (),
        Error,
    > {
        if self.status != JobStatus::Created {
            Err(Error::CannotCancelJob)
        } else if self.spec_finish_time() + self.time_for_job >= block_time {
            Err(Error::JobCannotBeYetCanceled)
        } else if self.poster != caller {
            Err(Error::CannotCancelJob)
        } else {
            Ok(())
        }
    }

    /// Verifies if the job can be canceled at a given time by the caller.
    pub fn validate_cancel(&self, block_time: BlockTime, caller: Address) -> (r: Result<(), Error>)
        requires
            self.start_time + self.time_for_job + self.time_for_job <= u64::MAX,
        ensures
            r == self.spec_validate_cancel(block_time, caller),
    {
        if self.status() != JobStatus::Created {
            return Err(Error::CannotCancelJob);
        }
        if self.finish_time() + self.grace_period() >= block_time {
            return Err(Error::JobCannotBeYetCanceled);
        }
        if self.status() != JobStatus::Created || self.poster() != caller {
            return Err(Error::CannotCancelJob);
        }
        Ok(())
    }

    /// Changes the status to cancelled.
    pub fn cancel(&mut self)
        ensures
            *final(self) == (Job { status: JobStatus::Cancelled, ..*old(self) }),
    {
        self.status = JobStatus::Cancelled;
    }

    /// Changes the status to completed.
    pub fn complete(&mut self)
        ensures
            *final(self) == (Job { status: JobStatus::Completed, ..*old(self) }),
    {
        self.status = JobStatus::Completed;
    }

    /// Sets the proof and the status to submitted: only once, and only when
    /// the caller is the worker.
    pub fn submit_proof(&mut self, request: SubmitJobProofRequest) -> (r: Result<(), Error>)
        ensures
            old(self).job_proof is Some ==> r == Err::<(), Error>(Error::JobAlreadySubmitted),
            old(self).job_proof is None && old(self).worker != request.caller ==> r == Err::<
                (),
                Error,
            >(Error::OnlyWorkerCanSubmitProof),
            old(self).job_proof is None && old(self).worker == request.caller ==> r is Ok,
            r is Ok ==> *final(self) == (Job {
                job_proof: Some(request.proof),
                status: JobStatus::Submitted,
                ..*old(self)
            }),
            r is Err ==> *final(self) == *old(self),
    {
        if self.job_proof().is_some() {
            return Err(Error::JobAlreadySubmitted);
        }
        if self.worker() != request.caller {
            return Err(Error::OnlyWorkerCanSubmitProof);
        }
        self.job_proof = Some(request.proof);
        self.status = JobStatus::Submitted;
        Ok(())
    }

    /// Gets the job's status.
    pub fn status(&self) -> (r: JobStatus)
        ensures
            r == self.status,
    {
        self.status
    }

    /// Gets the job's worker.
    pub fn worker(&self) -> (r: Address)
        ensures
            r == self.worker,
    {
        self.worker
    }

    /// Gets the job's poster.
    pub fn poster(&self) -> (r: Address)
        ensures
            r == self.poster,
    {
        self.poster
    }

    /// Gets the job's result.
    pub fn result(&self) -> (r: Option<&DocumentHash>)
        ensures
            r == match self.job_proof {
                Some(p) => Some(&p),
                None => None::<&DocumentHash>,
            },
    {
        self.job_proof.as_ref()
    }

    /// Gets the job's bid id.
    pub fn bid_id(&self) -> (r: BidId)
        ensures
            r == self.bid_id,
    {
        self.bid_id
    }

    /// Gets the job's offer id.
    pub fn job_offer_id(&self) -> (r: JobOfferId)
        ensures
            r == self.job_offer_id,
    {
        self.job_offer_id
    }

    /// Gets the job's payment amount.
    pub fn payment(&self) -> (r: Balance)
        ensures
            r == self.payment,
    {
        self.payment
    }

    /// Gets the job's voting id.
    pub fn voting_id(&self) -> (r: Option<VotingId>)
        ensures
            r == self.voting_id,
    {
        self.voting_id
    }

    /// Gets the proof that the job has been done.
    pub fn job_proof(&self) -> (r: Option<&DocumentHash>)
        ensures
            r == match self.job_proof {
                Some(p) => Some(&p),
                None => None::<&DocumentHash>,
            },
    {
        self.job_proof.as_ref()
    }

    /// Gets the job's finish time: its start time plus the time for the job.
    pub fn finish_time(&self) -> (r: BlockTime)
        requires
            self.start_time + self.time_for_job <= u64::MAX,
        ensures
            r == self.spec_finish_time(),
    {
        self.start_time + self.time_for_job
    }

    /// Gets the job's worker type.
    pub fn worker_type(&self) -> (r: &WorkerType)
        ensures
            *r == self.worker_type,
    {
        &self.worker_type
    }

    /// If the worker's ballot should be unbound: the worker is not a VA, so
    /// its reputation is not real.
    pub fn is_unbound(&self) -> (r: bool)
        ensures
            r == (self.worker_type != WorkerType::Internal),
    {
        *self.worker_type() != WorkerType::Internal
    }

    /// Gets the job's stake.
    pub fn get_stake(&self) -> (r: Balance)
        ensures
            r == self.stake,
    {
        self.stake
    }

    /// Gets the job's CSPR stake.
    pub fn external_worker_cspr_stake(&self) -> (r: Balance)
        ensures
            r == self.external_worker_cspr_stake,
    {
        self.external_worker_cspr_stake
    }

    /// Links the job with a voting.
    pub fn set_voting_id(&mut self, voting_id: VotingId)
        ensures
            *final(self) == (Job { voting_id: Some(voting_id), ..*old(self) }),
    {
        self.voting_id = Some(voting_id);
    }

    /// Gets the job's id.
    pub fn job_id(&self) -> (r: JobId)
        ensures
            r == self.job_id,
    {
        self.job_id
    }

    /// The length of the grace period: the time given for the job.
    fn grace_period(&self) -> (r: BlockTime)
        ensures
            r == self.time_for_job,
    {
        self.time_for_job
    }
}

} // verus!
