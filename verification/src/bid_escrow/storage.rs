//! The bookkeeping of the bid escrow process: id counters, the bids of each
//! job offer, the active job offers and jobs, the active bid of each worker
//! on each offer, and the job each voting is about.

use vstd::prelude::*;

use crate::bid_escrow::bid::Bid;
use crate::bid_escrow::job::Job;
use crate::bid_escrow::job_offer::JobOffer;
use crate::configuration::Configuration;
use crate::errors::Error;
use crate::types::{Address, BidId, JobId, JobOfferId, VotingId};
use crate::voting::voting_engine::{remove_all, without_id};

verus! {

/// A counter that gives out ids in order from zero.
#[derive(Clone, Copy, Debug)]
pub struct IdSequence {
    /// The last id given out.
    pub value: Option<u32>,
}

impl IdSequence {
    /// A counter that has given out nothing.
    pub fn new() -> (r: IdSequence)
        ensures
            r.value is None,
    {
        IdSequence { value: None }
    }

    /// The last id given out; zero before the first.
    pub fn get_current_value(&self) -> (r: u32)
        ensures
            r == match self.value {
                Some(v) => v,
                None => 0,
            },
    {
        match self.value {
            Some(v) => v,
            None => 0,
        }
    }

    /// Gives out the next id: zero first, then one more each time.
    pub fn next_value(&mut self) -> (r: u32)
        requires
            old(self).value matches Some(v) ==> v < u32::MAX,
        ensures
            r == match old(self).value {
                Some(v) => (v + 1) as u32,
                None => 0,
            },
            final(self).value == Some(r),
    {
        let next = match self.value {
            Some(v) => v + 1,
            None => 0,
        };
        self.value = Some(next);
        next
    }
}

/// The bids of a job offer in a log of (offer, bid) pairs, in order.
pub open spec fn bids_of(log: Seq<(JobOfferId, BidId)>, offer_id: JobOfferId) -> Seq<BidId>
    decreases log.len(),
{
    if log.len() == 0 {
        Seq::empty()
    } else if log.last().0 == offer_id {
        bids_of(log.drop_last(), offer_id).push(log.last().1)
    } else {
        bids_of(log.drop_last(), offer_id)
    }
}

/// The value last written under a key in a log of writes.
pub open spec fn last_write<K, V>(log: Seq<(K, V)>, key: K) -> Option<V>
    decreases log.len(),
{
    if log.len() == 0 {
        None
    } else if log.last().0 == key {
        Some(log.last().1)
    } else {
        last_write(log.drop_last(), key)
    }
}

/// The value last written under a key, found in a log of writes.
fn find_last<V>(log: &Vec<(u32, V)>, key: u32) -> (r: Option<&V>)
    ensures
        r is Some <==> last_write(log@, key) is Some,
        r matches Some(v) ==> *v == last_write(log@, key)->0,
{
    let mut i: usize = log.len();
    assert(log@.subrange(0, i as int) =~= log@);
    while i > 0
        invariant
            i <= log@.len(),
            last_write(log@, key) == last_write(log@.subrange(0, i as int), key),
        decreases i,
    {
        proof {
            assert(log@.subrange(0, i as int).drop_last() =~= log@.subrange(0, i - 1));
            assert(log@.subrange(0, i as int).last() == log@[i - 1]);
        }
        if log[i - 1].0 == key {
            return Some(&log[i - 1].1);
        }
        i -= 1;
    }
    assert(log@.subrange(0, 0).len() == 0);
    None
}

/// The ids and lists of the bid escrow: job offers and bids.
#[derive(Debug)]
pub struct BidStorage {
    pub job_offers_count: IdSequence,
    pub bids_count: IdSequence,
    /// Each bid id recorded for a job offer, in order.
    pub job_offers_bids: Vec<(JobOfferId, BidId)>,
    pub active_job_offers_ids: Vec<JobOfferId>,
    /// The writes of the active bid of a worker on a job offer, in order.
    pub worker_bids: Vec<((Address, JobOfferId), Option<BidId>)>,
    /// The writes of each job offer, in order.
    pub job_offers: Vec<(JobOfferId, JobOffer)>,
    /// The writes of each bid, in order.
    pub bids: Vec<(BidId, Bid)>,
}

impl BidStorage {
    /// Nothing recorded.
    pub fn new() -> (r: BidStorage)
        ensures
            r.job_offers_count.value is None,
            r.bids_count.value is None,
            r.job_offers_bids@.len() == 0,
            r.active_job_offers_ids@.len() == 0,
            r.worker_bids@.len() == 0,
            r.job_offers@.len() == 0,
            r.bids@.len() == 0,
    {
        BidStorage {
            job_offers_count: IdSequence::new(),
            bids_count: IdSequence::new(),
            job_offers_bids: Vec::new(),
            active_job_offers_ids: Vec::new(),
            worker_bids: Vec::new(),
            job_offers: Vec::new(),
            bids: Vec::new(),
        }
    }

    /// The job offer stored under an id, if any.
    pub open spec fn job_offer_of(&self, id: JobOfferId) -> Option<JobOffer> {
        last_write(self.job_offers@, id)
    }

    /// The bid stored under an id, if any.
    pub open spec fn bid_of(&self, id: BidId) -> Option<Bid> {
        last_write(self.bids@, id)
    }

    /// Stores a job offer under its id.
    pub fn store_job_offer(&mut self, offer: JobOffer)
        ensures
            final(self).job_offers@ == old(self).job_offers@.push((offer.job_offer_id, offer)),
            final(self).job_offer_of(offer.job_offer_id) == Some(offer),
            final(self).bids@ == old(self).bids@,
    {
        let id = offer.job_offer_id;
        self.job_offers.push((id, offer));
        proof {
            assert(self.job_offers@.drop_last() =~= old(self).job_offers@);
        }
    }

    /// Stores a job offer under the given id.
    pub fn update_job_offer(&mut self, offer_id: JobOfferId, offer: JobOffer)
        ensures
            final(self).job_offers@ == old(self).job_offers@.push((offer_id, offer)),
            final(self).job_offer_of(offer_id) == Some(offer),
            final(self).bids@ == old(self).bids@,
    {
        self.job_offers.push((offer_id, offer));
        proof {
            assert(self.job_offers@.drop_last() =~= old(self).job_offers@);
        }
    }

    /// Stores a bid under its id.
    pub fn store_bid(&mut self, bid: Bid)
        ensures
            final(self).bids@ == old(self).bids@.push((bid.bid_id, bid)),
            final(self).bid_of(bid.bid_id) == Some(bid),
            final(self).job_offers@ == old(self).job_offers@,
    {
        self.bids.push((bid.bid_id, bid));
        proof {
            assert(self.bids@.drop_last() =~= old(self).bids@);
        }
    }

    /// The job offer stored under an id, if any.
    pub fn get_job_offer(&self, job_offer_id: JobOfferId) -> (r: Option<&JobOffer>)
        ensures
            r is Some <==> self.job_offer_of(job_offer_id) is Some,
            r matches Some(o) ==> *o == self.job_offer_of(job_offer_id)->0,
    {
        find_last(&self.job_offers, job_offer_id)
    }

    /// The job offer stored under an id, or [`Error::JobOfferNotFound`].
    pub fn get_job_offer_or_revert(&self, job_offer_id: JobOfferId) -> (r: Result<&JobOffer, Error>)
        ensures
            r is Ok <==> self.job_offer_of(job_offer_id) is Some,
            r matches Ok(o) ==> *o == self.job_offer_of(job_offer_id)->0,
            r matches Err(e) ==> e == Error::JobOfferNotFound,
    {
        match self.get_job_offer(job_offer_id) {
            Some(o) => Ok(o),
            None => Err(Error::JobOfferNotFound),
        }
    }

    /// The bid stored under an id, if any.
    pub fn get_bid(&self, bid_id: BidId) -> (r: Option<Bid>)
        ensures
            r == self.bid_of(bid_id),
    {
        match find_last(&self.bids, bid_id) {
            Some(b) => Some(*b),
            None => None,
        }
    }

    /// The bid stored under an id, or [`Error::BidNotFound`].
    pub fn get_bid_or_revert(&self, bid_id: BidId) -> (r: Result<Bid, Error>)
        ensures
            r == match self.bid_of(bid_id) {
                Some(b) => Ok::<Bid, Error>(b),
                None => Err(Error::BidNotFound),
            },
    {
        match self.get_bid(bid_id) {
            Some(b) => Ok(b),
            None => Err(Error::BidNotFound),
        }
    }

    /// The `n`-th bid of a job offer; [`Error::BidNotFound`] when the offer
    /// has no more bids or the bid is not stored.
    pub fn get_nth_bid(&self, offer_id: JobOfferId, n: u32) -> (r: Result<Bid, Error>)
        ensures
            r == if n < bids_of(self.job_offers_bids@, offer_id).len() {
                match self.bid_of(bids_of(self.job_offers_bids@, offer_id)[n as int]) {
                    Some(b) => Ok::<Bid, Error>(b),
                    None => Err(Error::BidNotFound),
                }
            } else {
                Err(Error::BidNotFound)
            },
    {
        let bid_id = self.get_nth_bid_id(offer_id, n)?;
        self.get_bid_or_revert(bid_id)
    }

    /// The configuration of the job offer a job was picked from; the error
    /// [`Error::JobOfferNotFound`] when the offer is not stored.
    pub fn get_job_offer_configuration(&self, job: &Job) -> (r: Result<&Configuration, Error>)
        ensures
            r is Ok <==> self.job_offer_of(job.job_offer_id) is Some,
            r matches Ok(c) ==> *c == self.job_offer_of(job.job_offer_id)->0.configuration,
            r matches Err(e) ==> e == Error::JobOfferNotFound,
    {
        let offer = self.get_job_offer_or_revert(job.job_offer_id)?;
        Ok(&offer.configuration)
    }

    /// Records a bid of a job offer.
    pub fn store_bid_id(&mut self, offer_id: JobOfferId, bid_id: BidId)
        ensures
            final(self).job_offers_bids@ == old(self).job_offers_bids@.push((offer_id, bid_id)),
            bids_of(final(self).job_offers_bids@, offer_id) == bids_of(
                old(self).job_offers_bids@,
                offer_id,
            ).push(bid_id),
            forall|o: JobOfferId|
                o != offer_id ==> bids_of(final(self).job_offers_bids@, o) == bids_of(
                    old(self).job_offers_bids@,
                    o,
                ),
    {
        let ghost before = self.job_offers_bids@;
        self.job_offers_bids.push((offer_id, bid_id));
        assert(self.job_offers_bids@.drop_last() =~= before);
    }

    /// The number of bids of a job offer.
    pub fn get_bids_count(&self, offer_id: JobOfferId) -> (r: u32)
        requires
            self.job_offers_bids@.len() <= u32::MAX,
        ensures
            r == bids_of(self.job_offers_bids@, offer_id).len(),
    {
        let mut count: u32 = 0;
        let mut i: usize = 0;
        while i < self.job_offers_bids.len()
            invariant
                i <= self.job_offers_bids@.len(),
                self.job_offers_bids@.len() <= u32::MAX,
                count == bids_of(self.job_offers_bids@.subrange(0, i as int), offer_id).len(),
                count <= i,
            decreases self.job_offers_bids@.len() - i,
        {
            proof {
                assert(self.job_offers_bids@.subrange(0, i + 1).drop_last()
                    =~= self.job_offers_bids@.subrange(0, i as int));
            }
            if self.job_offers_bids[i].0 == offer_id {
                count = count + 1;
            }
            i += 1;
        }
        assert(self.job_offers_bids@.subrange(0, i as int) =~= self.job_offers_bids@);
        count
    }

    /// The id of the `n`-th bid of a job offer; [`Error::BidNotFound`] when
    /// the offer has no more bids.
    pub fn get_nth_bid_id(&self, offer_id: JobOfferId, n: u32) -> (r: Result<BidId, Error>)
        ensures
            r == if n < bids_of(self.job_offers_bids@, offer_id).len() {
                Ok::<BidId, Error>(bids_of(self.job_offers_bids@, offer_id)[n as int])
            } else {
                Err(Error::BidNotFound)
            },
    {
        let ghost log = self.job_offers_bids@;
        let mut seen: Vec<BidId> = Vec::new();
        let mut i: usize = 0;
        while i < self.job_offers_bids.len()
            invariant
                log == self.job_offers_bids@,
                i <= log.len(),
                seen@ == bids_of(log.subrange(0, i as int), offer_id),
            decreases log.len() - i,
        {
            proof {
                assert(log.subrange(0, i + 1).drop_last() =~= log.subrange(0, i as int));
            }
            if self.job_offers_bids[i].0 == offer_id {
                seen.push(self.job_offers_bids[i].1);
            }
            i += 1;
        }
        assert(log.subrange(0, i as int) =~= log);
        if (n as usize) < seen.len() {
            Ok(seen[n as usize])
        } else {
            Err(Error::BidNotFound)
        }
    }

    /// The last job offer id given out; zero before the first.
    pub fn job_offers_count(&self) -> (r: u32)
        ensures
            r == match self.job_offers_count.value {
                Some(v) => v,
                None => 0,
            },
    {
        self.job_offers_count.get_current_value()
    }

    /// The last bid id given out; zero before the first.
    pub fn bids_count(&self) -> (r: u32)
        ensures
            r == match self.bids_count.value {
                Some(v) => v,
                None => 0,
            },
    {
        self.bids_count.get_current_value()
    }

    /// Gives out the next bid id.
    pub fn next_bid_id(&mut self) -> (r: BidId)
        requires
            old(self).bids_count.value matches Some(v) ==> v < u32::MAX,
        ensures
            r == match old(self).bids_count.value {
                Some(v) => (v + 1) as u32,
                None => 0,
            },
            final(self).bids_count.value == Some(r),
            final(self).job_offers_count == old(self).job_offers_count,
    {
        self.bids_count.next_value()
    }

    /// Gives out the next job offer id.
    pub fn next_job_offer_id(&mut self) -> (r: JobOfferId)
        requires
            old(self).job_offers_count.value matches Some(v) ==> v < u32::MAX,
        ensures
            r == match old(self).job_offers_count.value {
                Some(v) => (v + 1) as u32,
                None => 0,
            },
            final(self).job_offers_count.value == Some(r),
            final(self).bids_count == old(self).bids_count,
    {
        self.job_offers_count.next_value()
    }

    /// Registers a job offer as active.
    pub fn add_to_active_offers(&mut self, job_offer_id: JobOfferId)
        ensures
            final(self).active_job_offers_ids@ == old(self).active_job_offers_ids@.push(
                job_offer_id,
            ),
    {
        self.active_job_offers_ids.push(job_offer_id);
    }

    /// Removes a job offer from the active ones, keeping the order of the
    /// others.
    pub fn remove_from_active_offers(&mut self, job_offer_id: JobOfferId)
        ensures
            final(self).active_job_offers_ids@ == remove_all(
                old(self).active_job_offers_ids@,
                job_offer_id,
            ),
    {
        self.active_job_offers_ids = without_id(&self.active_job_offers_ids, job_offer_id);
    }

    /// The active job offers, in the order they were added.
    pub fn get_active_offers(&self) -> (r: Vec<JobOfferId>)
        ensures
            r@ == self.active_job_offers_ids@,
    {
        copy_id_list(&self.active_job_offers_ids)
    }

    /// Records the worker's active bid on a job offer.
    pub fn add_to_active_bids(&mut self, worker: Address, job_offer_id: JobOfferId, bid_id: BidId)
        ensures
            final(self).worker_bids@ == old(self).worker_bids@.push(
                ((worker, job_offer_id), Some(bid_id)),
            ),
    {
        self.worker_bids.push(((worker, job_offer_id), Some(bid_id)));
    }

    /// Clears the worker's active bid on a job offer.
    pub fn remove_from_active_bids(&mut self, worker: Address, job_offer_id: JobOfferId)
        ensures
            final(self).worker_bids@ == old(self).worker_bids@.push(
                ((worker, job_offer_id), None),
            ),
    {
        self.worker_bids.push(((worker, job_offer_id), None));
    }

    /// The worker's active bid on a job offer, when there is one.
    pub fn get_active_bid_id(&self, worker: Address, job_offer_id: JobOfferId) -> (r: Option<
        BidId,
    >)
        ensures
            r == match last_write(self.worker_bids@, (worker, job_offer_id)) {
                Some(b) => b,
                None => None,
            },
    {
        let mut i: usize = self.worker_bids.len();
        assert(self.worker_bids@.subrange(0, i as int) =~= self.worker_bids@);
        while i > 0
            invariant
                i <= self.worker_bids@.len(),
                last_write(self.worker_bids@, (worker, job_offer_id)) == last_write(
                    self.worker_bids@.subrange(0, i as int),
                    (worker, job_offer_id),
                ),
            decreases i,
        {
            let ((w, o), bid) = self.worker_bids[i - 1];
            proof {
                assert(self.worker_bids@.subrange(0, i as int).drop_last()
                    =~= self.worker_bids@.subrange(0, i - 1));
            }
            if w == worker && o == job_offer_id {
                return bid;
            }
            i -= 1;
        }
        None
    }
}

/// A copy of a list of ids.
fn copy_id_list(ids: &Vec<u32>) -> (r: Vec<u32>)
    ensures
        r@ == ids@,
{
    let mut r: Vec<u32> = Vec::new();
    let mut i: usize = 0;
    while i < ids.len()
        invariant
            i <= ids@.len(),
            r@ == ids@.subrange(0, i as int),
        decreases ids@.len() - i,
    {
        r.push(ids[i]);
        i += 1;
        assert(r@ =~= ids@.subrange(0, i as int));
    }
    assert(r@ =~= ids@);
    r
}

/// The ids of the jobs: a counter, the active jobs and the job each voting
/// is about.
#[derive(Debug)]
pub struct JobStorage {
    pub jobs_count: IdSequence,
    pub active_jobs: Vec<JobId>,
    /// The writes of the job of each voting, in order.
    pub jobs_for_voting: Vec<(VotingId, JobId)>,
    /// The writes of each job, in order.
    pub jobs: Vec<(JobId, Job)>,
}

impl JobStorage {
    /// Nothing recorded.
    pub fn new() -> (r: JobStorage)
        ensures
            r.jobs_count.value is None,
            r.active_jobs@.len() == 0,
            r.jobs_for_voting@.len() == 0,
            r.jobs@.len() == 0,
    {
        JobStorage {
            jobs_count: IdSequence::new(),
            active_jobs: Vec::new(),
            jobs_for_voting: Vec::new(),
            jobs: Vec::new(),
        }
    }

    /// The job stored under an id, if any.
    pub open spec fn job_of(&self, id: JobId) -> Option<Job> {
        last_write(self.jobs@, id)
    }

    /// Stores a job under its id.
    pub fn store_job(&mut self, job: Job)
        ensures
            final(self).jobs@ == old(self).jobs@.push((job.job_id, job)),
            final(self).job_of(job.job_id) == Some(job),
            final(self).jobs_for_voting@ == old(self).jobs_for_voting@,
    {
        let id = job.job_id;
        self.jobs.push((id, job));
        proof {
            assert(self.jobs@.drop_last() =~= old(self).jobs@);
        }
    }

    /// The job stored under an id, if any.
    pub fn get_job(&self, job_id: JobId) -> (r: Option<&Job>)
        ensures
            r is Some <==> self.job_of(job_id) is Some,
            r matches Some(j) ==> *j == self.job_of(job_id)->0,
    {
        find_last(&self.jobs, job_id)
    }

    /// The job stored under an id, or [`Error::JobNotFound`].
    pub fn get_job_or_revert(&self, job_id: JobId) -> (r: Result<&Job, Error>)
        ensures
            r is Ok <==> self.job_of(job_id) is Some,
            r matches Ok(j) ==> *j == self.job_of(job_id)->0,
            r matches Err(e) ==> e == Error::JobNotFound,
    {
        match self.get_job(job_id) {
            Some(j) => Ok(j),
            None => Err(Error::JobNotFound),
        }
    }

    /// The job a voting is about: [`Error::VotingIdNotFound`] when none was
    /// recorded for the voting, [`Error::JobNotFound`] when the job is not
    /// stored.
    pub fn get_job_by_voting_id(&self, voting_id: VotingId) -> (r: Result<&Job, Error>)
        ensures
            last_write(self.jobs_for_voting@, voting_id) is None ==> (r matches Err(e) && e
                == Error::VotingIdNotFound),
            last_write(self.jobs_for_voting@, voting_id) matches Some(id) ==> {
                &&& r is Ok <==> self.job_of(id) is Some
                &&& r matches Ok(j) ==> *j == self.job_of(id)->0
                &&& r matches Err(e) ==> e == Error::JobNotFound
            },
    {
        let job_id = self.get_job_id_by_voting_id(voting_id)?;
        self.get_job_or_revert(job_id)
    }

    /// Records the job a voting is about.
    pub fn store_job_for_voting(&mut self, voting_id: VotingId, job_id: JobId)
        ensures
            final(self).jobs_for_voting@ == old(self).jobs_for_voting@.push((voting_id, job_id)),
    {
        self.jobs_for_voting.push((voting_id, job_id));
    }

    /// The job a voting is about; [`Error::VotingIdNotFound`] when none was
    /// recorded.
    pub fn get_job_id_by_voting_id(&self, voting_id: VotingId) -> (r: Result<JobId, Error>)
        ensures
            r == match last_write(self.jobs_for_voting@, voting_id) {
                Some(j) => Ok::<JobId, Error>(j),
                None => Err(Error::VotingIdNotFound),
            },
    {
        let mut i: usize = self.jobs_for_voting.len();
        assert(self.jobs_for_voting@.subrange(0, i as int) =~= self.jobs_for_voting@);
        while i > 0
            invariant
                i <= self.jobs_for_voting@.len(),
                last_write(self.jobs_for_voting@, voting_id) == last_write(
                    self.jobs_for_voting@.subrange(0, i as int),
                    voting_id,
                ),
            decreases i,
        {
            let (v, j) = self.jobs_for_voting[i - 1];
            proof {
                assert(self.jobs_for_voting@.subrange(0, i as int).drop_last()
                    =~= self.jobs_for_voting@.subrange(0, i - 1));
            }
            if v == voting_id {
                return Ok(j);
            }
            i -= 1;
        }
        Err(Error::VotingIdNotFound)
    }

    /// The last job id given out; zero before the first.
    pub fn jobs_count(&self) -> (r: u32)
        ensures
            r == match self.jobs_count.value {
                Some(v) => v,
                None => 0,
            },
    {
        self.jobs_count.get_current_value()
    }

    /// Gives out the next job id.
    pub fn next_job_id(&mut self) -> (r: JobId)
        requires
            old(self).jobs_count.value matches Some(v) ==> v < u32::MAX,
        ensures
            r == match old(self).jobs_count.value {
                Some(v) => (v + 1) as u32,
                None => 0,
            },
            final(self).jobs_count.value == Some(r),
    {
        self.jobs_count.next_value()
    }

    /// Registers a job as active.
    pub fn add_to_active_jobs(&mut self, job_id: JobId)
        ensures
            final(self).active_jobs@ == old(self).active_jobs@.push(job_id),
    {
        self.active_jobs.push(job_id);
    }

    /// Removes a job from the active ones, keeping the order of the others.
    pub fn remove_from_active_jobs(&mut self, job_id: JobId)
        ensures
            final(self).active_jobs@ == remove_all(old(self).active_jobs@, job_id),
    {
        self.active_jobs = without_id(&self.active_jobs, job_id);
    }

    /// The active jobs, in the order they were added.
    pub fn get_active_jobs(&self) -> (r: Vec<JobId>)
        ensures
            r@ == self.active_jobs@,
    {
        copy_id_list(&self.active_jobs)
    }
}

} // verus!
