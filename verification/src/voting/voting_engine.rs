//! The voting engine: the ballots of a voting, the list of votings in
//! progress, and what happens to the voters' reputation when a voting ends.
//!
//! A voting runs in two phases, informal and formal. Each phase keeps its
//! ballots in a [`BallotBook`], in the order they were cast. Reputation moves
//! are returned to the caller as lists, to be carried out by the reputation
//! token.

pub mod events;

use vstd::prelude::*;

use crate::address_map::{lemma_sum_push, sum_values};
use crate::configuration::{quorum_result, Configuration};
use crate::configuration::voting_configuration::same_calls;
use crate::errors::Error;
use crate::types::{Address, Balance, BlockTime, VotingId};
use crate::u256::{u256_max, U256};
use crate::voting::ballot::{Ballot, Choice};
use crate::rules::validation::voting::{CanCreateVoting, VoteInTime};
use crate::rules::validation::VotingValidation;
use crate::rules::validation::Validation;
use crate::rules::{first_error, generic_outcomes, RulesBuilder};
use crate::voting::voting_state::{VotingResult, VotingState, VotingType};
use events::{Reason, VotingCreatedInfo};

verus! {

/// A ballot that counts: bound to the voting and not canceled.
pub open spec fn is_active(b: Ballot) -> bool {
    !b.unbound && !b.canceled
}

/// The voters and stakes of the active ballots with the given choice, in the
/// order the ballots were cast.
pub open spec fn active_stakes_with(ballots: Seq<Ballot>, choice: Choice) -> Seq<(Address, Balance)>
    decreases ballots.len(),
{
    if ballots.len() == 0 {
        Seq::empty()
    } else {
        let rest = active_stakes_with(ballots.drop_last(), choice);
        let b = ballots.last();
        if is_active(b) && b.choice == choice {
            rest.push((b.voter, b.stake))
        } else {
            rest
        }
    }
}

/// The voters and stakes of the active ballots with the given choice (any
/// choice for `None`) that are, or are not (`of_voter`), the given voter's,
/// in the order the ballots were cast.
pub open spec fn selected_stakes(
    ballots: Seq<Ballot>,
    choice: Option<Choice>,
    voter: Address,
    of_voter: bool,
) -> Seq<(Address, Balance)>
    decreases ballots.len(),
{
    if ballots.len() == 0 {
        Seq::empty()
    } else {
        let rest = selected_stakes(ballots.drop_last(), choice, voter, of_voter);
        let b = ballots.last();
        if is_active(b) && (choice is None || b.choice == choice->0) && ((b.voter == voter)
            == of_voter) {
            rest.push((b.voter, b.stake))
        } else {
            rest
        }
    }
}

/// The stakes of the active ballots with a choice, but the voter's.
pub open spec fn stakes_of_others(ballots: Seq<Ballot>, choice: Choice, voter: Address) -> Seq<
    (Address, Balance),
> {
    selected_stakes(ballots, Some(choice), voter, false)
}

/// The stake of the voter's active ballot, if any.
pub open spec fn stakes_of_voter(ballots: Seq<Ballot>, voter: Address) -> Seq<(Address, Balance)> {
    selected_stakes(ballots, None, voter, true)
}

/// The voters and stakes of all active ballots, in the order they were cast.
pub open spec fn active_stakes(ballots: Seq<Ballot>) -> Seq<(Address, Balance)>
    decreases ballots.len(),
{
    if ballots.len() == 0 {
        Seq::empty()
    } else {
        let rest = active_stakes(ballots.drop_last());
        let b = ballots.last();
        if is_active(b) {
            rest.push((b.voter, b.stake))
        } else {
            rest
        }
    }
}

/// The reputation minted for the winners: each active ballot on the winning
/// side gets the losers' total stake in proportion to its own stake, rounded
/// down.
pub open spec fn mint_amounts(
    ballots: Seq<Ballot>,
    winner: Choice,
    total_winners: nat,
    total_losers: nat,
) -> Seq<(Address, nat)>
    decreases ballots.len(),
{
    if ballots.len() == 0 {
        Seq::empty()
    } else {
        let rest = mint_amounts(ballots.drop_last(), winner, total_winners, total_losers);
        let b = ballots.last();
        if is_active(b) && b.choice == winner {
            rest.push((b.voter, total_losers * b.stake.value() / total_winners))
        } else {
            rest
        }
    }
}

/// Each active ballot on the winning side is minted exactly the losers'
/// total times its stake divided by the winners' total, rounded down, in the
/// order the ballots were cast; nothing is capped.
pub proof fn law_winners_minted_in_proportion(
    ballots: Seq<Ballot>,
    winner: Choice,
    total_winners: nat,
    total_losers: nat,
)
    requires
        total_winners > 0,
    ensures
        mint_amounts(ballots, winner, total_winners, total_losers).len() == active_stakes_with(
            ballots,
            winner,
        ).len(),
        forall|i: int|
            0 <= i < active_stakes_with(ballots, winner).len() ==> #[trigger] mint_amounts(
                ballots,
                winner,
                total_winners,
                total_losers,
            )[i] == (
                active_stakes_with(ballots, winner)[i].0,
                total_losers * active_stakes_with(ballots, winner)[i].1.value() / total_winners,
            ),
    decreases ballots.len(),
{
    if ballots.len() > 0 {
        let prev = ballots.drop_last();
        law_winners_minted_in_proportion(prev, winner, total_winners, total_losers);
        let m = mint_amounts(ballots, winner, total_winners, total_losers);
        let a = active_stakes_with(ballots, winner);
        let mp = mint_amounts(prev, winner, total_winners, total_losers);
        let ap = active_stakes_with(prev, winner);
        let b = ballots.last();
        if is_active(b) && b.choice == winner {
            assert(m == mp.push((b.voter, total_losers * b.stake.value() / total_winners)));
            assert(a == ap.push((b.voter, b.stake)));
        } else {
            assert(m == mp);
            assert(a == ap);
        }
        assert forall|i: int| 0 <= i < a.len() implies #[trigger] m[i] == (
            a[i].0,
            total_losers * a[i].1.value() / total_winners,
        ) by {
            if i < ap.len() {
                assert(mp[i] == m[i]);
                assert(ap[i] == a[i]);
            }
        }
    }
}

/// A single winner who holds the whole winning side is minted all of the
/// losers' stake.
pub proof fn law_single_winner_gets_all(
    ballots: Seq<Ballot>,
    winner: Choice,
    total_winners: nat,
    total_losers: nat,
)
    requires
        total_winners > 0,
        active_stakes_with(ballots, winner).len() == 1,
        active_stakes_with(ballots, winner)[0].1.value() == total_winners,
    ensures
        mint_amounts(ballots, winner, total_winners, total_losers).len() == 1,
        mint_amounts(ballots, winner, total_winners, total_losers)[0].1 == total_losers,
{
    law_winners_minted_in_proportion(ballots, winner, total_winners, total_losers);
    let m = mint_amounts(ballots, winner, total_winners, total_losers);
    assert(m[0].1 == total_losers * total_winners / total_winners);
    assert(total_losers * total_winners / total_winners == total_losers) by (nonlinear_arith)
        requires
            total_winners > 0,
    ;
}

/// The mints go to the winners in order, each the losers' total times its
/// stake divided by the winners' total, rounded down.
pub open spec fn minted_in_proportion(
    mints: Seq<(Address, Balance)>,
    winners: Seq<(Address, Balance)>,
    total_winners: nat,
    total_losers: nat,
) -> bool {
    &&& mints.len() == winners.len()
    &&& forall|i: int|
        0 <= i < winners.len() ==> (#[trigger] mints[i]).0 == winners[i].0 && mints[i].1.value()
            == total_losers * winners[i].1.value() / total_winners
}

/// Some product of the losers' total stake and a winner's stake exceeds
/// 2^256 - 1.
pub open spec fn mint_overflows(ballots: Seq<Ballot>, winner: Choice, total_losers: nat) -> bool {
    exists|i: int|
        0 <= i < ballots.len() && is_active(#[trigger] ballots[i]) && ballots[i].choice == winner
            && total_losers * ballots[i].stake.value() > u256_max()
}

/// The amounts of a list of balance entries, as numbers.
pub open spec fn entry_values(list: Seq<(Address, Balance)>) -> Seq<(Address, nat)> {
    Seq::new(list.len(), |i: int| (list[i].0, list[i].1.value()))
}

/// The sum of a list of amounts.
pub open spec fn sum_nat(list: Seq<(Address, nat)>) -> nat
    decreases list.len(),
{
    if list.len() == 0 {
        0
    } else {
        sum_nat(list.drop_last()) + list.last().1
    }
}

/// The ballots with the voter's ballot bound to the voting.
pub open spec fn bind_voter(ballots: Seq<Ballot>, voter: Address) -> Seq<Ballot> {
    Seq::new(
        ballots.len(),
        |i: int|
            if ballots[i].voter == voter {
                Ballot { unbound: false, ..ballots[i] }
            } else {
                ballots[i]
            },
    )
}

/// The other option.
pub open spec fn opposite(c: Choice) -> Choice {
    match c {
        Choice::InFavor => Choice::Against,
        Choice::Against => Choice::InFavor,
    }
}

/// The ballots of one phase of a voting, in the order they were cast.
#[derive(Debug)]
pub struct BallotBook {
    pub ballots: Vec<Ballot>,
}

impl BallotBook {
    /// Each voter has one ballot, and the voters can be counted in a `u32`.
    pub open spec fn wf(&self) -> bool {
        &&& self.ballots@.len() <= u32::MAX
        &&& forall|i: int, j: int|
            0 <= i < j < self.ballots@.len() ==> self.ballots@[i].voter != self.ballots@[j].voter
    }

    /// Whether the voter has a ballot.
    pub open spec fn has_voted(&self, voter: Address) -> bool {
        exists|i: int| 0 <= i < self.ballots@.len() && self.ballots@[i].voter == voter
    }

    /// The position of a voter's ballot.
    pub open spec fn index_of(&self, voter: Address) -> int {
        choose|i: int| 0 <= i < self.ballots@.len() && self.ballots@[i].voter == voter
    }

    /// The ballot of a voter who voted.
    pub open spec fn ballot_of(&self, voter: Address) -> Ballot {
        self.ballots@[self.index_of(voter)]
    }

    /// A voter's ballot is at the position of the voter.
    pub proof fn lemma_index_of(&self, i: int)
        requires
            self.wf(),
            0 <= i < self.ballots@.len(),
        ensures
            self.has_voted(self.ballots@[i].voter),
            self.index_of(self.ballots@[i].voter) == i,
    {
        let v = self.ballots@[i].voter;
        assert(self.ballots@[i].voter == v);
    }

    /// No ballots.
    pub fn new() -> (r: BallotBook)
        ensures
            r.wf(),
            r.ballots@.len() == 0,
    {
        BallotBook { ballots: Vec::new() }
    }

    /// The number of voters.
    pub fn voters_count(&self) -> (r: u32)
        requires
            self.wf(),
        ensures
            r == self.ballots@.len(),
    {
        self.ballots.len() as u32
    }

    /// The voters, in the order they voted.
    pub fn all_voters(&self) -> (r: Vec<Address>)
        ensures
            r@ == self.ballots@.map_values(|b: Ballot| b.voter),
    {
        let mut r: Vec<Address> = Vec::new();
        let mut i: usize = 0;
        while i < self.ballots.len()
            invariant
                i <= self.ballots@.len(),
                r@ == self.ballots@.subrange(0, i as int).map_values(|b: Ballot| b.voter),
            decreases self.ballots@.len() - i,
        {
            r.push(self.ballots[i].voter);
            i += 1;
            assert(r@ =~= self.ballots@.subrange(0, i as int).map_values(|b: Ballot| b.voter));
        }
        assert(self.ballots@.subrange(0, i as int) =~= self.ballots@);
        r
    }

    /// The address of the voter who voted at the given position.
    pub fn get_voter(&self, at: u32) -> (r: Option<Address>)
        ensures
            r == if at < self.ballots@.len() {
                Some(self.ballots@[at as int].voter)
            } else {
                None::<Address>
            },
    {
        if (at as usize) < self.ballots.len() {
            Some(self.ballots[at as usize].voter)
        } else {
            None
        }
    }

    /// The position of a voter's ballot.
    fn position(&self, voter: Address) -> (r: Option<usize>)
        requires
            self.wf(),
        ensures
            match r {
                Some(i) => i < self.ballots@.len() && self.ballots@[i as int].voter == voter
                    && self.has_voted(voter) && self.index_of(voter) == i,
                None => !self.has_voted(voter),
            },
    {
        let mut i: usize = 0;
        while i < self.ballots.len()
            invariant
                self.wf(),
                i <= self.ballots@.len(),
                forall|j: int| 0 <= j < i ==> self.ballots@[j].voter != voter,
            decreases self.ballots@.len() - i,
        {
            if self.ballots[i].voter == voter {
                proof {
                    self.lemma_index_of(i as int);
                }
                return Some(i);
            }
            i += 1;
        }
        None
    }

    /// The voter's ballot, when the voter voted.
    pub fn get_ballot(&self, voter: Address) -> (r: Option<Ballot>)
        requires
            self.wf(),
        ensures
            r == if self.has_voted(voter) {
                Some(self.ballot_of(voter))
            } else {
                None::<Ballot>
            },
    {
        match self.position(voter) {
            Some(i) => Some(self.ballots[i]),
            None => None,
        }
    }

    /// The ballot cast at the given position.
    pub fn get_ballot_at(&self, i: u32) -> (r: Result<Ballot, Error>)
        ensures
            r == if i < self.ballots@.len() {
                Ok::<Ballot, Error>(self.ballots@[i as int])
            } else {
                Err(Error::VoterDoesNotExist)
            },
    {
        if (i as usize) < self.ballots.len() {
            Ok(self.ballots[i as usize])
        } else {
            Err(Error::VoterDoesNotExist)
        }
    }

    /// Fails when the voter has already voted.
    pub fn assert_vote_doesnt_exist(&self, voter: Address) -> (r: Result<(), Error>)
        requires
            self.wf(),
        ensures
            r == if self.has_voted(voter) {
                Err(Error::CannotVoteTwice)
            } else {
                Ok::<(), Error>(())
            },
    {
        match self.position(voter) {
            Some(_) => Err(Error::CannotVoteTwice),
            None => Ok(()),
        }
    }

    /// Records the ballot of a voter who has not voted yet.
    pub fn record_ballot(&mut self, ballot: Ballot)
        requires
            old(self).wf(),
            !old(self).has_voted(ballot.voter),
            old(self).ballots@.len() < u32::MAX,
        ensures
            final(self).wf(),
            final(self).ballots@ == old(self).ballots@.push(ballot),
    {
        self.ballots.push(ballot);
    }

    /// Withdraws a voter's ballot: marks it canceled and returns it as it
    /// was. Returns `None`, changing nothing, when the voter did not vote.
    pub fn cancel_ballot(&mut self, voter: Address) -> (r: Option<Ballot>)
        requires
            old(self).wf(),
        ensures
            final(self).wf(),
            r == if old(self).has_voted(voter) {
                Some(old(self).ballot_of(voter))
            } else {
                None::<Ballot>
            },
            old(self).has_voted(voter) ==> final(self).ballots@ == old(self).ballots@.update(
                old(self).index_of(voter),
                Ballot { canceled: true, ..old(self).ballot_of(voter) },
            ),
            !old(self).has_voted(voter) ==> final(self).ballots@ == old(self).ballots@,
    {
        match self.position(voter) {
            Some(i) => {
                let ballot = self.ballots[i];
                self.ballots.set(i, Ballot { canceled: true, ..ballot });
                Some(ballot)
            },
            None => None,
        }
    }

    /// Binds a voter's unbound ballot to the voting: from now on it counts
    /// in the voting's stake. Returns the ballot as it was.
    pub fn bound_ballot(&mut self, voter: Address) -> (r: Result<Ballot, Error>)
        requires
            old(self).wf(),
        ensures
            final(self).wf(),
            r == if old(self).has_voted(voter) {
                Ok::<Ballot, Error>(old(self).ballot_of(voter))
            } else {
                Err(Error::BallotDoesNotExist)
            },
            r is Ok ==> final(self).ballots@ == old(self).ballots@.update(
                old(self).index_of(voter),
                Ballot { unbound: false, ..old(self).ballot_of(voter) },
            ),
            r is Ok ==> final(self).ballots@ == bind_voter(old(self).ballots@, voter),
            r is Err ==> final(self).ballots@ == old(self).ballots@,
    {
        let ghost before = self.ballots@;
        match self.position(voter) {
            Some(i) => {
                let ballot = self.ballots[i];
                self.ballots.set(i, Ballot { unbound: false, ..ballot });
                assert(self.ballots@ =~= bind_voter(before, voter));
                Ok(ballot)
            },
            None => Err(Error::BallotDoesNotExist),
        }
    }

    /// A copy of the book.
    pub fn duplicate(&self) -> (r: BallotBook)
        ensures
            r.ballots@ == self.ballots@,
    {
        let mut ballots: Vec<Ballot> = Vec::new();
        let mut i: usize = 0;
        while i < self.ballots.len()
            invariant
                i <= self.ballots@.len(),
                ballots@ == self.ballots@.subrange(0, i as int),
            decreases self.ballots@.len() - i,
        {
            ballots.push(self.ballots[i]);
            i += 1;
            assert(ballots@ =~= self.ballots@.subrange(0, i as int));
        }
        assert(ballots@ =~= self.ballots@);
        BallotBook { ballots }
    }

    /// The total stake of the active ballots with the given choice.
    pub fn total_stake(&self, choice: Choice) -> (r: Balance)
        requires
            sum_values(active_stakes_with(self.ballots@, choice)) <= u256_max(),
        ensures
            r.value() == sum_values(active_stakes_with(self.ballots@, choice)),
    {
        let mut total = U256::zero();
        let mut i: usize = 0;
        while i < self.ballots.len()
            invariant
                i <= self.ballots@.len(),
                sum_values(active_stakes_with(self.ballots@, choice)) <= u256_max(),
                total.value() == sum_values(
                    active_stakes_with(self.ballots@.subrange(0, i as int), choice),
                ),
            decreases self.ballots@.len() - i,
        {
            let b = self.ballots[i];
            let ghost prefix = self.ballots@.subrange(0, i + 1);
            proof {
                assert(prefix.drop_last() =~= self.ballots@.subrange(0, i as int));
                lemma_sum_push(
                    active_stakes_with(self.ballots@.subrange(0, i as int), choice),
                    (b.voter, b.stake),
                );
                lemma_active_sum_prefix(self.ballots@, choice, i + 1);
            }
            if !b.unbound && !b.canceled && b.choice == choice {
                total = total.checked_add(&b.stake).unwrap();
            }
            i += 1;
        }
        assert(self.ballots@.subrange(0, i as int) =~= self.ballots@);
        total
    }

    /// The voters and stakes of the active ballots with the given choice.
    fn active_stakes_of(&self, choice: Choice) -> (r: Vec<(Address, Balance)>)
        ensures
            r@ == active_stakes_with(self.ballots@, choice),
    {
        let mut r: Vec<(Address, Balance)> = Vec::new();
        let mut i: usize = 0;
        while i < self.ballots.len()
            invariant
                i <= self.ballots@.len(),
                r@ == active_stakes_with(self.ballots@.subrange(0, i as int), choice),
            decreases self.ballots@.len() - i,
        {
            let b = self.ballots[i];
            proof {
                assert(self.ballots@.subrange(0, i + 1).drop_last() =~= self.ballots@.subrange(
                    0,
                    i as int,
                ));
            }
            if !b.unbound && !b.canceled && b.choice == choice {
                r.push((b.voter, b.stake));
            }
            i += 1;
        }
        assert(self.ballots@.subrange(0, i as int) =~= self.ballots@);
        r
    }

    /// The voters and stakes of the active ballots selected as
    /// [`selected_stakes`] says.
    pub fn select_stakes(&self, choice: Option<Choice>, voter: Address, of_voter: bool) -> (r: Vec<
        (Address, Balance),
    >)
        ensures
            r@ == selected_stakes(self.ballots@, choice, voter, of_voter),
    {
        let mut r: Vec<(Address, Balance)> = Vec::new();
        let mut i: usize = 0;
        while i < self.ballots.len()
            invariant
                i <= self.ballots@.len(),
                r@ == selected_stakes(self.ballots@.subrange(0, i as int), choice, voter, of_voter),
            decreases self.ballots@.len() - i,
        {
            let b = self.ballots[i];
            proof {
                assert(self.ballots@.subrange(0, i + 1).drop_last() =~= self.ballots@.subrange(
                    0,
                    i as int,
                ));
            }
            let choice_fits = match choice {
                None => true,
                Some(c) => b.choice == c,
            };
            if !b.unbound && !b.canceled && choice_fits && ((b.voter == voter) == of_voter) {
                r.push((b.voter, b.stake));
            }
            i += 1;
        }
        assert(self.ballots@.subrange(0, i as int) =~= self.ballots@);
        r
    }

    /// The stakes returned to the voters in favor: the voter and stake of
    /// each active ballot in favor.
    pub fn return_yes_voters_rep(&self) -> (r: Vec<(Address, Balance)>)
        ensures
            r@ == active_stakes_with(self.ballots@, Choice::InFavor),
    {
        self.active_stakes_of(Choice::InFavor)
    }

    /// The stakes returned to the voters against: the voter and stake of
    /// each active ballot against.
    pub fn return_no_voters_rep(&self) -> (r: Vec<(Address, Balance)>)
        ensures
            r@ == active_stakes_with(self.ballots@, Choice::Against),
    {
        self.active_stakes_of(Choice::Against)
    }

    /// The stakes returned to every voter: the voter and stake of each
    /// active ballot.
    pub fn unstake_all_reputation(&self) -> (r: Vec<(Address, Balance)>)
        ensures
            r@ == active_stakes(self.ballots@),
    {
        let mut r: Vec<(Address, Balance)> = Vec::new();
        let mut i: usize = 0;
        while i < self.ballots.len()
            invariant
                i <= self.ballots@.len(),
                r@ == active_stakes(self.ballots@.subrange(0, i as int)),
            decreases self.ballots@.len() - i,
        {
            let b = self.ballots[i];
            proof {
                assert(self.ballots@.subrange(0, i + 1).drop_last() =~= self.ballots@.subrange(
                    0,
                    i as int,
                ));
            }
            if !b.unbound && !b.canceled {
                r.push((b.voter, b.stake));
            }
            i += 1;
        }
        assert(self.ballots@.subrange(0, i as int) =~= self.ballots@);
        r
    }

    /// Moves the losers' reputation to the winners: the stake of each active
    /// ballot against `winner` is burned, and each active ballot for
    /// `winner` is minted `total_losers * stake / total_winners`. Returns the
    /// mints and the burns, in ballot order; fails with
    /// [`Error::ArithmeticOverflow`] when a product does not fit.
    fn redistribute_reputation(
        &self,
        winner: Choice,
        total_winners: Balance,
        total_losers: Balance,
    ) -> (r: Result<(Vec<(Address, Balance)>, Vec<(Address, Balance)>), Error>)
        requires
            total_winners.value() > 0 || active_stakes_with(self.ballots@, winner).len() == 0,
        ensures
            r is Err <==> mint_overflows(self.ballots@, winner, total_losers.value()),
            r is Err ==> r == Err::<(Vec<(Address, Balance)>, Vec<(Address, Balance)>), Error>(
                Error::ArithmeticOverflow,
            ),
            r matches Ok((mints, burns)) ==> {
                &&& entry_values(mints@) == mint_amounts(
                    self.ballots@,
                    winner,
                    total_winners.value(),
                    total_losers.value(),
                )
                &&& burns@ == active_stakes_with(self.ballots@, opposite(winner))
                &&& total_winners.value() > 0 ==> minted_in_proportion(
                    mints@,
                    active_stakes_with(self.ballots@, winner),
                    total_winners.value(),
                    total_losers.value(),
                )
            },
    {
        proof {
            if total_winners.value() > 0 {
                law_winners_minted_in_proportion(
                    self.ballots@,
                    winner,
                    total_winners.value(),
                    total_losers.value(),
                );
            }
        }
        let mut mints: Vec<(Address, Balance)> = Vec::new();
        let mut burns: Vec<(Address, Balance)> = Vec::new();
        let mut i: usize = 0;
        while i < self.ballots.len()
            invariant
                i <= self.ballots@.len(),
                total_winners.value() > 0 || active_stakes_with(self.ballots@, winner).len() == 0,
                entry_values(mints@) == mint_amounts(
                    self.ballots@.subrange(0, i as int),
                    winner,
                    total_winners.value(),
                    total_losers.value(),
                ),
                burns@ == active_stakes_with(self.ballots@.subrange(0, i as int), opposite(winner)),
                forall|j: int|
                    0 <= j < i && is_active(#[trigger] self.ballots@[j]) && self.ballots@[j].choice
                        == winner ==> total_losers.value() * self.ballots@[j].stake.value()
                        <= u256_max(),
            decreases self.ballots@.len() - i,
        {
            let b = self.ballots[i];
            proof {
                assert(self.ballots@.subrange(0, i + 1).drop_last() =~= self.ballots@.subrange(
                    0,
                    i as int,
                ));
            }
            if !b.unbound && !b.canceled {
                if b.choice == winner {
                    proof {
                        lemma_active_stakes_nonempty(self.ballots@, winner, i as int);
                    }
                    match total_losers.checked_mul(&b.stake) {
                        Some(product) => {
                            let amount = match product.checked_div(&total_winners) {
                                Some(q) => q,
                                None => {
                                    return Err(Error::ArithmeticOverflow);
                                },
                            };
                            proof {
                                assert(entry_values(mints@.push((b.voter, amount))) =~= entry_values(
                                    mints@,
                                ).push((b.voter, amount.value())));
                            }
                            mints.push((b.voter, amount));
                        },
                        None => {
                            assert(mint_overflows(self.ballots@, winner, total_losers.value()));
                            return Err(Error::ArithmeticOverflow);
                        },
                    }
                } else {
                    burns.push((b.voter, b.stake));
                }
            }
            i += 1;
        }
        assert(self.ballots@.subrange(0, i as int) =~= self.ballots@);
        proof {
            if total_winners.value() > 0 {
                let winners = active_stakes_with(self.ballots@, winner);
                assert forall|k: int| 0 <= k < winners.len() implies (#[trigger] mints@[k]).0
                    == winners[k].0 && mints@[k].1.value() == total_losers.value()
                    * winners[k].1.value() / total_winners.value() by {
                    assert(entry_values(mints@)[k] == (mints@[k].0, mints@[k].1.value()));
                }
            }
        }
        Ok((mints, burns))
    }

    /// Redistributes the reputation of the voters against to the voters in
    /// favor. See [`Self::redistribute_reputation_of_yes_voters`].
    pub fn redistribute_reputation_of_no_voters(
        &self,
        total_stake_in_favor: Balance,
        total_stake_against: Balance,
    ) -> (r: Result<(Vec<(Address, Balance)>, Vec<(Address, Balance)>), Error>)
        requires
            total_stake_in_favor.value() > 0 || active_stakes_with(
                self.ballots@,
                Choice::InFavor,
            ).len() == 0,
        ensures
            r is Err <==> mint_overflows(
                self.ballots@,
                Choice::InFavor,
                total_stake_against.value(),
            ),
            r is Err ==> r == Err::<(Vec<(Address, Balance)>, Vec<(Address, Balance)>), Error>(
                Error::ArithmeticOverflow,
            ),
            r matches Ok((mints, burns)) ==> {
                &&& entry_values(mints@) == mint_amounts(
                    self.ballots@,
                    Choice::InFavor,
                    total_stake_in_favor.value(),
                    total_stake_against.value(),
                )
                &&& burns@ == active_stakes_with(self.ballots@, Choice::Against)
                &&& total_stake_in_favor.value() > 0 ==> minted_in_proportion(
                    mints@,
                    active_stakes_with(self.ballots@, Choice::InFavor),
                    total_stake_in_favor.value(),
                    total_stake_against.value(),
                )
            },
    {
        self.redistribute_reputation(Choice::InFavor, total_stake_in_favor, total_stake_against)
    }

    /// Redistributes the reputation of the voters in favor to the voters
    /// against: the stake of each active ballot in favor is burned (and
    /// returned in the burns, which are also the stakes to release), and
    /// each active ballot against is minted `total_stake_in_favor * stake /
    /// total_stake_against`, rounded down. Fails with
    /// [`Error::ArithmeticOverflow`] when a product does not fit.
    pub fn redistribute_reputation_of_yes_voters(
        &self,
        total_stake_in_favor: Balance,
        total_stake_against: Balance,
    ) -> (r: Result<(Vec<(Address, Balance)>, Vec<(Address, Balance)>), Error>)
        requires
            total_stake_against.value() > 0 || active_stakes_with(
                self.ballots@,
                Choice::Against,
            ).len() == 0,
        ensures
            r is Err <==> mint_overflows(
                self.ballots@,
                Choice::Against,
                total_stake_in_favor.value(),
            ),
            r is Err ==> r == Err::<(Vec<(Address, Balance)>, Vec<(Address, Balance)>), Error>(
                Error::ArithmeticOverflow,
            ),
            r matches Ok((mints, burns)) ==> {
                &&& entry_values(mints@) == mint_amounts(
                    self.ballots@,
                    Choice::Against,
                    total_stake_against.value(),
                    total_stake_in_favor.value(),
                )
                &&& burns@ == active_stakes_with(self.ballots@, Choice::InFavor)
                &&& total_stake_against.value() > 0 ==> minted_in_proportion(
                    mints@,
                    active_stakes_with(self.ballots@, Choice::Against),
                    total_stake_against.value(),
                    total_stake_in_favor.value(),
                )
            },
    {
        self.redistribute_reputation(Choice::Against, total_stake_against, total_stake_in_favor)
    }
}

/// The stakes of a prefix of the ballots add up to no more than those of
/// all of them.
proof fn lemma_active_sum_prefix(ballots: Seq<Ballot>, choice: Choice, n: int)
    requires
        0 <= n <= ballots.len(),
    ensures
        sum_values(active_stakes_with(ballots.subrange(0, n), choice)) <= sum_values(
            active_stakes_with(ballots, choice),
        ),
    decreases ballots.len(),
{
    if n < ballots.len() {
        let prev = ballots.drop_last();
        assert(prev.subrange(0, n) =~= ballots.subrange(0, n));
        lemma_active_sum_prefix(prev, choice, n);
        let b = ballots.last();
        if is_active(b) && b.choice == choice {
            lemma_sum_push(active_stakes_with(prev, choice), (b.voter, b.stake));
        }
    } else {
        assert(ballots.subrange(0, n) =~= ballots);
    }
}

/// An active ballot with the given choice shows in the list of stakes.
proof fn lemma_active_stakes_nonempty(ballots: Seq<Ballot>, choice: Choice, i: int)
    requires
        0 <= i < ballots.len(),
        is_active(ballots[i]),
        ballots[i].choice == choice,
    ensures
        active_stakes_with(ballots, choice).len() > 0,
    decreases ballots.len(),
{
    if i < ballots.len() - 1 {
        lemma_active_stakes_nonempty(ballots.drop_last(), choice, i);
    }
}

/// The minted amounts times the winners' total never exceed the losers'
/// total times the stakes of the winners counted so far.
proof fn lemma_mint_sum_bound(ballots: Seq<Ballot>, winner: Choice, total_winners: nat, total_losers: nat)
    requires
        total_winners > 0,
    ensures
        sum_nat(mint_amounts(ballots, winner, total_winners, total_losers)) * total_winners
            <= total_losers * sum_values(active_stakes_with(ballots, winner)),
    decreases ballots.len(),
{
    if ballots.len() == 0 {
        assert(sum_nat(mint_amounts(ballots, winner, total_winners, total_losers)) == 0);
        assert(0 * total_winners == 0) by (nonlinear_arith);
    } else {
        let prev = ballots.drop_last();
        lemma_mint_sum_bound(prev, winner, total_winners, total_losers);
        let b = ballots.last();
        if is_active(b) && b.choice == winner {
            let m = mint_amounts(prev, winner, total_winners, total_losers);
            let a = active_stakes_with(prev, winner);
            lemma_sum_push(a, (b.voter, b.stake));
            let sm = sum_nat(m);
            let sa = sum_values(a);
            let s = b.stake.value();
            let q = total_losers * s / total_winners;
            let mb = mint_amounts(ballots, winner, total_winners, total_losers);
            assert(mb == m.push((b.voter, q)));
            assert(mb.drop_last() =~= m);
            assert(sum_nat(mb) == sm + q);
            assert(active_stakes_with(ballots, winner) == a.push((b.voter, b.stake)));
            assert((sm + q) * total_winners <= total_losers * (sa + s)) by (nonlinear_arith)
                requires
                    sm * total_winners <= total_losers * sa,
                    q == total_losers * s / total_winners,
                    total_winners > 0,
            ;
            assert(sum_values(active_stakes_with(ballots, winner)) == sa + s);
            assert(sum_nat(mb) * total_winners <= total_losers * sum_values(
                active_stakes_with(ballots, winner),
            ));
        } else {
            assert(mint_amounts(ballots, winner, total_winners, total_losers) == mint_amounts(
                prev,
                winner,
                total_winners,
                total_losers,
            ));
            assert(active_stakes_with(ballots, winner) == active_stakes_with(prev, winner));
        }
    }
}

/// Redistribution never mints more reputation than it burns: when the
/// totals are the stakes of the active ballots on each side, the amounts
/// minted for the winners add up to at most the losers' burned stakes.
pub proof fn law_redistribution_mints_at_most_burns(ballots: Seq<Ballot>, winner: Choice)
    requires
        sum_values(active_stakes_with(ballots, winner)) > 0 || active_stakes_with(
            ballots,
            winner,
        ).len() == 0,
    ensures
        sum_nat(
            mint_amounts(
                ballots,
                winner,
                sum_values(active_stakes_with(ballots, winner)),
                sum_values(active_stakes_with(ballots, opposite(winner))),
            ),
        ) <= sum_values(active_stakes_with(ballots, opposite(winner))),
{
    let w = sum_values(active_stakes_with(ballots, winner));
    let l = sum_values(active_stakes_with(ballots, opposite(winner)));
    if w > 0 {
        lemma_mint_sum_bound(ballots, winner, w, l);
        let m = sum_nat(mint_amounts(ballots, winner, w, l));
        assert(m <= l) by (nonlinear_arith)
            requires
                m * w <= l * w,
                w > 0,
        ;
    } else {
        lemma_no_mints(ballots, winner, w, l);
    }
}

/// Finishing a voting releases every active stake once: the stakes in
/// favor and the stakes against add up to the stakes of all active ballots.
pub proof fn law_sides_cover_active_stakes(ballots: Seq<Ballot>)
    ensures
        side_total(ballots, Choice::InFavor) + side_total(ballots, Choice::Against) == sum_values(
            active_stakes(ballots),
        ),
    decreases ballots.len(),
{
    if ballots.len() > 0 {
        let prev = ballots.drop_last();
        law_sides_cover_active_stakes(prev);
        let b = ballots.last();
        if is_active(b) {
            lemma_sum_push(active_stakes(prev), (b.voter, b.stake));
            lemma_sum_push(active_stakes_with(prev, b.choice), (b.voter, b.stake));
        }
    }
}

/// A voting removed from the list of votings in progress is no longer in
/// it, and every other voting stays.
pub proof fn law_removed_voting_is_inactive(ids: Seq<VotingId>, id: VotingId)
    ensures
        !remove_all(ids, id).contains(id),
        forall|x: VotingId| x != id ==> (ids.contains(x) <==> remove_all(ids, id).contains(x)),
    decreases ids.len(),
{
    if ids.len() > 0 {
        law_removed_voting_is_inactive(ids.drop_last(), id);
        let r = remove_all(ids.drop_last(), id);
        assert forall|x: VotingId| x != id implies (ids.contains(x) <==> remove_all(
            ids,
            id,
        ).contains(x)) by {
            if ids.contains(x) {
                let k = choose|k: int| 0 <= k < ids.len() && ids[k] == x;
                if k < ids.len() - 1 {
                    assert(ids.drop_last()[k] == x);
                }
            }
            if ids.last() != id {
                assert(r.push(ids.last()).drop_last() =~= r);
                if remove_all(ids, id).contains(x) {
                    let k = choose|k: int|
                        0 <= k < remove_all(ids, id).len() && remove_all(ids, id)[k] == x;
                    if k < r.len() {
                        assert(r[k] == x);
                        assert(r.contains(x));
                        assert(ids.drop_last().contains(x));
                        let j = choose|j: int| 0 <= j < ids.drop_last().len() && ids.drop_last()[j]
                            == x;
                        assert(ids[j] == x);
                    }
                }
                if ids.drop_last().contains(x) {
                    let j = choose|j: int| 0 <= j < r.len() && r[j] == x;
                    assert(r.push(ids.last())[j] == x);
                }
                assert(r.push(ids.last())[r.len() as int] == ids.last());
            } else {
                if ids.drop_last().contains(x) {
                    let j = choose|j: int| 0 <= j < ids.drop_last().len() && ids.drop_last()[j]
                        == x;
                    assert(ids[j] == x);
                }
            }
        }
        if ids.last() != id {
            if r.push(ids.last()).contains(id) {
                let k = choose|k: int| 0 <= k < r.push(ids.last()).len() && r.push(ids.last())[k]
                    == id;
                if k < r.len() {
                    assert(r[k] == id);
                }
            }
        }
    }
}

/// Without active ballots on the winning side nothing is minted.
proof fn lemma_no_mints(ballots: Seq<Ballot>, winner: Choice, total_winners: nat, total_losers: nat)
    requires
        active_stakes_with(ballots, winner).len() == 0,
    ensures
        mint_amounts(ballots, winner, total_winners, total_losers).len() == 0,
    decreases ballots.len(),
{
    if ballots.len() > 0 {
        lemma_no_mints(ballots.drop_last(), winner, total_winners, total_losers);
    }
}

} // verus!

verus! {

/// The entries of a list of stakes, each with the given reason.
pub open spec fn with_reason(list: Seq<(Address, Balance)>, reason: Reason) -> Seq<
    (Address, Reason, Balance),
> {
    Seq::new(list.len(), |i: int| (list[i].0, reason, list[i].1))
}

/// The addresses and amounts of a list of entries with reasons.
pub open spec fn without_reason(list: Seq<(Address, Reason, Balance)>) -> Seq<(Address, Balance)> {
    Seq::new(list.len(), |i: int| (list[i].0, list[i].2))
}

/// The ids of a list, without any occurrence of one id.
pub open spec fn remove_all(ids: Seq<VotingId>, id: VotingId) -> Seq<VotingId>
    decreases ids.len(),
{
    if ids.len() == 0 {
        Seq::empty()
    } else if ids.last() == id {
        remove_all(ids.drop_last(), id)
    } else {
        remove_all(ids.drop_last(), id).push(ids.last())
    }
}

/// The ids of a list, in order, without any occurrence of one id.
pub fn without_id(ids: &Vec<u32>, id: u32) -> (r: Vec<u32>)
    ensures
        r@ == remove_all(ids@, id),
{
    let mut kept: Vec<u32> = Vec::new();
    let mut i: usize = 0;
    while i < ids.len()
        invariant
            i <= ids@.len(),
            kept@ == remove_all(ids@.subrange(0, i as int), id),
        decreases ids@.len() - i,
    {
        let x = ids[i];
        proof {
            assert(ids@.subrange(0, i + 1).drop_last() =~= ids@.subrange(0, i as int));
        }
        if x != id {
            kept.push(x);
        }
        i += 1;
    }
    assert(ids@.subrange(0, i as int) =~= ids@);
    kept
}

/// Appends the entries of a list of stakes to a list of entries, each with
/// the given reason.
pub fn add_to_map(
    target: &mut Vec<(Address, Reason, Balance)>,
    reason: Reason,
    source: &Vec<(Address, Balance)>,
)
    ensures
        final(target)@ == old(target)@ + with_reason(source@, reason),
{
    let ghost start = target@;
    let mut i: usize = 0;
    while i < source.len()
        invariant
            i <= source@.len(),
            target@ == start + with_reason(source@.subrange(0, i as int), reason),
        decreases source@.len() - i,
    {
        target.push((source[i].0, reason, source[i].1));
        i += 1;
        assert(target@ =~= start + with_reason(source@.subrange(0, i as int), reason));
    }
    assert(source@.subrange(0, i as int) =~= source@);
}

/// What the engine keeps of a voting: its id and creator, the phase it is
/// in, whether it is completed, whether its informal phase stakes no
/// reputation, and whether it was canceled.
#[derive(Clone, Copy, Debug, PartialEq, Eq, Structural)]
pub struct VotingRecord {
    pub voting_id: VotingId,
    pub creator: Address,
    pub voting_type: VotingType,
    pub completed: bool,
    pub informal_without_stake: bool,
    pub canceled: bool,
}

/// The result a phase is finished with: a canceled voting's is
/// [`VotingResult::Canceled`], whatever the counting gave.
pub open spec fn effective_result(v: VotingRecord, result: VotingResult) -> VotingResult {
    if v.canceled {
        VotingResult::Canceled
    } else {
        result
    }
}

/// What the engine reads of a voting when it finishes it: its id and
/// creator, the phase it is in, whether it is already completed, whether
/// its informal phase stakes no reputation, and the result the phase ended
/// with.
#[derive(Clone, Copy, Debug)]
pub struct VotingStatus {
    pub voting_id: VotingId,
    pub creator: Address,
    pub voting_type: VotingType,
    pub completed: bool,
    pub informal_without_stake: bool,
    pub result: VotingResult,
}

/// The record of a voting whose phase just finished: a passed or failed
/// informal phase moves the voting to its formal phase; otherwise the
/// voting is completed.
pub open spec fn finished_record(voting: VotingStatus) -> VotingRecord {
    if voting.voting_type == VotingType::Informal && voting.result != VotingResult::QuorumNotReached {
        VotingRecord {
            voting_id: voting.voting_id,
            creator: voting.creator,
            voting_type: VotingType::Formal,
            completed: false,
            informal_without_stake: voting.informal_without_stake,
            canceled: false,
        }
    } else {
        VotingRecord {
            voting_id: voting.voting_id,
            creator: voting.creator,
            voting_type: voting.voting_type,
            completed: true,
            informal_without_stake: voting.informal_without_stake,
            canceled: false,
        }
    }
}

/// What finishing a voting phase does.
///
/// The reputation token carries it out in this order: the action of the
/// voting is performed; the bound ballot's stake is minted and staked for
/// its voter; the unstakes are released; the burns are released and then
/// burned while the mints are minted; the recast ballot's stake is staked
/// when `stake_recast` says so.
#[derive(Debug)]
pub struct VotingSettlement {
    pub voting_id: VotingId,
    pub voting_type: VotingType,
    pub voting_result: VotingResult,
    /// The voting as it is after this phase.
    pub voting: VotingRecord,
    /// Whether the recast ballot's stake is to be staked: the informal
    /// phase staked nothing, so the creator's stake is not staked yet.
    pub stake_recast: bool,
    /// Whether the contract calls of the voting are to be made.
    pub perform_action: bool,
    /// The ballot bound to the voting, as it was before.
    pub bound_ballot: Option<Ballot>,
    /// The creator's ballot carried from the informal to the formal phase.
    pub recast_ballot: Option<Ballot>,
    pub unstakes: Vec<(Address, Reason, Balance)>,
    pub burns: Vec<(Address, Reason, Balance)>,
    pub mints: Vec<(Address, Reason, Balance)>,
}

/// The formal ballots the reputation is settled on: with the ballot of the
/// configured address bound when a successful voting binds it.
pub open spec fn settled_ballots(
    voting: VotingStatus,
    configuration: &Configuration,
    formal: Seq<Ballot>,
) -> Seq<Ballot> {
    if voting.result == VotingResult::InFavor
        && configuration.voting_configuration.bind_ballot_for_successful_voting
        && configuration.voting_configuration.unbound_ballot_address is Some {
        bind_voter(formal, configuration.voting_configuration.unbound_ballot_address->0)
    } else {
        formal
    }
}

/// The total stake of the active ballots with a choice.
pub open spec fn side_total(ballots: Seq<Ballot>, choice: Choice) -> nat {
    sum_values(active_stakes_with(ballots, choice))
}

/// The winning side's total can divide: it is positive, or no active
/// ballot is on that side.
pub open spec fn divisible(ballots: Seq<Ballot>, winner: Choice) -> bool {
    side_total(ballots, winner) > 0 || active_stakes_with(ballots, winner).len() == 0
}

/// The votings the engine knows of: the list of votings in progress, the
/// record of each voting and the configuration each voting was created
/// with. Records and configurations are logs: the last entry with an id
/// is the current one.
#[derive(Debug)]
pub struct VotingEngine {
    pub active_votings: Vec<VotingId>,
    pub votings: Vec<VotingRecord>,
    pub configurations: Vec<(VotingId, Configuration)>,
}

/// The current record of a voting: the last one logged with its id.
pub open spec fn last_record(log: Seq<VotingRecord>, id: VotingId) -> Option<VotingRecord>
    decreases log.len(),
{
    if log.len() == 0 {
        None
    } else if log.last().voting_id == id {
        Some(log.last())
    } else {
        last_record(log.drop_last(), id)
    }
}

/// The configuration of a voting: the last one logged with its id.
pub open spec fn last_configuration(log: Seq<(VotingId, Configuration)>, id: VotingId) -> Option<
    Configuration,
>
    decreases log.len(),
{
    if log.len() == 0 {
        None
    } else if log.last().0 == id {
        Some(log.last().1)
    } else {
        last_configuration(log.drop_last(), id)
    }
}

impl VotingEngine {
    /// The current record of a voting, if the engine knows of it.
    pub open spec fn voting_of(&self, id: VotingId) -> Option<VotingRecord> {
        last_record(self.votings@, id)
    }

    /// The configuration of a voting, if the engine stored one.
    pub open spec fn configuration_of(&self, id: VotingId) -> Option<Configuration> {
        last_configuration(self.configurations@, id)
    }

    /// No voting known.
    pub fn new() -> (r: VotingEngine)
        ensures
            r.active_votings@.len() == 0,
            r.votings@.len() == 0,
            r.configurations@.len() == 0,
    {
        VotingEngine { active_votings: Vec::new(), votings: Vec::new(), configurations: Vec::new() }
    }

    /// Registers a voting as in progress.
    pub fn add_to_active_list(&mut self, voting_id: VotingId)
        ensures
            final(self).active_votings@ == old(self).active_votings@.push(voting_id),
            final(self).votings@ == old(self).votings@,
            final(self).configurations@ == old(self).configurations@,
    {
        self.active_votings.push(voting_id);
    }

    /// Removes a voting from the votings in progress, keeping the order of
    /// the others.
    pub fn remove_from_active_list(&mut self, voting_id: VotingId)
        ensures
            final(self).active_votings@ == remove_all(old(self).active_votings@, voting_id),
            final(self).votings@ == old(self).votings@,
            final(self).configurations@ == old(self).configurations@,
    {
        self.active_votings = without_id(&self.active_votings, voting_id);
    }

    /// The current record of a voting, if the engine knows of it.
    pub fn get_voting(&self, voting_id: VotingId) -> (r: Option<VotingRecord>)
        ensures
            r == self.voting_of(voting_id),
    {
        let mut i: usize = self.votings.len();
        assert(self.votings@.subrange(0, i as int) =~= self.votings@);
        while i > 0
            invariant
                i <= self.votings@.len(),
                last_record(self.votings@, voting_id) == last_record(
                    self.votings@.subrange(0, i as int),
                    voting_id,
                ),
            decreases i,
        {
            let record = self.votings[i - 1];
            let ghost prefix = self.votings@.subrange(0, i as int);
            assert(prefix.last() == record);
            if record.voting_id == voting_id {
                return Some(record);
            }
            assert(prefix.drop_last() =~= self.votings@.subrange(0, i - 1));
            i -= 1;
        }
        assert(self.votings@.subrange(0, 0).len() == 0);
        None
    }

    /// The current record of a voting, or [`Error::VotingDoesNotExist`].
    pub fn get_voting_or_revert(&self, voting_id: VotingId) -> (r: Result<VotingRecord, Error>)
        ensures
            self.voting_of(voting_id) matches Some(v) ==> r == Ok::<VotingRecord, Error>(v),
            self.voting_of(voting_id) is None ==> r == Err::<VotingRecord, Error>(
                Error::VotingDoesNotExist,
            ),
    {
        match self.get_voting(voting_id) {
            Some(v) => Ok(v),
            None => Err(Error::VotingDoesNotExist),
        }
    }

    /// A copy of the configuration of a voting, if the engine stored one.
    pub fn get_configuration(&self, voting_id: VotingId) -> (r: Option<Configuration>)
        ensures
            r is Some <==> self.configuration_of(voting_id) is Some,
            r matches Some(c) ==> c.same_as(&self.configuration_of(voting_id)->0),
    {
        let mut i: usize = self.configurations.len();
        assert(self.configurations@.subrange(0, i as int) =~= self.configurations@);
        while i > 0
            invariant
                i <= self.configurations@.len(),
                last_configuration(self.configurations@, voting_id) == last_configuration(
                    self.configurations@.subrange(0, i as int),
                    voting_id,
                ),
            decreases i,
        {
            let ghost prefix = self.configurations@.subrange(0, i as int);
            assert(prefix.last() == self.configurations@[i - 1]);
            if self.configurations[i - 1].0 == voting_id {
                return Some(self.configurations[i - 1].1.clone());
            }
            assert(prefix.drop_last() =~= self.configurations@.subrange(0, i - 1));
            i -= 1;
        }
        assert(self.configurations@.subrange(0, 0).len() == 0);
        None
    }

    /// A copy of the configuration of a voting, or
    /// [`Error::ConfigurationNotFound`].
    pub fn get_configuration_or_revert(&self, voting_id: VotingId) -> (r: Result<
        Configuration,
        Error,
    >)
        ensures
            r is Ok <==> self.configuration_of(voting_id) is Some,
            r matches Ok(c) ==> c.same_as(&self.configuration_of(voting_id)->0),
            r matches Err(e) ==> e == Error::ConfigurationNotFound,
    {
        match self.get_configuration(voting_id) {
            Some(c) => Ok(c),
            None => Err(Error::ConfigurationNotFound),
        }
    }
}


/// Why finishing the informal phase fails, if it does: a voting that passed
/// or failed carries its creator's ballot to the formal phase, and that
/// ballot must exist.
pub open spec fn informal_refusal(voting: VotingStatus, informal: &BallotBook) -> Option<Error> {
    if (voting.result == VotingResult::InFavor || voting.result == VotingResult::Against)
        && !informal.has_voted(voting.creator) {
        Some(Error::BallotDoesNotExist)
    } else {
        None
    }
}

/// Why finishing the formal phase fails, if it does: binding needs an
/// address with a ballot, and the minted amounts must fit.
pub open spec fn formal_refusal(
    voting: VotingStatus,
    configuration: &Configuration,
    formal: &BallotBook,
) -> Option<Error> {
    let binds = voting.result == VotingResult::InFavor
        && configuration.voting_configuration.bind_ballot_for_successful_voting;
    let address = configuration.voting_configuration.unbound_ballot_address;
    let b = settled_ballots(voting, configuration, formal.ballots@);
    if binds && address is None {
        Some(Error::InvalidAddress)
    } else if binds && !formal.has_voted(address->0) {
        Some(Error::BallotDoesNotExist)
    } else if voting.result == VotingResult::InFavor && mint_overflows(
        b,
        Choice::InFavor,
        side_total(b, Choice::Against),
    ) {
        Some(Error::ArithmeticOverflow)
    } else if voting.result == VotingResult::Against && mint_overflows(
        b,
        Choice::Against,
        side_total(b, Choice::InFavor),
    ) {
        Some(Error::ArithmeticOverflow)
    } else {
        None
    }
}

/// The creator's ballot in the formal phase: in favor, with the stake and
/// the binding of the creator's informal ballot.
pub open spec fn recast_of(voting: VotingStatus, informal: &BallotBook) -> Ballot {
    Ballot {
        voter: voting.creator,
        voting_id: voting.voting_id,
        voting_type: VotingType::Formal,
        choice: Choice::InFavor,
        stake: informal.ballot_of(voting.creator).stake,
        unbound: informal.ballot_of(voting.creator).unbound,
        canceled: false,
    }
}

/// Every entry has the given reason.
pub open spec fn all_with_reason(list: Seq<(Address, Reason, Balance)>, reason: Reason) -> bool {
    forall|i: int| 0 <= i < list.len() ==> (#[trigger] list[i]).1 == reason
}

/// What finishing the informal phase of a voting gives: the refusal, if
/// any; otherwise the stakes of the voters other than the creator returned
/// (unless the phase staked nothing); without quorum the creator's stake
/// burned and the voting stopped; with a result the creator's ballot
/// carried to the formal phase.
pub open spec fn informal_settlement(
    voting: VotingStatus,
    informal: BallotBook,
    formal_before: Seq<Ballot>,
    formal_after: Seq<Ballot>,
    active_before: Seq<VotingId>,
    active_after: Seq<VotingId>,
    r: Result<VotingSettlement, Error>,
) -> bool {
    &&& informal_refusal(voting, &informal) matches Some(e) ==> r == Err::<VotingSettlement, Error>(
        e,
    )
    &&& informal_refusal(voting, &informal) is None ==> r is Ok
    &&& r matches Ok(s) ==> {
        &&& s.voting_id == voting.voting_id
        &&& s.voting_type == VotingType::Informal
        &&& s.voting_result == voting.result
        &&& !s.perform_action
        &&& s.bound_ballot is None
        &&& s.voting == finished_record(voting)
        &&& s.unstakes@ == if voting.informal_without_stake {
            Seq::empty()
        } else {
            with_reason(
                stakes_of_others(informal.ballots@, Choice::InFavor, voting.creator),
                Reason::InformalFinished,
            ) + with_reason(
                stakes_of_others(informal.ballots@, Choice::Against, voting.creator),
                Reason::InformalFinished,
            )
        }
        &&& s.mints@.len() == 0
        &&& voting.result == VotingResult::QuorumNotReached ==> {
            &&& s.burns@ == if voting.informal_without_stake {
                Seq::empty()
            } else {
                with_reason(
                    stakes_of_voter(informal.ballots@, voting.creator),
                    Reason::InformalFinished,
                )
            }
            &&& !s.stake_recast
            &&& s.recast_ballot is None
            &&& formal_after == formal_before
            &&& active_after == remove_all(active_before, voting.voting_id)
        }
        &&& voting.result != VotingResult::QuorumNotReached ==> {
            &&& s.burns@.len() == 0
            &&& s.stake_recast == (voting.informal_without_stake && !recast_of(
                voting,
                &informal,
            ).unbound)
            &&& s.recast_ballot == Some(recast_of(voting, &informal))
            &&& formal_after == formal_before.push(recast_of(voting, &informal))
            &&& active_after == active_before
        }
    }
}

/// What finishing the formal phase of a voting gives: the refusal, if any;
/// otherwise the voting stops; if it passed, its action is performed, the
/// configured unbound ballot is bound, the stakes in favor are returned and
/// the voters against lose their stakes to the voters in favor; if it
/// failed, the other way round; without quorum the stakes of the voters
/// other than the creator are returned and the creator's stake is burned.
pub open spec fn formal_settlement(
    voting: VotingStatus,
    configuration: Configuration,
    formal_before: BallotBook,
    formal_after: Seq<Ballot>,
    active_before: Seq<VotingId>,
    active_after: Seq<VotingId>,
    r: Result<VotingSettlement, Error>,
) -> bool {
    let b = settled_ballots(voting, &configuration, formal_before.ballots@);
    let binds = voting.result == VotingResult::InFavor
        && configuration.voting_configuration.bind_ballot_for_successful_voting;
    &&& formal_refusal(voting, &configuration, &formal_before) matches Some(e) ==> r == Err::<
        VotingSettlement,
        Error,
    >(e)
    &&& formal_refusal(voting, &configuration, &formal_before) is None ==> r is Ok
    &&& r matches Ok(s) ==> {
        &&& s.voting_id == voting.voting_id
        &&& s.voting_type == VotingType::Formal
        &&& s.voting_result == voting.result
        &&& s.perform_action == (voting.result == VotingResult::InFavor)
        &&& s.recast_ballot is None
        &&& !s.stake_recast
        &&& s.voting == finished_record(voting)
        &&& s.bound_ballot == if binds {
            Some(
                formal_before.ballot_of(
                    configuration.voting_configuration.unbound_ballot_address->0,
                ),
            )
        } else {
            None::<Ballot>
        }
        &&& formal_after == b
        &&& active_after == remove_all(active_before, voting.voting_id)
        &&& voting.result == VotingResult::InFavor ==> {
            &&& s.unstakes@ == with_reason(
                active_stakes_with(b, Choice::InFavor),
                Reason::FormalFinished,
            )
            &&& s.burns@ == with_reason(active_stakes_with(b, Choice::Against), Reason::FormalLost)
            &&& all_with_reason(s.mints@, Reason::FormalWon)
            &&& entry_values(without_reason(s.mints@)) == mint_amounts(
                b,
                Choice::InFavor,
                side_total(b, Choice::InFavor),
                side_total(b, Choice::Against),
            )
        }
        &&& voting.result == VotingResult::Against ==> {
            &&& s.unstakes@ == with_reason(
                active_stakes_with(b, Choice::Against),
                Reason::FormalFinished,
            )
            &&& s.burns@ == with_reason(active_stakes_with(b, Choice::InFavor), Reason::FormalLost)
            &&& all_with_reason(s.mints@, Reason::FormalWon)
            &&& entry_values(without_reason(s.mints@)) == mint_amounts(
                b,
                Choice::Against,
                side_total(b, Choice::Against),
                side_total(b, Choice::InFavor),
            )
        }
        &&& voting.result == VotingResult::QuorumNotReached ==> {
            &&& s.unstakes@ == with_reason(
                stakes_of_others(b, Choice::InFavor, voting.creator),
                Reason::FormalFinished,
            ) + with_reason(
                stakes_of_others(b, Choice::Against, voting.creator),
                Reason::FormalFinished,
            )
            &&& s.burns@ == with_reason(stakes_of_voter(b, voting.creator), Reason::FormalFinished)
            &&& s.mints@.len() == 0
        }
    }
}

/// The formal ballots of a voting can be settled without an overflow of
/// the totals, and the winning side's total can divide.
pub open spec fn formal_settleable(
    voting: VotingStatus,
    configuration: Configuration,
    formal: Seq<Ballot>,
) -> bool {
    let b = settled_ballots(voting, &configuration, formal);
    &&& side_total(b, Choice::InFavor) <= u256_max()
    &&& side_total(b, Choice::Against) <= u256_max()
    &&& voting.result == VotingResult::InFavor ==> divisible(b, Choice::InFavor)
    &&& voting.result == VotingResult::Against ==> divisible(b, Choice::Against)
}

/// What the engine reads of a voting it finishes: its record and the
/// result its phase ended with.
pub open spec fn status_of(v: VotingRecord, result: VotingResult) -> VotingStatus {
    VotingStatus {
        voting_id: v.voting_id,
        creator: v.creator,
        voting_type: v.voting_type,
        completed: v.completed,
        informal_without_stake: v.informal_without_stake,
        result,
    }
}

/// A configuration equal to another but for the time between the votings,
/// which it doubles.
pub open spec fn doubled_of(after: Configuration, before: Configuration) -> bool {
    &&& after.voting_configuration.double_time_between_votings
    &&& after.dao_configuration == before.dao_configuration
    &&& after.total_onboarded == before.total_onboarded
    &&& after.fiat_rate == before.fiat_rate
    &&& after.voting_configuration.is_bid_escrow == before.voting_configuration.is_bid_escrow
    &&& after.voting_configuration.bind_ballot_for_successful_voting
        == before.voting_configuration.bind_ballot_for_successful_voting
    &&& after.voting_configuration.unbound_ballot_address
        == before.voting_configuration.unbound_ballot_address
    &&& same_calls(
        after.voting_configuration.contract_calls@,
        before.voting_configuration.contract_calls@,
    )
    &&& after.voting_configuration.only_va_can_create
        == before.voting_configuration.only_va_can_create
}

/// The error for a phase whose time has not passed.
pub open spec fn time_not_reached(voting_type: VotingType) -> Error {
    match voting_type {
        VotingType::Informal => Error::InformalVotingTimeNotReached,
        VotingType::Formal => Error::FormalVotingTimeNotReached,
    }
}

impl VotingEngine {
    /// Finishes the current phase of a voting and settles the voters'
    /// reputation.
    ///
    /// The result is the one the phase ended with; `phase_end` is the time
    /// the phase ends at. Fails, in this order, when the voting does not
    /// exist, has no configuration, is not in the given phase, is completed,
    /// when the phase's time has not passed, or when the voting was
    /// canceled. The voting's new record is logged: a passed or failed
    /// informal phase moves it to its formal phase, otherwise it is
    /// completed. When such an informal phase asks for it
    /// (`double_time`), the voting's configuration is logged again with the
    /// time between the votings doubled.
    ///
    /// The reputation is settled as [`informal_settlement`] and
    /// [`formal_settlement`] say: the stakes of the voters are returned, but
    /// for the creator's, which a passed or failed informal phase carries to
    /// the formal phase and which is burned when a phase ends without
    /// quorum; a formal phase that passed or failed moves the losers' stakes
    /// to the winners.
    pub fn finish_voting(
        &mut self,
        voting_id: VotingId,
        voting_type: VotingType,
        result: VotingResult,
        block_time: BlockTime,
        phase_end: BlockTime,
        double_time: bool,
        informal: &BallotBook,
        formal: &mut BallotBook,
    ) -> (r: Result<VotingSettlement, Error>)
        requires
            informal.wf(),
            old(formal).wf(),
            ({
                let v = old(self).voting_of(voting_id)->0;
                let c = old(self).configuration_of(voting_id)->0;
                &&& old(self).voting_of(voting_id) is Some && v.voting_type == VotingType::Informal
                    ==> old(formal).ballots@.len() == 0
                &&& old(self).voting_of(voting_id) is Some && old(self).configuration_of(voting_id)
                    is Some && v.voting_type == VotingType::Formal ==> formal_settleable(
                    status_of(v, result),
                    c,
                    old(formal).ballots@,
                )
            }),
        ensures
            final(formal).wf(),
            ({
                let c = old(self).configuration_of(voting_id)->0;
                let doubles = r is Ok && voting_type == VotingType::Informal && result
                    != VotingResult::QuorumNotReached && double_time;
                &&& !doubles ==> final(self).configurations@ == old(self).configurations@
                &&& doubles ==> {
                    &&& final(self).configurations@.drop_last() == old(self).configurations@
                    &&& final(self).configurations@.len() == old(self).configurations@.len() + 1
                    &&& final(self).configuration_of(voting_id) is Some
                    &&& doubled_of(final(self).configuration_of(voting_id)->0, c)
                }
            }),
            old(self).voting_of(voting_id) is None ==> r == Err::<VotingSettlement, Error>(
                Error::VotingDoesNotExist,
            ),
            old(self).voting_of(voting_id) is Some && old(self).configuration_of(voting_id) is None
                ==> r == Err::<VotingSettlement, Error>(Error::ConfigurationNotFound),
            ({
                let v = old(self).voting_of(voting_id)->0;
                old(self).voting_of(voting_id) is Some && old(self).configuration_of(voting_id)
                    is Some
            }) ==> {
                let v = old(self).voting_of(voting_id)->0;
                &&& v.voting_type != voting_type ==> r == Err::<VotingSettlement, Error>(
                    Error::VotingWithGivenTypeNotInProgress,
                )
                &&& v.voting_type == voting_type && v.completed ==> r == Err::<
                    VotingSettlement,
                    Error,
                >(Error::FinishingCompletedVotingNotAllowed)
                &&& v.voting_type == voting_type && !v.completed && block_time < phase_end ==> r
                    == Err::<VotingSettlement, Error>(time_not_reached(voting_type))
                &&& v.voting_type == voting_type && !v.completed && block_time >= phase_end
                    && effective_result(v, result) == VotingResult::Canceled ==> r == Err::<
                    VotingSettlement,
                    Error,
                >(
                    Error::VotingAlreadyCanceled,
                )
            },
            r is Err ==> final(self).active_votings@ == old(self).active_votings@
                && final(self).votings@ == old(self).votings@ && final(formal).ballots@ == old(
                formal,
            ).ballots@,
            r matches Ok(s) ==> final(self).votings@ == old(self).votings@.push(s.voting)
                && final(self).voting_of(voting_id) == Some(s.voting),
            r is Ok ==> forall|x: VotingId|
                x != voting_id ==> #[trigger] final(self).voting_of(x) == old(self).voting_of(x)
                    && final(self).configuration_of(x) == old(self).configuration_of(x),
            ({
                let v = old(self).voting_of(voting_id)->0;
                &&& old(self).voting_of(voting_id) is Some
                &&& old(self).configuration_of(voting_id) is Some
                &&& v.voting_type == voting_type
                &&& !v.completed
                &&& block_time >= phase_end
                &&& effective_result(v, result) != VotingResult::Canceled
            }) ==> {
                let v = old(self).voting_of(voting_id)->0;
                let c = old(self).configuration_of(voting_id)->0;
                &&& voting_type == VotingType::Informal ==> informal_settlement(
                    status_of(v, result),
                    *informal,
                    old(formal).ballots@,
                    final(formal).ballots@,
                    old(self).active_votings@,
                    final(self).active_votings@,
                    r,
                )
                &&& voting_type == VotingType::Formal ==> formal_settlement(
                    status_of(v, result),
                    c,
                    *old(formal),
                    final(formal).ballots@,
                    old(self).active_votings@,
                    final(self).active_votings@,
                    r,
                )
            },
    {
        let record = self.get_voting_or_revert(voting_id)?;
        let configuration = self.get_configuration_or_revert(voting_id)?;
        if record.voting_type != voting_type {
            return Err(Error::VotingWithGivenTypeNotInProgress);
        }
        if record.completed {
            return Err(Error::FinishingCompletedVotingNotAllowed);
        }
        if block_time < phase_end {
            return match voting_type {
                VotingType::Informal => Err(Error::InformalVotingTimeNotReached),
                VotingType::Formal => Err(Error::FormalVotingTimeNotReached),
            };
        }
        if result == VotingResult::Canceled || record.canceled {
            return Err(Error::VotingAlreadyCanceled);
        }
        let voting = VotingStatus {
            voting_id: record.voting_id,
            creator: record.creator,
            voting_type: record.voting_type,
            completed: record.completed,
            informal_without_stake: record.informal_without_stake,
            result,
        };
        let ghost stored = self.configuration_of(voting_id)->0;
        proof {
            lemma_last_record_id(self.votings@, voting_id);
        }
        let settlement = match voting_type {
            VotingType::Informal => self.settle_informal_phase(&voting, informal, formal),
            VotingType::Formal => self.settle_formal_phase(&voting, &configuration, formal),
        };
        match settlement {
            Ok(s) => {
                proof {
                    assert(settled_ballots(voting, &configuration, old(formal).ballots@)
                        == settled_ballots(voting, &stored, old(formal).ballots@));
                }
                let ghost log = self.votings@;
                self.votings.push(s.voting);
                proof {
                    assert(self.votings@.drop_last() =~= old(self).votings@);
                    assert forall|x: VotingId| x != voting_id implies #[trigger] self.voting_of(x)
                        == old(self).voting_of(x) by {
                        law_record_read_back(log, s.voting, x);
                    }
                }
                if voting_type == VotingType::Informal && result != VotingResult::QuorumNotReached
                    && double_time {
                    let mut doubled = configuration.clone();
                    doubled.double_time_between_votings();
                    let ghost configs = self.configurations@;
                    self.configurations.push((voting_id, doubled));
                    proof {
                        assert(self.configurations@.drop_last() =~= old(self).configurations@);
                        assert forall|x: VotingId| x != voting_id implies #[trigger]
                            self.configuration_of(x) == old(self).configuration_of(x) by {
                            law_configuration_read_back(configs, voting_id, doubled, x);
                        }
                    }
                }
                Ok(s)
            },
            Err(e) => Err(e),
        }
    }
}

/// A voting's record, once logged, is the one read back for that voting,
/// and logging it leaves what is read for every other voting unchanged.
pub proof fn law_record_read_back(log: Seq<VotingRecord>, record: VotingRecord, other: VotingId)
    ensures
        last_record(log.push(record), record.voting_id) == Some(record),
        other != record.voting_id ==> last_record(log.push(record), other) == last_record(
            log,
            other,
        ),
{
    assert(log.push(record).drop_last() =~= log);
}

/// A voting's configuration, once logged, is the one read back for that
/// voting, and logging it leaves what is read for every other voting
/// unchanged: a voting keeps the configuration it was created with until
/// its own configuration is logged again.
pub proof fn law_configuration_read_back(
    log: Seq<(VotingId, Configuration)>,
    id: VotingId,
    configuration: Configuration,
    other: VotingId,
)
    ensures
        last_configuration(log.push((id, configuration)), id) == Some(configuration),
        other != id ==> last_configuration(log.push((id, configuration)), other)
            == last_configuration(log, other),
{
    assert(log.push((id, configuration)).drop_last() =~= log);
}

/// The entry is the voter and stake of an active ballot of the list.
pub open spec fn from_active_ballot(ballots: Seq<Ballot>, entry: (Address, Balance)) -> bool {
    exists|j: int|
        0 <= j < ballots.len() && is_active(#[trigger] ballots[j]) && ballots[j].voter == entry.0
            && ballots[j].stake == entry.1
}

/// Finishing a voting settles only the ballots of its phase that count:
/// every stake it returns, burns or mints for comes from an active ballot of
/// the list, never from an unbound or canceled one.
pub proof fn law_settlement_uses_active_ballots_only(
    ballots: Seq<Ballot>,
    choice: Option<Choice>,
    voter: Address,
    of_voter: bool,
    side: Choice,
)
    ensures
        forall|i: int|
            0 <= i < selected_stakes(ballots, choice, voter, of_voter).len() ==> from_active_ballot(
                ballots,
                #[trigger] selected_stakes(ballots, choice, voter, of_voter)[i],
            ),
        forall|i: int|
            0 <= i < active_stakes_with(ballots, side).len() ==> from_active_ballot(
                ballots,
                #[trigger] active_stakes_with(ballots, side)[i],
            ),
    decreases ballots.len(),
{
    if ballots.len() > 0 {
        let rest = ballots.drop_last();
        law_settlement_uses_active_ballots_only(rest, choice, voter, of_voter, side);
        let n = ballots.len() - 1;
        assert forall|i: int|
            0 <= i < selected_stakes(ballots, choice, voter, of_voter).len() implies from_active_ballot(
            ballots,
            #[trigger] selected_stakes(ballots, choice, voter, of_voter)[i],
        ) by {
            let e = selected_stakes(ballots, choice, voter, of_voter)[i];
            if i < selected_stakes(rest, choice, voter, of_voter).len() {
                assert(e == selected_stakes(rest, choice, voter, of_voter)[i]);
                let j = choose|j: int|
                    0 <= j < rest.len() && is_active(#[trigger] rest[j]) && rest[j].voter == e.0
                        && rest[j].stake == e.1;
                assert(ballots[j] == rest[j]);
            } else {
                assert(is_active(ballots[n]));
            }
        }
        assert forall|i: int|
            0 <= i < active_stakes_with(ballots, side).len() implies from_active_ballot(
            ballots,
            #[trigger] active_stakes_with(ballots, side)[i],
        ) by {
            let e = active_stakes_with(ballots, side)[i];
            if i < active_stakes_with(rest, side).len() {
                assert(e == active_stakes_with(rest, side)[i]);
                let j = choose|j: int|
                    0 <= j < rest.len() && is_active(#[trigger] rest[j]) && rest[j].voter == e.0
                        && rest[j].stake == e.1;
                assert(ballots[j] == rest[j]);
            } else {
                assert(is_active(ballots[n]));
            }
        }
    }
}

/// The ballot's voter and stake.
pub open spec fn stake_entry(b: Ballot) -> (Address, Balance) {
    (b.voter, b.stake)
}

/// The stakes of one side are the voters and stakes of exactly the ballots
/// that count (neither unbound nor canceled) with that choice, in the order
/// they were cast: none is left out, none added.
pub proof fn law_side_is_its_counting_ballots(ballots: Seq<Ballot>, choice: Choice)
    ensures
        active_stakes_with(ballots, choice) == ballots.filter(
            |b: Ballot| is_active(b) && b.choice == choice,
        ).map_values(|b: Ballot| stake_entry(b)),
    decreases ballots.len(),
{
    reveal(Seq::filter);
    let pred = |b: Ballot| is_active(b) && b.choice == choice;
    let f = |b: Ballot| stake_entry(b);
    if ballots.len() == 0 {
        assert(ballots.filter(pred).map_values(f) =~= Seq::<(Address, Balance)>::empty());
    } else {
        let prev = ballots.drop_last();
        law_side_is_its_counting_ballots(prev, choice);
        let sub = prev.filter(pred);
        if pred(ballots.last()) {
            assert(ballots.filter(pred) == sub.push(ballots.last()));
            assert(sub.push(ballots.last()).map_values(f) =~= sub.map_values(f).push(
                f(ballots.last()),
            ));
        } else {
            assert(ballots.filter(pred) == sub);
        }
    }
}

/// The stakes selected for a settlement are the voters and stakes of
/// exactly the ballots that count, with the choice asked for (any for
/// `None`), and that are, or are not (`of_voter`), the given voter's, in the
/// order they were cast.
pub proof fn law_selected_stakes_are_their_ballots(
    ballots: Seq<Ballot>,
    choice: Option<Choice>,
    voter: Address,
    of_voter: bool,
)
    ensures
        selected_stakes(ballots, choice, voter, of_voter) == ballots.filter(
            |b: Ballot|
                is_active(b) && (choice is None || b.choice == choice->0) && ((b.voter == voter)
                    == of_voter),
        ).map_values(|b: Ballot| stake_entry(b)),
    decreases ballots.len(),
{
    reveal(Seq::filter);
    let pred = |b: Ballot|
        is_active(b) && (choice is None || b.choice == choice->0) && ((b.voter == voter)
            == of_voter);
    let f = |b: Ballot| stake_entry(b);
    if ballots.len() == 0 {
        assert(ballots.filter(pred).map_values(f) =~= Seq::<(Address, Balance)>::empty());
    } else {
        let prev = ballots.drop_last();
        law_selected_stakes_are_their_ballots(prev, choice, voter, of_voter);
        let sub = prev.filter(pred);
        if pred(ballots.last()) {
            assert(ballots.filter(pred) == sub.push(ballots.last()));
            assert(sub.push(ballots.last()).map_values(f) =~= sub.map_values(f).push(
                f(ballots.last()),
            ));
        } else {
            assert(ballots.filter(pred) == sub);
        }
    }
}

/// The record found for an id carries that id.
proof fn lemma_last_record_id(log: Seq<VotingRecord>, id: VotingId)
    ensures
        last_record(log, id) matches Some(v) ==> v.voting_id == id,
    decreases log.len(),
{
    if log.len() > 0 && log.last().voting_id != id {
        lemma_last_record_id(log.drop_last(), id);
    }
}


impl VotingEngine {
    /// Settles the end of the informal phase.
    fn settle_informal_phase(
        &mut self,
        voting: &VotingStatus,
        informal: &BallotBook,
        formal: &mut BallotBook,
    ) -> (r: Result<VotingSettlement, Error>)
        requires
            informal.wf(),
            old(formal).wf(),
            old(formal).ballots@.len() == 0,
            voting.voting_type == VotingType::Informal,
            voting.result != VotingResult::Canceled,
        ensures
            final(formal).wf(),
            final(self).votings@ == old(self).votings@,
            final(self).configurations@ == old(self).configurations@,
            r is Err ==> final(self).active_votings@ == old(self).active_votings@
                && final(formal).ballots@ == old(formal).ballots@,
            informal_settlement(
                *voting,
                *informal,
                old(formal).ballots@,
                final(formal).ballots@,
                old(self).active_votings@,
                final(self).active_votings@,
                r,
            ),
    {
        let mut unstakes: Vec<(Address, Reason, Balance)> = Vec::new();
        let mut burns: Vec<(Address, Reason, Balance)> = Vec::new();
        if !voting.informal_without_stake {
            let yes_unstakes = informal.select_stakes(Some(Choice::InFavor), voting.creator, false);
            let no_unstakes = informal.select_stakes(Some(Choice::Against), voting.creator, false);
            add_to_map(&mut unstakes, Reason::InformalFinished, &yes_unstakes);
            add_to_map(&mut unstakes, Reason::InformalFinished, &no_unstakes);
        }
        let mut recast_ballot: Option<Ballot> = None;
        let mut stake_recast = false;
        let mut record = VotingRecord {
            voting_id: voting.voting_id,
            creator: voting.creator,
            voting_type: VotingType::Informal,
            completed: true,
            informal_without_stake: voting.informal_without_stake,
            canceled: false,
        };
        match voting.result {
            VotingResult::QuorumNotReached => {
                if !voting.informal_without_stake {
                    let own = informal.select_stakes(None, voting.creator, true);
                    add_to_map(&mut burns, Reason::InformalFinished, &own);
                }
                self.remove_from_active_list(voting.voting_id);
            },
            _ => {
                let creator_ballot = match informal.get_ballot(voting.creator) {
                    Some(b) => b,
                    None => {
                        return Err(Error::BallotDoesNotExist);
                    },
                };
                let ballot = Ballot::new(
                    voting.creator,
                    voting.voting_id,
                    VotingType::Formal,
                    Choice::InFavor,
                    creator_ballot.stake,
                    creator_ballot.unbound,
                    false,
                );
                formal.record_ballot(ballot);
                recast_ballot = Some(ballot);
                stake_recast = voting.informal_without_stake && !creator_ballot.unbound;
                record = VotingRecord {
                    voting_type: VotingType::Formal,
                    completed: false,
                    ..record
                };
            },
        }
        Ok(
            VotingSettlement {
                voting_id: voting.voting_id,
                voting_type: VotingType::Informal,
                voting_result: voting.result,
                voting: record,
                stake_recast,
                perform_action: false,
                bound_ballot: None,
                recast_ballot,
                unstakes,
                burns,
                mints: Vec::new(),
            },
        )
    }

    /// Settles the end of the formal phase.
    fn settle_formal_phase(
        &mut self,
        voting: &VotingStatus,
        configuration: &Configuration,
        formal: &mut BallotBook,
    ) -> (r: Result<VotingSettlement, Error>)
        requires
            old(formal).wf(),
            voting.voting_type == VotingType::Formal,
            voting.result != VotingResult::Canceled,
            formal_settleable(*voting, *configuration, old(formal).ballots@),
        ensures
            final(formal).wf(),
            final(self).votings@ == old(self).votings@,
            final(self).configurations@ == old(self).configurations@,
            r is Err ==> final(self).active_votings@ == old(self).active_votings@
                && final(formal).ballots@ == old(formal).ballots@,
            formal_settlement(
                *voting,
                *configuration,
                *old(formal),
                final(formal).ballots@,
                old(self).active_votings@,
                final(self).active_votings@,
                r,
            ),
    {
        let ghost b = settled_ballots(*voting, configuration, old(formal).ballots@);
        let mut book = formal.duplicate();
        let mut bound_ballot: Option<Ballot> = None;
        let mut unstakes: Vec<(Address, Reason, Balance)> = Vec::new();
        let mut burns: Vec<(Address, Reason, Balance)> = Vec::new();
        let mut mints: Vec<(Address, Reason, Balance)> = Vec::new();
        match voting.result {
            VotingResult::InFavor => {
                if configuration.should_bind_ballot_for_successful_voting() {
                    let worker = match configuration.get_unbound_ballot_address() {
                        Some(a) => a,
                        None => {
                            return Err(Error::InvalidAddress);
                        },
                    };
                    let ballot = book.bound_ballot(worker)?;
                    bound_ballot = Some(ballot);
                }
                assert(book.ballots@ == b);
                let yes_unstakes = book.return_yes_voters_rep();
                let total_in_favor = book.total_stake(Choice::InFavor);
                let total_against = book.total_stake(Choice::Against);
                let (won, lost) = book.redistribute_reputation_of_no_voters(
                    total_in_favor,
                    total_against,
                )?;
                add_to_map(&mut unstakes, Reason::FormalFinished, &yes_unstakes);
                add_to_map(&mut mints, Reason::FormalWon, &won);
                add_to_map(&mut burns, Reason::FormalLost, &lost);
                proof {
                    assert(without_reason(mints@) =~= won@);
                }
            },
            VotingResult::Against => {
                let no_unstakes = book.return_no_voters_rep();
                let total_in_favor = book.total_stake(Choice::InFavor);
                let total_against = book.total_stake(Choice::Against);
                let (won, lost) = book.redistribute_reputation_of_yes_voters(
                    total_in_favor,
                    total_against,
                )?;
                add_to_map(&mut unstakes, Reason::FormalFinished, &no_unstakes);
                add_to_map(&mut mints, Reason::FormalWon, &won);
                add_to_map(&mut burns, Reason::FormalLost, &lost);
                proof {
                    assert(without_reason(mints@) =~= won@);
                }
            },
            _ => {
                let yes_unstakes = book.select_stakes(Some(Choice::InFavor), voting.creator, false);
                let no_unstakes = book.select_stakes(Some(Choice::Against), voting.creator, false);
                let own = book.select_stakes(None, voting.creator, true);
                add_to_map(&mut unstakes, Reason::FormalFinished, &yes_unstakes);
                add_to_map(&mut unstakes, Reason::FormalFinished, &no_unstakes);
                add_to_map(&mut burns, Reason::FormalFinished, &own);
            },
        }
        self.remove_from_active_list(voting.voting_id);
        *formal = book;
        Ok(
            VotingSettlement {
                voting_id: voting.voting_id,
                voting_type: VotingType::Formal,
                voting_result: voting.result,
                voting: VotingRecord {
                    voting_id: voting.voting_id,
                    creator: voting.creator,
                    voting_type: VotingType::Formal,
                    completed: true,
                    informal_without_stake: voting.informal_without_stake,
                    canceled: false,
                },
                stake_recast: false,
                perform_action: voting.result == VotingResult::InFavor,
                bound_ballot,
                recast_ballot: None,
                unstakes,
                burns,
                mints,
            },
        )
    }
}


/// A voting just created: the event telling of it, and the ballots of its
/// informal phase.
#[derive(Debug)]
pub struct VotingCreation {
    pub info: VotingCreatedInfo,
    /// The creator's first ballot, cast when the configuration asks for it.
    pub first_ballot: Option<Ballot>,
    /// Whether the first ballot's stake is to be staked: the informal phase
    /// stakes reputation.
    pub stake_first_ballot: bool,
    pub informal: BallotBook,
}

/// A voting canceled because its creator was slashed: its id and the stakes
/// returned to its voters.
#[derive(Debug)]
pub struct CanceledVoting {
    pub voting_id: VotingId,
    pub unstakes: Vec<(Address, Balance)>,
}

/// A ballot withdrawn because its voter was slashed, as it was before.
#[derive(Clone, Copy, Debug)]
pub struct CanceledBallot {
    pub voting_id: VotingId,
    pub ballot: Ballot,
}

impl VotingEngine {
    /// Creates a voting with the given id, stores its record and its
    /// configuration, and registers it as in progress.
    ///
    /// `available_reputation` is the creator's reputation that is not staked
    /// yet. Fails, in this order, with [`Error::NotOnboarded`] when only VAs
    /// may create the voting and the creator is not one, with
    /// [`Error::NotEnoughReputation`] when the creator's first ballot is to
    /// stake more reputation than is available, and with
    /// [`Error::ArithmeticOverflow`] when a quorum of the configuration does
    /// not fit. Unless the voting is a bid escrow voting, the creator's stake
    /// becomes the first ballot, in favor.
    pub fn create_voting(
        &mut self,
        creator: Address,
        stake: Balance,
        configuration: &Configuration,
        is_va: bool,
        voting_id: VotingId,
        available_reputation: Balance,
    ) -> (r: Result<VotingCreation, Error>)
        requires
            configuration.spec_time_between_votings() <= u64::MAX,
        ensures
            ({
                let refused = configuration.voting_configuration.only_va_can_create && !is_va;
                let casts = !configuration.voting_configuration.is_bid_escrow;
                let short = casts && configuration.dao_configuration.informal_stake_reputation
                    && available_reputation.value() < stake.value();
                let quorums_fit = quorum_result(
                    configuration.spec_informal_quorum_ratio().value(),
                    configuration.total_onboarded.value(),
                ) is Ok && quorum_result(
                    configuration.spec_formal_quorum_ratio().value(),
                    configuration.total_onboarded.value(),
                ) is Ok;
                &&& (r == Err::<VotingCreation, Error>(Error::NotOnboarded)) == refused
                &&& (r == Err::<VotingCreation, Error>(Error::NotEnoughReputation)) == (!refused
                    && short)
                &&& (r == Err::<VotingCreation, Error>(Error::ArithmeticOverflow)) == (!refused
                    && !short && !quorums_fit)
                &&& r is Ok <==> !refused && !short && quorums_fit
            }),
            r is Err ==> final(self).active_votings@ == old(self).active_votings@
                && final(self).votings@ == old(self).votings@ && final(self).configurations@ == old(
                self,
            ).configurations@,
            r matches Ok(c) ==> {
                let casts = !configuration.voting_configuration.is_bid_escrow;
                let first = Ballot {
                    voter: creator,
                    voting_id,
                    voting_type: VotingType::Informal,
                    choice: Choice::InFavor,
                    stake,
                    unbound: false,
                    canceled: false,
                };
                let record = VotingRecord {
                    voting_id,
                    creator,
                    voting_type: VotingType::Informal,
                    completed: false,
                    informal_without_stake: !configuration.dao_configuration.informal_stake_reputation,
                    canceled: false,
                };
                &&& c.info.describes(
                    creator,
                    voting_id,
                    if casts {
                        Some(stake)
                    } else {
                        None::<Balance>
                    },
                    *configuration,
                )
                &&& c.first_ballot == if casts {
                    Some(first)
                } else {
                    None::<Ballot>
                }
                &&& c.informal.wf()
                &&& c.informal.ballots@ == if casts {
                    seq![first]
                } else {
                    Seq::<Ballot>::empty()
                }
                &&& c.stake_first_ballot == configuration.dao_configuration.informal_stake_reputation
                &&& final(self).active_votings@ == old(self).active_votings@.push(voting_id)
                &&& final(self).votings@ == old(self).votings@.push(record)
                &&& final(self).voting_of(voting_id) == Some(record)
                &&& final(self).configurations@.len() == old(self).configurations@.len() + 1
                &&& final(self).configurations@.drop_last() == old(self).configurations@
                &&& final(self).configuration_of(voting_id) is Some
                &&& final(self).configuration_of(voting_id)->0.same_as(configuration)
            },
    {
        let rules = RulesBuilder::new().add_validation(
            CanCreateVoting::create(is_va, configuration.only_va_can_create()),
        ).build();
        proof {
            let outcomes = generic_outcomes(rules.validations@);
            assert(outcomes =~= seq![rules.validations@[0].outcome()]);
            assert(outcomes.drop_first() =~= Seq::<Result<(), Error>>::empty());
            assert(first_error(Seq::<Result<(), Error>>::empty()) == Ok::<(), Error>(()));
            assert(first_error(outcomes) == rules.validations@[0].outcome());
        }
        rules.validate_generic_validations()?;
        let should_cast_first_vote = configuration.should_cast_first_vote();
        let stakes = configuration.informal_stake_reputation();
        if should_cast_first_vote && stakes && available_reputation.lt(&stake) {
            return Err(Error::NotEnoughReputation);
        }
        let mut informal = BallotBook::new();
        let mut first_ballot: Option<Ballot> = None;
        let mut used_stake: Option<Balance> = None;
        if should_cast_first_vote {
            let ballot = Ballot::new(
                creator,
                voting_id,
                VotingType::Informal,
                Choice::InFavor,
                stake,
                false,
                false,
            );
            informal.record_ballot(ballot);
            first_ballot = Some(ballot);
            used_stake = Some(stake);
        }
        let info = VotingCreatedInfo::new(creator, voting_id, used_stake, configuration)?;
        let record = VotingRecord {
            voting_id,
            creator,
            voting_type: VotingType::Informal,
            completed: false,
            informal_without_stake: !stakes,
            canceled: false,
        };
        self.votings.push(record);
        self.configurations.push((voting_id, configuration.clone()));
        proof {
            assert(self.votings@.drop_last() =~= old(self).votings@);
            assert(self.configurations@.drop_last() =~= old(self).configurations@);
        }
        self.add_to_active_list(voting_id);
        Ok(
            VotingCreation {
                info,
                first_ballot,
                stake_first_ballot: stakes,
                informal,
            },
        )
    }
}


/// What slashing a voter does to one voting in progress.
#[derive(Debug)]
pub enum SlashEffect {
    /// The voter created the voting: it is canceled and these stakes are
    /// returned to its voters.
    VotingCanceled(Vec<(Address, Balance)>),
    /// The voter voted in the voting: this ballot, as it was, is withdrawn
    /// and its stake returned.
    BallotCanceled(Ballot),
    /// The voter took no part in the voting.
    Untouched,
}

/// What slashing a voter does to the votings in progress.
#[derive(Debug)]
pub struct SlashOutcome {
    /// The votings canceled, in the order of the votings in progress.
    pub canceled: Vec<VotingId>,
    /// The votings whose ballot of the voter was withdrawn, in order.
    pub affected: Vec<VotingId>,
    /// What happened to each voting in progress.
    pub effects: Vec<SlashEffect>,
    /// The ballots of each voting in progress, afterwards.
    pub books: Vec<BallotBook>,
}

/// The votings created by the voter, in order.
pub open spec fn slashed_ids(ids: Seq<VotingId>, creators: Seq<Address>, voter: Address) -> Seq<
    VotingId,
>
    decreases ids.len(),
{
    if ids.len() == 0 {
        Seq::empty()
    } else {
        let rest = slashed_ids(ids.drop_last(), creators, voter);
        if creators[ids.len() - 1] == voter {
            rest.push(ids.last())
        } else {
            rest
        }
    }
}

/// The votings the voter voted in without creating them, in order.
pub open spec fn affected_ids(
    ids: Seq<VotingId>,
    creators: Seq<Address>,
    books: Seq<BallotBook>,
    voter: Address,
) -> Seq<VotingId>
    decreases ids.len(),
{
    if ids.len() == 0 {
        Seq::empty()
    } else {
        let rest = affected_ids(ids.drop_last(), creators, books, voter);
        let i = ids.len() - 1;
        if creators[i] != voter && books[i].has_voted(voter) {
            rest.push(ids.last())
        } else {
            rest
        }
    }
}

/// Removes every occurrence of each id of a list, in turn.
pub open spec fn remove_each(ids: Seq<VotingId>, removed: Seq<VotingId>) -> Seq<VotingId>
    decreases removed.len(),
{
    if removed.len() == 0 {
        ids
    } else {
        remove_all(remove_each(ids, removed.drop_last()), removed.last())
    }
}

/// What slashing a voter does to the votings in progress `ids`, created by
/// `creators`, with the ballots `books`: the votings the voter created are
/// canceled, with every active stake returned, and leave the votings in
/// progress; in any other voting the voter's ballot is withdrawn.
pub open spec fn slash_settled(
    voter: Address,
    ids: Seq<VotingId>,
    creators: Seq<Address>,
    books: Seq<BallotBook>,
    active_after: Seq<VotingId>,
    r: SlashOutcome,
) -> bool {
    &&& r.canceled@ == slashed_ids(ids, creators, voter)
    &&& r.affected@ == affected_ids(ids, creators, books, voter)
    &&& active_after == remove_each(ids, r.canceled@)
    &&& r.effects@.len() == books.len()
    &&& r.books@.len() == books.len()
    &&& forall|i: int|
        0 <= i < books.len() ==> {
            &&& (#[trigger] r.books@[i]).wf()
            &&& creators[i] == voter ==> r.books@[i].ballots@ == books[i].ballots@
                && (r.effects@[i] matches SlashEffect::VotingCanceled(u) && u@ == active_stakes(
                books[i].ballots@,
            ))
            &&& creators[i] != voter && books[i].has_voted(voter) ==> r.books@[i].ballots@
                == books[i].ballots@.update(
                books[i].index_of(voter),
                Ballot { canceled: true, ..books[i].ballot_of(voter) },
            ) && r.effects@[i] == SlashEffect::BallotCanceled(books[i].ballot_of(voter))
            &&& creators[i] != voter && !books[i].has_voted(voter) ==> r.books@[i].ballots@
                == books[i].ballots@ && r.effects@[i] == SlashEffect::Untouched
        }
}

impl VotingEngine {
    /// Every voting of the list has a record.
    pub open spec fn all_known(&self, ids: Seq<VotingId>) -> bool {
        forall|i: int| 0 <= i < ids.len() ==> (#[trigger] self.voting_of(ids[i])) is Some
    }

    /// The creators of the votings of the list, as their records name them.
    pub open spec fn creators_of(&self, ids: Seq<VotingId>) -> Seq<Address> {
        Seq::new(ids.len(), |i: int| self.voting_of(ids[i])->0.creator)
    }

    /// The record of a voting after the voter is slashed from the votings
    /// `ids`: canceled when it is one of them and the voter created it,
    /// unchanged otherwise.
    pub open spec fn slashed_record(&self, ids: Seq<VotingId>, voter: Address, x: VotingId) -> Option<
        VotingRecord,
    > {
        if ids.contains(x) && self.voting_of(x) is Some && self.voting_of(x)->0.creator == voter {
            Some(VotingRecord { canceled: true, ..self.voting_of(x)->0 })
        } else {
            self.voting_of(x)
        }
    }

    /// The records of the votings in progress, or
    /// [`Error::VotingDoesNotExist`] when one of them has none.
    fn records_of_active(&self) -> (r: Result<(Vec<VotingRecord>, Vec<Address>), Error>)
        ensures
            r is Ok <==> self.all_known(self.active_votings@),
            r matches Ok(p) ==> {
                &&& p.1@ == self.creators_of(self.active_votings@)
                &&& p.0@.len() == self.active_votings@.len()
                &&& forall|j: int|
                    0 <= j < p.0@.len() ==> self.voting_of(self.active_votings@[j]) == Some(
                        #[trigger] p.0@[j],
                    ) && p.0@[j].voting_id == self.active_votings@[j]
            },
            r matches Err(e) ==> e == Error::VotingDoesNotExist,
    {
        let mut records: Vec<VotingRecord> = Vec::new();
        let mut creators: Vec<Address> = Vec::new();
        let mut i: usize = 0;
        while i < self.active_votings.len()
            invariant
                i <= self.active_votings@.len(),
                creators@.len() == i,
                records@.len() == i,
                forall|j: int|
                    0 <= j < i ==> (#[trigger] self.voting_of(self.active_votings@[j])) is Some
                        && creators@[j] == self.voting_of(self.active_votings@[j])->0.creator
                        && self.voting_of(self.active_votings@[j]) == Some(records@[j])
                        && records@[j].voting_id == self.active_votings@[j],
            decreases self.active_votings@.len() - i,
        {
            let record = self.get_voting_or_revert(self.active_votings[i])?;
            proof {
                lemma_last_record_id(self.votings@, self.active_votings@[i as int]);
            }
            creators.push(record.creator);
            records.push(record);
            i += 1;
        }
        assert(creators@ =~= self.creators_of(self.active_votings@));
        Ok((records, creators))
    }

    /// Erases a voter from the votings in progress: a voting the voter
    /// created is canceled, its record logged as canceled, and it leaves the
    /// votings in progress; in any other voting the voter's ballot is
    /// withdrawn. `books[i]` holds the current ballots of the `i`-th voting
    /// in progress. Fails with [`Error::VotingDoesNotExist`], changing
    /// nothing, when a voting in progress has no record.
    pub fn slash_voter(&mut self, voter: Address, books: Vec<BallotBook>) -> (r: Result<
        SlashOutcome,
        Error,
    >)
        requires
            books@.len() == old(self).active_votings@.len(),
            forall|i: int| 0 <= i < books@.len() ==> (#[trigger] books@[i]).wf(),
        ensures
            r is Ok <==> old(self).all_known(old(self).active_votings@),
            r is Err ==> r == Err::<SlashOutcome, Error>(Error::VotingDoesNotExist)
                && final(self).active_votings@ == old(self).active_votings@
                && final(self).votings@ == old(self).votings@,
            final(self).configurations@ == old(self).configurations@,
            r is Ok ==> forall|x: VotingId|
                #[trigger] final(self).voting_of(x) == old(self).slashed_record(
                    old(self).active_votings@,
                    voter,
                    x,
                ),
            r matches Ok(o) ==> slash_settled(
                voter,
                old(self).active_votings@,
                old(self).creators_of(old(self).active_votings@),
                books@,
                final(self).active_votings@,
                o,
            ),
    {
        let (records, creators) = self.records_of_active()?;
        let ids = copy_ids(&self.active_votings);
        let outcome = self.slash_voters_ballots(voter, &creators, books);
        let ghost active_after = self.active_votings@;
        let mut i: usize = 0;
        while i < records.len()
            invariant
                i <= records@.len(),
                records@.len() == ids@.len(),
                ids@ == old(self).active_votings@,
                forall|j: int|
                    0 <= j < records@.len() ==> old(self).voting_of(ids@[j]) == Some(
                        #[trigger] records@[j],
                    ) && records@[j].voting_id == ids@[j],
                self.active_votings@ == active_after,
                self.configurations@ == old(self).configurations@,
                forall|x: VotingId|
                    #[trigger] self.voting_of(x) == old(self).slashed_record(
                        ids@.subrange(0, i as int),
                        voter,
                        x,
                    ),
            decreases records@.len() - i,
        {
            let record = records[i];
            let ghost before = self.votings@;
            proof {
                assert(records@[i as int] == record);
                assert forall|x: VotingId|
                    #[trigger] last_record(before, x) == old(self).slashed_record(
                        ids@.subrange(0, i as int),
                        voter,
                        x,
                    ) by {
                    assert(self.voting_of(x) == last_record(before, x));
                }
            }
            if record.creator == voter {
                let canceled = VotingRecord { canceled: true, ..record };
                self.votings.push(canceled);
                proof {
                    assert forall|x: VotingId|
                        #[trigger] self.voting_of(x) == old(self).slashed_record(
                            ids@.subrange(0, i + 1),
                            voter,
                            x,
                        ) by {
                        law_record_read_back(before, canceled, x);
                        lemma_prefix_contains(ids@, i as int, x);
                        assert(last_record(before, x) == old(self).slashed_record(
                            ids@.subrange(0, i as int),
                            voter,
                            x,
                        ));
                    }
                }
            } else {
                proof {
                    assert forall|x: VotingId|
                        #[trigger] self.voting_of(x) == old(self).slashed_record(
                            ids@.subrange(0, i + 1),
                            voter,
                            x,
                        ) by {
                        lemma_prefix_contains(ids@, i as int, x);
                        assert(last_record(before, x) == old(self).slashed_record(
                            ids@.subrange(0, i as int),
                            voter,
                            x,
                        ));
                    }
                }
            }
            i += 1;
        }
        assert(ids@.subrange(0, i as int) =~= ids@);
        Ok(outcome)
    }

    /// Erases a voter from the votings in progress, whose creators are
    /// `creators`.
    fn slash_voters_ballots(
        &mut self,
        voter: Address,
        creators: &Vec<Address>,
        books: Vec<BallotBook>,
    ) -> (r: SlashOutcome)
        requires
            creators@.len() == old(self).active_votings@.len(),
            books@.len() == old(self).active_votings@.len(),
            forall|i: int| 0 <= i < books@.len() ==> (#[trigger] books@[i]).wf(),
        ensures
            final(self).votings@ == old(self).votings@,
            final(self).configurations@ == old(self).configurations@,
            slash_settled(
                voter,
                old(self).active_votings@,
                creators@,
                books@,
                final(self).active_votings@,
                r,
            ),
    {
        let ids = copy_ids(&self.active_votings);
        let ghost start = self.active_votings@;
        let mut canceled: Vec<VotingId> = Vec::new();
        let mut affected: Vec<VotingId> = Vec::new();
        let mut effects: Vec<SlashEffect> = Vec::new();
        let mut new_books: Vec<BallotBook> = Vec::new();
        let mut i: usize = 0;
        while i < ids.len()
            invariant
                ids@ == start,
                i <= ids@.len(),
                self.votings@ == old(self).votings@,
                self.configurations@ == old(self).configurations@,
                creators@.len() == ids@.len(),
                books@.len() == ids@.len(),
                forall|j: int| 0 <= j < books@.len() ==> (#[trigger] books@[j]).wf(),
                canceled@ == slashed_ids(ids@.subrange(0, i as int), creators@, voter),
                affected@ == affected_ids(ids@.subrange(0, i as int), creators@, books@, voter),
                self.active_votings@ == remove_each(start, canceled@),
                effects@.len() == i,
                new_books@.len() == i,
                forall|j: int|
                    0 <= j < i ==> {
                        &&& (#[trigger] new_books@[j]).wf()
                        &&& creators@[j] == voter ==> new_books@[j].ballots@ == books@[j].ballots@
                            && (effects@[j] matches SlashEffect::VotingCanceled(u) && u@
                            == active_stakes(books@[j].ballots@))
                        &&& creators@[j] != voter && books@[j].has_voted(voter)
                            ==> new_books@[j].ballots@ == books@[j].ballots@.update(
                            books@[j].index_of(voter),
                            Ballot { canceled: true, ..books@[j].ballot_of(voter) },
                        ) && effects@[j] == SlashEffect::BallotCanceled(books@[j].ballot_of(voter))
                        &&& creators@[j] != voter && !books@[j].has_voted(voter)
                            ==> new_books@[j].ballots@ == books@[j].ballots@ && effects@[j]
                            == SlashEffect::Untouched
                    },
            decreases ids@.len() - i,
        {
            let voting_id = ids[i];
            let ghost prev_effects = effects@;
            let mut book = books[i].duplicate();
            proof {
                assert(ids@.subrange(0, i + 1).drop_last() =~= ids@.subrange(0, i as int));
                assert(ids@.subrange(0, i + 1).last() == voting_id);
            }
            if creators[i] == voter {
                let unstakes = book.unstake_all_reputation();
                self.remove_from_active_list(voting_id);
                proof {
                    assert(canceled@.push(voting_id).drop_last() =~= canceled@);
                }
                canceled.push(voting_id);
                effects.push(SlashEffect::VotingCanceled(unstakes));
            } else {
                match book.cancel_ballot(voter) {
                    Some(ballot) => {
                        affected.push(voting_id);
                        effects.push(SlashEffect::BallotCanceled(ballot));
                    },
                    None => {
                        effects.push(SlashEffect::Untouched);
                    },
                }
            }
            let ghost prev_books = new_books@;
            new_books.push(book);
            proof {
                let j = i as int;
                assert forall|k: int| 0 <= k < j implies new_books@[k] == prev_books[k]
                    && effects@[k] == prev_effects[k] by {}
            }
            i += 1;
        }
        assert(ids@.subrange(0, i as int) =~= ids@);
        SlashOutcome { canceled, affected, effects, books: new_books }
    }
}

/// A prefix one longer holds what the shorter one holds and the next id.
proof fn lemma_prefix_contains(ids: Seq<VotingId>, i: int, x: VotingId)
    requires
        0 <= i < ids.len(),
    ensures
        ids.subrange(0, i + 1).contains(x) <==> (ids.subrange(0, i).contains(x) || ids[i] == x),
{
    if ids.subrange(0, i + 1).contains(x) {
        let k = choose|k: int| 0 <= k < i + 1 && #[trigger] ids.subrange(0, i + 1)[k] == x;
        if k < i {
            assert(ids.subrange(0, i)[k] == x);
        }
    }
    if ids.subrange(0, i).contains(x) {
        let k = choose|k: int| 0 <= k < i && #[trigger] ids.subrange(0, i)[k] == x;
        assert(ids.subrange(0, i + 1)[k] == x);
    }
    if ids[i] == x {
        assert(ids.subrange(0, i + 1)[i] == x);
    }
}

/// A copy of a list of ids.
fn copy_ids(ids: &Vec<VotingId>) -> (r: Vec<VotingId>)
    ensures
        r@ == ids@,
{
    let mut r: Vec<VotingId> = Vec::new();
    let mut i: usize = 0;
    while i < ids.len()
        invariant
            i <= ids@.len(),
            r@ == ids@.subrange(0, i as int),
        decreases ids@.len() - i,
    {
        r.push(ids[i]);
        i += 1;
        assert(r@ =~= ids@.subrange(0, i as int));
    }
    assert(r@ =~= ids@);
    r
}


impl VotingEngine {
    /// Records a vote in the current phase of a voting.
    ///
    /// Fails, in this order, with [`Error::VotingDoesNotExist`] and
    /// [`Error::ConfigurationNotFound`] when the voting or its configuration
    /// is not stored, with [`Error::VotingWithGivenTypeNotInProgress`] when
    /// the voting is in another phase, with
    /// [`Error::VoteOnCompletedVotingNotAllowed`] when it is completed, with
    /// the error of [`VoteInTime`] when the voting's state at `block_time`
    /// (`state`) takes no vote, and with [`Error::CannotVoteTwice`] when the voter
    /// already voted. Returns the ballot and whether its stake is to be
    /// staked: unless the phase is an informal one that stakes nothing.
    pub fn vote(
        &self,
        voting_id: VotingId,
        voter: Address,
        voting_type: VotingType,
        choice: Choice,
        stake: Balance,
        block_time: BlockTime,
        state: VotingState,
        book: &mut BallotBook,
    ) -> (r: Result<(Ballot, bool), Error>)
        requires
            old(book).wf(),
            old(book).ballots@.len() < u32::MAX,
        ensures
            final(book).wf(),
            r is Err ==> final(book).ballots@ == old(book).ballots@,
            ({
                let known = self.voting_of(voting_id) is Some;
                let configured = self.configuration_of(voting_id) is Some;
                let v = self.voting_of(voting_id)->0;
                let timely = (VoteInTime { block_time }).outcome(state);
                let open = known && configured && v.voting_type == voting_type && !v.completed
                    && timely is Ok;
                &&& !known ==> r == Err::<(Ballot, bool), Error>(Error::VotingDoesNotExist)
                &&& known && !configured ==> r == Err::<(Ballot, bool), Error>(
                    Error::ConfigurationNotFound,
                )
                &&& known && configured && v.voting_type != voting_type ==> r == Err::<
                    (Ballot, bool),
                    Error,
                >(Error::VotingWithGivenTypeNotInProgress)
                &&& known && configured && v.voting_type == voting_type && v.completed ==> r
                    == Err::<(Ballot, bool), Error>(Error::VoteOnCompletedVotingNotAllowed)
                &&& known && configured && v.voting_type == voting_type && !v.completed
                    && timely is Err ==> r == Err::<(Ballot, bool), Error>(timely->Err_0)
                &&& open && old(book).has_voted(voter) ==> r == Err::<(Ballot, bool), Error>(
                    Error::CannotVoteTwice,
                )
                &&& open && !old(book).has_voted(voter) ==> {
                    let ballot = Ballot {
                        voter,
                        voting_id,
                        voting_type,
                        choice,
                        stake,
                        unbound: false,
                        canceled: false,
                    };
                    &&& r == Ok::<(Ballot, bool), Error>((ballot, !v.informal_without_stake))
                    &&& final(book).ballots@ == old(book).ballots@.push(ballot)
                }
            }),
    {
        let voting = self.get_voting_or_revert(voting_id)?;
        let _configuration = self.get_configuration_or_revert(voting_id)?;
        if voting.voting_type != voting_type {
            return Err(Error::VotingWithGivenTypeNotInProgress);
        }
        if voting.completed {
            return Err(Error::VoteOnCompletedVotingNotAllowed);
        }
        (VoteInTime { block_time }).validate(state)?;
        book.assert_vote_doesnt_exist(voter)?;
        proof {
            lemma_last_record_id(self.votings@, voting_id);
        }
        Ok(self.cast_ballot(&voting, voter, choice, stake, false, book))
    }

    /// Records a ballot in the current phase of a voting, for a voter who
    /// has not voted in it. Returns the ballot and whether its stake is to
    /// be staked: a bound ballot, unless the phase is an informal one that
    /// stakes nothing.
    pub fn cast_ballot(
        &self,
        voting: &VotingRecord,
        voter: Address,
        choice: Choice,
        stake: Balance,
        unbound: bool,
        book: &mut BallotBook,
    ) -> (r: (Ballot, bool))
        requires
            old(book).wf(),
            !old(book).has_voted(voter),
            old(book).ballots@.len() < u32::MAX,
        ensures
            final(book).wf(),
            r.0 == (Ballot {
                voter,
                voting_id: voting.voting_id,
                voting_type: voting.voting_type,
                choice,
                stake,
                unbound,
                canceled: false,
            }),
            r.1 == (!unbound && !voting.informal_without_stake),
            final(book).ballots@ == old(book).ballots@.push(r.0),
    {
        let ballot = Ballot::new(
            voter,
            voting.voting_id,
            voting.voting_type,
            choice,
            stake,
            unbound,
            false,
        );
        book.record_ballot(ballot);
        (ballot, !unbound && !voting.informal_without_stake)
    }

    /// Whether a voting exists and is in the given phase.
    pub fn voting_exists(&self, voting_id: VotingId, voting_type: VotingType) -> (r: bool)
        ensures
            r == (self.voting_of(voting_id) matches Some(v) && v.voting_type == voting_type),
    {
        match self.get_voting(voting_id) {
            None => false,
            Some(v) => v.voting_type == voting_type,
        }
    }
}


/// The outcome of a finished voting phase.
#[derive(Clone, Copy, Debug)]
pub struct VotingSummary {
    pub result: VotingResult,
    pub voting_type: VotingType,
    pub voting_id: VotingId,
    /// Whether the contract calls of the voting are to be made: the formal
    /// phase passed.
    pub perform_action: bool,
}

impl VotingEngine {
    /// Finishes the current phase of a voting without touching the staked
    /// reputation.
    ///
    /// The result is the one the phase ended with; `phase_end` is the time
    /// the phase ends at. Fails, in this order, when the voting does not
    /// exist, is completed, when the phase's time has not passed, or when
    /// the voting was canceled. A formal phase, or an informal one without
    /// quorum, stops the voting; its new record is logged.
    pub fn finish_voting_without_token_redistribution(
        &mut self,
        voting_id: VotingId,
        result: VotingResult,
        block_time: BlockTime,
        phase_end: BlockTime,
    ) -> (r: Result<VotingSummary, Error>)
        ensures
            final(self).configurations@ == old(self).configurations@,
            ({
                let known = old(self).voting_of(voting_id) is Some;
                let v = old(self).voting_of(voting_id)->0;
                let open = known && !v.completed && block_time >= phase_end;
                let stops = v.voting_type == VotingType::Formal || result
                    == VotingResult::QuorumNotReached;
                &&& !known ==> r == Err::<VotingSummary, Error>(Error::VotingDoesNotExist)
                &&& known && v.completed ==> r == Err::<VotingSummary, Error>(
                    Error::FinishingCompletedVotingNotAllowed,
                )
                &&& known && !v.completed && block_time < phase_end ==> r == Err::<
                    VotingSummary,
                    Error,
                >(time_not_reached(v.voting_type))
                &&& open && effective_result(v, result) == VotingResult::Canceled ==> r == Err::<
                    VotingSummary,
                    Error,
                >(
                    Error::VotingAlreadyCanceled,
                )
                &&& open && effective_result(v, result) != VotingResult::Canceled ==> {
                    &&& r == Ok::<VotingSummary, Error>(
                        VotingSummary {
                            result,
                            voting_type: v.voting_type,
                            voting_id,
                            perform_action: v.voting_type == VotingType::Formal && result
                                == VotingResult::InFavor,
                        },
                    )
                    &&& final(self).votings@ == old(self).votings@.push(
                        finished_record(status_of(v, result)),
                    )
                    &&& stops ==> final(self).active_votings@ == remove_all(
                        old(self).active_votings@,
                        voting_id,
                    )
                    &&& !stops ==> final(self).active_votings@ == old(self).active_votings@
                }
                &&& r is Err ==> final(self).active_votings@ == old(self).active_votings@
                    && final(self).votings@ == old(self).votings@
            }),
    {
        let record = self.get_voting_or_revert(voting_id)?;
        if record.completed {
            return Err(Error::FinishingCompletedVotingNotAllowed);
        }
        if block_time < phase_end {
            return match record.voting_type {
                VotingType::Informal => Err(Error::InformalVotingTimeNotReached),
                VotingType::Formal => Err(Error::FormalVotingTimeNotReached),
            };
        }
        if result == VotingResult::Canceled || record.canceled {
            return Err(Error::VotingAlreadyCanceled);
        }
        proof {
            lemma_last_record_id(self.votings@, voting_id);
        }
        let stops = record.voting_type == VotingType::Formal || result
            == VotingResult::QuorumNotReached;
        if stops {
            self.remove_from_active_list(voting_id);
        }
        let finished = if stops {
            VotingRecord { completed: true, ..record }
        } else {
            VotingRecord { voting_type: VotingType::Formal, ..record }
        };
        self.votings.push(finished);
        Ok(
            VotingSummary {
                result,
                voting_type: record.voting_type,
                voting_id,
                perform_action: record.voting_type == VotingType::Formal && result
                    == VotingResult::InFavor,
            },
        )
    }
}

} // verus!
