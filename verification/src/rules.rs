//! Sets of validation rules and their evaluation.

use vstd::prelude::*;

use crate::configuration::Configuration;
use crate::errors::Error;
use crate::types::BlockTime;
use crate::voting::voting_state::VotingState;
use validation::{GenericValidation, GenericVotingValidation, Validation, VotingValidation};

pub mod builder;
pub mod validation;

pub use builder::RulesBuilder;

verus! {

/// The first error in a list of outcomes, or `Ok` when there is none.
pub open spec fn first_error(outcomes: Seq<Result<(), Error>>) -> Result<(), Error>
    decreases outcomes.len(),
{
    if outcomes.len() == 0 {
        Ok(())
    } else if outcomes[0] is Err {
        outcomes[0]
    } else {
        first_error(outcomes.drop_first())
    }
}

/// The outcomes of a list of rules, in order.
pub open spec fn generic_outcomes(rules: Seq<GenericValidation>) -> Seq<Result<(), Error>> {
    Seq::new(rules.len(), |i: int| rules[i].outcome())
}

/// The outcomes of a list of voting rules, each on the state given for it.
pub open spec fn voting_outcomes(
    rules: Seq<GenericVotingValidation>,
    states: Seq<VotingState>,
) -> Seq<Result<(), Error>> {
    Seq::new(rules.len(), |i: int| rules[i].outcome(states[i]))
}

/// Skipping an outcome that is `Ok` does not change the first error.
pub proof fn lemma_first_error_skip(outcomes: Seq<Result<(), Error>>, i: int)
    requires
        0 <= i < outcomes.len(),
        outcomes[i] is Ok,
    ensures
        first_error(outcomes.subrange(i, outcomes.len() as int)) == first_error(
            outcomes.subrange(i + 1, outcomes.len() as int),
        ),
{
    let s = outcomes.subrange(i, outcomes.len() as int);
    assert(s.drop_first() =~= outcomes.subrange(i + 1, outcomes.len() as int));
}

/// A set of validation rules.
///
/// Evaluation stops at the first failing rule, whose error becomes the
/// result. Rules related to voting are given the voting's state.
#[derive(Debug)]
pub struct Rules {
    pub validations: Vec<GenericValidation>,
    pub voting_validations: Vec<GenericVotingValidation>,
}

impl Rules {
    /// Validates the rules that need no voting state: the first error in
    /// the order the rules were added, or `Ok`.
    pub fn validate_generic_validations(&self) -> (r: Result<(), Error>)
        ensures
            r == first_error(generic_outcomes(self.validations@)),
    {
        let ghost outcomes = generic_outcomes(self.validations@);
        assert(outcomes.subrange(0, outcomes.len() as int) =~= outcomes);
        let mut i: usize = 0;
        while i < self.validations.len()
            invariant
                i <= self.validations@.len(),
                outcomes == generic_outcomes(self.validations@),
                first_error(outcomes) == first_error(
                    outcomes.subrange(i as int, outcomes.len() as int),
                ),
            decreases self.validations@.len() - i,
        {
            let result = self.validations[i].validate();
            if result.is_err() {
                proof {
                    let s = outcomes.subrange(i as int, outcomes.len() as int);
                    assert(s[0] == result);
                }
                return result;
            }
            proof {
                lemma_first_error_skip(outcomes, i as int);
            }
            i += 1;
        }
        proof {
            assert(outcomes.subrange(i as int, outcomes.len() as int).len() == 0);
        }
        Ok(())
    }

    /// All voting rules can name their moments under the configuration.
    pub open spec fn moments_defined(&self, configuration: &Configuration) -> bool {
        forall|i: int|
            0 <= i < self.voting_validations@.len() ==> (
            #[trigger] self.voting_validations@[i]).moment_defined(configuration)
    }

    /// The moments the voting rules ask about, in order: the voting's state
    /// at each of them is to be given to
    /// [`validate_voting_validations`](Self::validate_voting_validations).
    pub fn voting_moments(&self, configuration: &Configuration) -> (r: Vec<Option<BlockTime>>)
        requires
            self.moments_defined(configuration),
        ensures
            r@.len() == self.voting_validations@.len(),
            forall|i: int|
                0 <= i < r@.len() ==> r@[i] == (#[trigger] self.voting_validations@[i]).spec_moment(
                    configuration,
                ),
    {
        let mut r: Vec<Option<BlockTime>> = Vec::new();
        let mut i: usize = 0;
        while i < self.voting_validations.len()
            invariant
                i <= self.voting_validations@.len(),
                self.moments_defined(configuration),
                r@.len() == i,
                forall|j: int|
                    0 <= j < i ==> r@[j] == (#[trigger] self.voting_validations@[j]).spec_moment(
                        configuration,
                    ),
            decreases self.voting_validations@.len() - i,
        {
            let m = self.voting_validations[i].moment(configuration);
            r.push(m);
            i += 1;
        }
        r
    }

    /// Validates the rules that require the voting state; `states[i]` is the
    /// state the voting is in at the moment rule `i` asks about. The result
    /// is the first error in order, or `Ok`.
    pub fn validate_voting_validations(&self, states: &Vec<VotingState>) -> (r: Result<(), Error>)
        requires
            states@.len() == self.voting_validations@.len(),
        ensures
            r == first_error(voting_outcomes(self.voting_validations@, states@)),
    {
        let ghost outcomes = voting_outcomes(self.voting_validations@, states@);
        assert(outcomes.subrange(0, outcomes.len() as int) =~= outcomes);
        let mut i: usize = 0;
        while i < self.voting_validations.len()
            invariant
                i <= self.voting_validations@.len(),
                states@.len() == self.voting_validations@.len(),
                outcomes == voting_outcomes(self.voting_validations@, states@),
                first_error(outcomes) == first_error(
                    outcomes.subrange(i as int, outcomes.len() as int),
                ),
            decreases self.voting_validations@.len() - i,
        {
            let result = self.voting_validations[i].validate(states[i]);
            if result.is_err() {
                proof {
                    let s = outcomes.subrange(i as int, outcomes.len() as int);
                    assert(s[0] == result);
                }
                return result;
            }
            proof {
                lemma_first_error_skip(outcomes, i as int);
            }
            i += 1;
        }
        proof {
            assert(outcomes.subrange(i as int, outcomes.len() as int).len() == 0);
        }
        Ok(())
    }

    /// Validates all the rules: first those that need no voting state.
    pub fn validate(&self, states: &Vec<VotingState>) -> (r: Result<(), Error>)
        requires
            states@.len() == self.voting_validations@.len(),
        ensures
            r == match first_error(generic_outcomes(self.validations@)) {
                Ok(_) => first_error(voting_outcomes(self.voting_validations@, states@)),
                Err(e) => Err(e),
            },
    {
        match self.validate_generic_validations() {
            Ok(_) => self.validate_voting_validations(states),
            Err(e) => Err(e),
        }
    }
}

} // verus!
