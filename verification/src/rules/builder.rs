//! A utility to build a set of validation rules.

use vstd::prelude::*;

use crate::rules::validation::{GenericValidation, GenericVotingValidation};
use crate::rules::Rules;

verus! {

/// Builds a set of validation rules.
pub struct RulesBuilder {
    pub rules: Rules,
}

impl RulesBuilder {
    /// Creates an empty builder.
    pub fn new() -> (r: Self)
        ensures
            r.rules.validations@.len() == 0,
            r.rules.voting_validations@.len() == 0,
    {
        RulesBuilder { rules: Rules { validations: Vec::new(), voting_validations: Vec::new() } }
    }

    /// Adds a rule that needs no voting state; it is checked after those
    /// added before.
    pub fn add_validation(self, validation: GenericValidation) -> (r: RulesBuilder)
        ensures
            r.rules.validations@ == self.rules.validations@.push(validation),
            r.rules.voting_validations == self.rules.voting_validations,
    {
        let mut s = self;
        s.rules.validations.push(validation);
        s
    }

    /// Adds a voting rule; it is checked after those added before.
    pub fn add_voting_validation(self, validation: GenericVotingValidation) -> (r: RulesBuilder)
        ensures
            r.rules.voting_validations@ == self.rules.voting_validations@.push(validation),
            r.rules.validations == self.rules.validations,
    {
        let mut s = self;
        s.rules.voting_validations.push(validation);
        s
    }

    /// Builds a [Rules] struct.
    pub fn build(self) -> (r: Rules)
        ensures
            r == self.rules,
    {
        self.rules
    }
}

impl Default for RulesBuilder {
    /// An empty builder.
    fn default() -> (r: RulesBuilder)
        ensures
            r.rules.validations@.len() == 0,
            r.rules.voting_validations@.len() == 0,
    {
        RulesBuilder::new()
    }
}

} // verus!
