//! The integer part of a run's configuration, and its validation.
use crate::rule::is_bit;
use vstd::prelude::*;

verus! {

/// Sizes and rule of a run. The frequency range itself is real-valued and
/// lives with the caller; only its step count is checked here.
pub struct GridConfig {
    pub columns: usize,
    pub time_steps: usize,
    pub rule: Vec<usize>,
    pub freq_steps: usize,
}

/// Why a configuration was rejected.
#[derive(Debug, Clone, Copy, PartialEq, Eq, Structural)]
pub enum ConfigError {
    /// Fewer than three columns: no interior cell would exist.
    TooFewColumns,
    /// No time step at all.
    NoTimeSteps,
    /// A frequency step count of zero.
    NoFrequencySteps,
    /// A rule that does not have exactly eight entries.
    RuleLength,
    /// A rule entry other than 0 or 1.
    RuleEntry,
}

/// The first problem of a configuration, checked in field order, or `None`.
pub open spec fn config_error(
    columns: usize,
    time_steps: usize,
    rule: Seq<usize>,
    freq_steps: usize,
) -> Option<ConfigError> {
    if columns < 3 {
        Some(ConfigError::TooFewColumns)
    } else if time_steps < 1 {
        Some(ConfigError::NoTimeSteps)
    } else if freq_steps < 1 {
        Some(ConfigError::NoFrequencySteps)
    } else if rule.len() != 8 {
        Some(ConfigError::RuleLength)
    } else if exists|k: int| 0 <= k < 8 && !is_bit(#[trigger] rule[k]) {
        Some(ConfigError::RuleEntry)
    } else {
        None
    }
}

impl GridConfig {
    /// Accepts the configuration, or names its first problem.
    pub fn validate(&self) -> (r: Result<(), ConfigError>)
        ensures
            r is Ok <==> config_error(self.columns, self.time_steps, self.rule@, self.freq_steps)
                is None,
            r is Err ==> Some(r->Err_0) == config_error(
                self.columns,
                self.time_steps,
                self.rule@,
                self.freq_steps,
            ),
    {
        if self.columns < 3 {
            return Err(ConfigError::TooFewColumns);
        }
        if self.time_steps < 1 {
            return Err(ConfigError::NoTimeSteps);
        }
        if self.freq_steps < 1 {
            return Err(ConfigError::NoFrequencySteps);
        }
        if self.rule.len() != 8 {
            return Err(ConfigError::RuleLength);
        }
        let mut k: usize = 0;
        while k < 8
            invariant
                self.rule@.len() == 8,
                self.columns >= 3,
                self.time_steps >= 1,
                self.freq_steps >= 1,
                k <= 8,
                forall|j: int| 0 <= j < k ==> is_bit(#[trigger] self.rule@[j]),
            decreases 8 - k,
        {
            if self.rule[k] > 1 {
                assert(!is_bit(self.rule@[k as int]));
                return Err(ConfigError::RuleEntry);
            }
            k = k + 1;
        }
        Ok(())
    }
}

} // verus!
