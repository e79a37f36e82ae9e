//! A checked rollup data submission.
use vstd::prelude::*;

use crate::actions::RollupDataSubmission;
use crate::error::Error;

verus! {

/// A rollup data submission with non-empty data.
pub struct CheckedRollupDataSubmission {
    action: RollupDataSubmission,
}

impl CheckedRollupDataSubmission {
    pub closed spec fn action(&self) -> RollupDataSubmission {
        self.action
    }

    /// Checks that the data is not empty.
    pub fn new(action: RollupDataSubmission) -> (r: Result<Self, Error>)
        ensures
            match r {
                Ok(c) => action.data@.len() > 0 && c.action() == action,
                Err(e) => action.data@.len() == 0 && e == Error::EmptyData,
            },
    {
        if action.data.len() == 0 {
            return Err(Error::EmptyData);
        }
        Ok(CheckedRollupDataSubmission { action })
    }

    /// The submitted action.
    pub fn action_ref(&self) -> (r: &RollupDataSubmission)
        ensures
            *r == self.action(),
    {
        &self.action
    }
}

} // verus!
