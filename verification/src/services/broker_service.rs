//! The broker pool: the broker names in use.

use crate::store::{Statement, StatementView, Step, StepView};
use vstd::prelude::*;

verus! {

/// The operations on broker names.
pub struct BrokerService;

impl BrokerService {
    /// Opens the reading of the broker pool: the store is asked for the
    /// distinct broker names, and its answer is the result as it comes.
    pub fn get_pool() -> (step: Step)
        ensures
            step@ == StepView::Run(StatementView::SelectDistinctBrokers),
    {
        Step::Run(Statement::SelectDistinctBrokers)
    }
}

} // verus!
