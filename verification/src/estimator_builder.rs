//! The helper that assembles a workload estimator from a cost model.

use vstd::prelude::*;

use std::collections::HashMap;

use crate::cost_table::table_map;
use crate::estimator::{
    default_unit_costs, estimator_keys_modeled, table_absorb, table_to_hash, table_update,
    WorkloadEstimator,
};
use crate::typed_messages::OpCode;

verus! {

/// Collects a cost model and builds the estimator from it.
#[derive(Clone, Debug, PartialEq)]
pub struct WorkloadEstimatorBuilder {
    cost_model: Vec<(OpCode, usize)>,
}

impl WorkloadEstimatorBuilder {
    /// The mapping from operator codes to unit costs collected so far.
    pub closed spec fn costs(&self) -> Map<OpCode, usize> {
        table_map(self.cost_model@)
    }

    pub fn new() -> (r: Self)
        ensures
            r.costs() == default_unit_costs(),
    {
        WorkloadEstimatorBuilder::default()
    }

    /// Starts from a whole model. The contract is conditioned on vstd's
    /// model of hash-table keys, which it does not pin down for a derived
    /// `Hash`.
    pub fn set_model(cost_model: HashMap<OpCode, usize>) -> (r: Self)
        ensures
            estimator_keys_modeled() ==> r.costs() == cost_model@,
    {
        let mut model: Vec<(OpCode, usize)> = Vec::new();
        proof {
            assert(table_map(model@) =~= Map::<OpCode, usize>::empty());
        }
        table_absorb(&mut model, &cost_model, OpCode::DummyOp);
        table_absorb(&mut model, &cost_model, OpCode::AddOp);
        table_absorb(&mut model, &cost_model, OpCode::ConvOp);
        table_absorb(&mut model, &cost_model, OpCode::ExpOp);
        table_absorb(&mut model, &cost_model, OpCode::MatmulOp);
        table_absorb(&mut model, &cost_model, OpCode::SinOp);
        table_absorb(&mut model, &cost_model, OpCode::SubOp);
        proof {
            if estimator_keys_modeled() {
                assert(table_map(model@) =~= cost_model@);
            }
        }
        WorkloadEstimatorBuilder { cost_model: model }
    }

    /// Hands the collected model out as a hash table.
    pub fn cost_model(&self) -> (r: HashMap<OpCode, usize>)
        ensures
            estimator_keys_modeled() ==> r@ == self.costs(),
    {
        table_to_hash(&self.cost_model)
    }

    /// Builds the estimator over the collected model.
    pub fn build(&self) -> (r: WorkloadEstimator)
        ensures
            r.costs() == self.costs(),
    {
        let mut copy: Vec<(OpCode, usize)> = Vec::new();
        let mut i: usize = 0;
        while i < self.cost_model.len()
            invariant
                i <= self.cost_model.len(),
                copy@ == self.cost_model@.take(i as int),
            decreases self.cost_model.len() - i,
        {
            copy.push(self.cost_model[i]);
            i = i + 1;
            proof {
                assert(copy@ =~= self.cost_model@.take(i as int));
            }
        }
        proof {
            assert(copy@ =~= self.cost_model@);
        }
        WorkloadEstimator::from_table(copy)
    }
}

impl Default for WorkloadEstimatorBuilder {
    fn default() -> (r: Self)
        ensures
            r.costs() == default_unit_costs(),
    {
        let mut model: Vec<(OpCode, usize)> = Vec::new();
        proof {
            assert(table_map(model@) =~= Map::<OpCode, usize>::empty());
        }
        table_update(&mut model, OpCode::DummyOp, 4);
        table_update(&mut model, OpCode::AddOp, 2);
        table_update(&mut model, OpCode::ConvOp, 8);
        table_update(&mut model, OpCode::ExpOp, 1);
        table_update(&mut model, OpCode::MatmulOp, 10);
        table_update(&mut model, OpCode::SinOp, 1);
        table_update(&mut model, OpCode::SubOp, 2);
        proof {
            assert(table_map(model@) =~= default_unit_costs());
        }
        WorkloadEstimatorBuilder { cost_model: model }
    }
}

} // verus!
