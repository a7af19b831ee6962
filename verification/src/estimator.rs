//! The workload estimator: computes the estimated cost of a sized workload
//! as its operator's unit cost times its size.

use vstd::prelude::*;

use std::collections::HashMap;

use crate::cost_table::{
    lemma_table_find_absent, lemma_table_find_at, lemma_table_find_push, lemma_table_find_update,
    lemma_table_map_unfold, table_find, table_map,
};
use crate::typed_messages::{OpCode, Workload};

verus! {

broadcast use vstd::std_specs::hash::group_hash_axioms;

/// Abbreviates the hypothesis under which vstd specifies hash tables keyed
/// by an operator code of this generation.
pub open spec fn estimator_keys_modeled() -> bool {
    vstd::std_specs::hash::obeys_key_model::<OpCode>()
}

/// The built-in unit costs.
pub open spec fn default_unit_costs() -> Map<OpCode, usize> {
    map![
        OpCode::DummyOp => 4usize,
        OpCode::AddOp => 2usize,
        OpCode::ConvOp => 8usize,
        OpCode::ExpOp => 1usize,
        OpCode::MatmulOp => 10usize,
        OpCode::SinOp => 1usize,
        OpCode::SubOp => 2usize,
    ]
}

/// Looks an operator code up in a cost table.
pub(crate) fn table_lookup(model: &Vec<(OpCode, usize)>, op: OpCode) -> (r: Option<usize>)
    ensures
        r == table_find(model@, op),
{
    let mut i: usize = 0;
    while i < model.len()
        invariant
            i <= model.len(),
            forall|j: int| 0 <= j < i ==> (#[trigger] model@[j]).0 != op,
        decreases model.len() - i,
    {
        let pair = model[i];
        if pair.0 == op {
            proof {
                lemma_table_find_at(model@, op, i as int);
            }
            return Some(pair.1);
        }
        i = i + 1;
    }
    proof {
        lemma_table_find_absent(model@, op);
    }
    None
}

/// Overwrites the cost of `op` in a cost table, or records it when the
/// table lacks it.
pub(crate) fn table_update(model: &mut Vec<(OpCode, usize)>, op: OpCode, new_cost: usize)
    ensures
        table_map(final(model)@) == table_map(old(model)@).insert(op, new_cost),
{
    let n = model.len();
    let mut i: usize = 0;
    while i < n
        invariant
            n == model.len(),
            model@ == old(model)@,
            forall|j: int| 0 <= j < i ==> (#[trigger] model@[j]).0 != op,
        decreases n - i,
    {
        let pair = model[i];
        if pair.0 == op {
            model[i] = (op, new_cost);
            proof {
                assert forall|key: OpCode| true implies table_find(model@, key) == (
                if key == op {
                    Some(new_cost)
                } else {
                    table_find(old(model)@, key)
                }) by {
                    lemma_table_find_update(old(model)@, i as int, new_cost, key);
                }
                assert(table_map(model@) =~= table_map(old(model)@).insert(op, new_cost));
            }
            return ;
        }
        i = i + 1;
    }
    let ghost pre = model@;
    proof {
        lemma_table_find_absent(pre, op);
    }
    model.push((op, new_cost));
    proof {
        assert forall|key: OpCode| true implies table_find(model@, key) == (
        if key == op {
            Some(new_cost)
        } else {
            table_find(pre, key)
        }) by {
            lemma_table_find_push(pre, (op, new_cost), key);
        }
        assert(table_map(model@) =~= table_map(old(model)@).insert(op, new_cost));
    }
}

/// Copies the cost of one operator code over from a hash table.
pub(crate) fn table_absorb(model: &mut Vec<(OpCode, usize)>, m: &HashMap<OpCode, usize>, op: OpCode)
    requires
        !table_map(old(model)@).contains_key(op),
    ensures
        estimator_keys_modeled() ==> table_map(final(model)@) == if m@.contains_key(op) {
            table_map(old(model)@).insert(op, m@[op])
        } else {
            table_map(old(model)@)
        },
        !estimator_keys_modeled() ==> (table_map(final(model)@) == table_map(old(model)@)
            || exists|c: usize| table_map(final(model)@) == table_map(old(model)@).insert(op, c)),
{
    match m.get(&op) {
        Some(c) => {
            table_update(model, op, *c);
        },
        None => {},
    }
}

/// Hands a cost table out as a hash table.
pub(crate) fn table_to_hash(model: &Vec<(OpCode, usize)>) -> (r: HashMap<OpCode, usize>)
    ensures
        estimator_keys_modeled() ==> r@ == table_map(model@),
{
    let mut r: HashMap<OpCode, usize> = HashMap::new();
    let mut i: usize = model.len();
    while i > 0
        invariant
            i <= model.len(),
            estimator_keys_modeled() ==> r@ == table_map(model@.skip(i as int)),
        decreases i,
    {
        i = i - 1;
        let pair = model[i];
        r.insert(pair.0, pair.1);
        proof {
            if estimator_keys_modeled() {
                lemma_table_map_unfold(model@.skip(i as int));
                assert(model@.skip(i as int).drop_first() =~= model@.skip(i as int + 1));
            }
        }
    }
    proof {
        assert(model@.skip(0) =~= model@);
    }
    r
}

/// The estimator that computes the estimated cost for different workloads.
#[derive(Clone, Debug, PartialEq)]
pub struct WorkloadEstimator {
    cost_model: Vec<(OpCode, usize)>,
}

impl WorkloadEstimator {
    /// The mapping from operator codes to unit costs this estimator holds.
    pub closed spec fn costs(&self) -> Map<OpCode, usize> {
        table_map(self.cost_model@)
    }

    pub fn new() -> (r: Self)
        ensures
            r.costs() == default_unit_costs(),
    {
        WorkloadEstimator::default()
    }

    /// Builds the estimator straight from a cost table.
    pub(crate) fn from_table(cost_model: Vec<(OpCode, usize)>) -> (r: Self)
        ensures
            r.costs() == table_map(cost_model@),
    {
        WorkloadEstimator { cost_model }
    }

    /// Replaces the whole model. The contract is conditioned on vstd's model
    /// of hash-table keys, which it does not pin down for a derived `Hash`.
    pub fn set_model(cost_model: HashMap<OpCode, usize>) -> (r: Self)
        ensures
            estimator_keys_modeled() ==> r.costs() == cost_model@,
    {
        let mut model: Vec<(OpCode, usize)> = Vec::new();
        proof {
            assert(table_map(model@) =~= Map::<OpCode, usize>::empty());
        }
        table_absorb(&mut model, &cost_model, OpCode::DummyOp);
        table_absorb(&mut model, &cost_model, OpCode::AddOp);
        table_absorb(&mut model, &cost_model, OpCode::ConvOp);
        table_absorb(&mut model, &cost_model, OpCode::ExpOp);
        table_absorb(&mut model, &cost_model, OpCode::MatmulOp);
        table_absorb(&mut model, &cost_model, OpCode::SinOp);
        table_absorb(&mut model, &cost_model, OpCode::SubOp);
        proof {
            if estimator_keys_modeled() {
                assert(table_map(model@) =~= cost_model@);
            }
        }
        WorkloadEstimator { cost_model: model }
    }

    /// Hands the model out as a hash table.
    pub fn cost_model(&self) -> (r: HashMap<OpCode, usize>)
        ensures
            estimator_keys_modeled() ==> r@ == self.costs(),
    {
        table_to_hash(&self.cost_model)
    }

    /// The estimated cost of a workload: its operator's unit cost times its
    /// size.
    pub fn estimate(&self, workload: Workload) -> (r: usize)
        requires
            self.costs().contains_key(workload.op),
            self.costs()[workload.op] * workload.payload <= usize::MAX,
        ensures
            r == self.costs()[workload.op] * workload.payload,
    {
        let unit = match table_lookup(&self.cost_model, workload.op()) {
            Some(u) => u,
            None => unreached(),
        };
        proof {
            assert(unit == self.costs()[workload.op]);
        }
        unit * workload.payload()
    }

    /// Overwrites the unit cost of `op`, or records it when the model lacks
    /// it.
    pub fn update_model(&mut self, op: OpCode, new_cost: usize)
        ensures
            final(self).costs() == old(self).costs().insert(op, new_cost),
    {
        table_update(&mut self.cost_model, op, new_cost);
    }
}

impl Default for WorkloadEstimator {
    fn default() -> (r: Self)
        ensures
            r.costs() == default_unit_costs(),
    {
        let mut model: Vec<(OpCode, usize)> = Vec::new();
        proof {
            assert(table_map(model@) =~= Map::<OpCode, usize>::empty());
        }
        table_update(&mut model, OpCode::DummyOp, 4);
        table_update(&mut model, OpCode::AddOp, 2);
        table_update(&mut model, OpCode::ConvOp, 8);
        table_update(&mut model, OpCode::ExpOp, 1);
        table_update(&mut model, OpCode::MatmulOp, 10);
        table_update(&mut model, OpCode::SinOp, 1);
        table_update(&mut model, OpCode::SubOp, 2);
        proof {
            assert(table_map(model@) =~= default_unit_costs());
        }
        WorkloadEstimator { cost_model: model }
    }
}

} // verus!
