//! The cost model: maps an operator code to an estimated unit cost, used
//! only to simulate work duration, never for scheduling decisions.

use vstd::prelude::*;

use std::collections::HashMap;

use crate::cost_table::{
    lemma_table_find_absent, lemma_table_find_at, lemma_table_find_push, lemma_table_find_update,
    lemma_table_map_unfold, table_find, table_map,
};
use crate::tensor_types::MockTensor;

verus! {

broadcast use vstd::std_specs::hash::group_hash_axioms;

/// Anything that can serve as an operator code.
pub trait OpCodeLike {}

/// The operator codes the mock backend understands.
#[derive(Clone, Copy, Debug, Eq, PartialEq, Hash, Structural)]
pub enum MockOpCode {
    IdentityOp,
    AddOp,
    SubOp,
    MulOp,
    DivOp,
    ConvOp,
    ExpOp,
    ReshapeOp,
    MatmulOp,
    SinOp,
}

impl OpCodeLike for MockOpCode {

}

impl Default for MockOpCode {
    fn default() -> (r: Self)
        ensures
            r == MockOpCode::IdentityOp,
    {
        MockOpCode::IdentityOp
    }
}

/// The built-in unit costs.
pub open spec fn default_costs() -> Map<MockOpCode, usize> {
    map![
        MockOpCode::IdentityOp => 2usize,
        MockOpCode::AddOp => 11usize,
        MockOpCode::SubOp => 17usize,
        MockOpCode::MulOp => 71usize,
        MockOpCode::DivOp => 87usize,
        MockOpCode::ConvOp => 107usize,
        MockOpCode::ExpOp => 173usize,
        MockOpCode::ReshapeOp => 37usize,
        MockOpCode::MatmulOp => 57usize,
        MockOpCode::SinOp => 127usize,
    ]
}

/// Abbreviates the hypothesis under which vstd specifies hash tables keyed
/// by an operator code.
pub open spec fn op_keys_modeled() -> bool {
    vstd::std_specs::hash::obeys_key_model::<MockOpCode>()
}

/// The estimator that computes the estimated cost for different ops.
#[derive(Clone, Debug, PartialEq)]
pub struct CostModel {
    model: Vec<(MockOpCode, usize)>,
}

impl CostModel {
    /// The mapping from operator codes to costs this model holds.
    pub closed spec fn costs(&self) -> Map<MockOpCode, usize> {
        table_map(self.model@)
    }

    pub fn new() -> (r: Self)
        ensures
            r.costs() == default_costs(),
    {
        CostModel::default()
    }

    /// Replaces the whole model. The contract is conditioned on vstd's model
    /// of hash-table keys, which it does not pin down for a derived `Hash`.
    pub fn set_model(cost_model: HashMap<MockOpCode, usize>) -> (r: Self)
        ensures
            op_keys_modeled() ==> r.costs() == cost_model@,
    {
        let mut r = CostModel { model: Vec::new() };
        proof {
            assert(r.costs() =~= Map::<MockOpCode, usize>::empty());
        }
        r.absorb(&cost_model, MockOpCode::IdentityOp);
        r.absorb(&cost_model, MockOpCode::AddOp);
        r.absorb(&cost_model, MockOpCode::SubOp);
        r.absorb(&cost_model, MockOpCode::MulOp);
        r.absorb(&cost_model, MockOpCode::DivOp);
        r.absorb(&cost_model, MockOpCode::ConvOp);
        r.absorb(&cost_model, MockOpCode::ExpOp);
        r.absorb(&cost_model, MockOpCode::ReshapeOp);
        r.absorb(&cost_model, MockOpCode::MatmulOp);
        r.absorb(&cost_model, MockOpCode::SinOp);
        proof {
            if op_keys_modeled() {
                assert(r.costs() =~= cost_model@);
            }
        }
        r
    }

    /// Copies the cost of one operator code over from a hash table.
    fn absorb(&mut self, m: &HashMap<MockOpCode, usize>, op: MockOpCode)
        requires
            !old(self).costs().contains_key(op),
        ensures
            op_keys_modeled() ==> final(self).costs() == if m@.contains_key(op) {
                old(self).costs().insert(op, m@[op])
            } else {
                old(self).costs()
            },
            !op_keys_modeled() ==> (final(self).costs() == old(self).costs()
                || exists|c: usize| final(self).costs() == old(self).costs().insert(op, c)),
    {
        match m.get(&op) {
            Some(c) => {
                self.update_model(op, *c);
            }
            None => {}
        }
    }

    /// Hands the model out as a hash table.
    pub fn cost_model(&self) -> (r: HashMap<MockOpCode, usize>)
        ensures
            op_keys_modeled() ==> r@ == self.costs(),
    {
        let mut r: HashMap<MockOpCode, usize> = HashMap::new();
        let mut i: usize = self.model.len();
        while i > 0
            invariant
                i <= self.model.len(),
                op_keys_modeled() ==> r@ == table_map(self.model@.skip(i as int)),
            decreases i,
        {
            i = i - 1;
            let pair = self.model[i];
            r.insert(pair.0, pair.1);
            proof {
                if op_keys_modeled() {
                    lemma_table_map_unfold(self.model@.skip(i as int));
                    assert(self.model@.skip(i as int).drop_first() =~= self.model@.skip(
                        i as int + 1,
                    ));
                }
            }
        }
        proof {
            assert(self.model@.skip(0) =~= self.model@);
        }
        r
    }

    /// The estimated cost of a workload, by its operator code.
    pub fn estimate(&self, workload: &MockTensor) -> (r: usize)
        requires
            self.costs().contains_key(workload.op),
        ensures
            r == self.costs()[workload.op],
    {
        let op = workload.op();
        let mut i: usize = 0;
        while i < self.model.len()
            invariant
                i <= self.model.len(),
                op == workload.op,
                forall|j: int| 0 <= j < i ==> (#[trigger] self.model@[j]).0 != op,
                self.costs().contains_key(op),
            decreases self.model.len() - i,
        {
            let pair = self.model[i];
            if pair.0 == op {
                proof {
                    lemma_table_find_at(self.model@, op, i as int);
                    assert(table_find(self.model@, op) == Some(pair.1));
                    assert(self.costs()[op] == pair.1);
                }
                return pair.1;
            }
            i = i + 1;
        }
        proof {
            lemma_table_find_absent(self.model@, op);
        }
        unreached()
    }

    /// Overwrites the cost of `op`, or records it when the model lacks it.
    pub fn update_model(&mut self, op: MockOpCode, new_cost: usize)
        ensures
            final(self).costs() == old(self).costs().insert(op, new_cost),
    {
        let n = self.model.len();
        let mut i: usize = 0;
        while i < n
            invariant
                n == self.model.len(),
                self.model@ == old(self).model@,
                forall|j: int| 0 <= j < i ==> (#[trigger] self.model@[j]).0 != op,
            decreases n - i,
        {
            let pair = self.model[i];
            if pair.0 == op {
                self.model[i] = (op, new_cost);
                proof {
                    assert forall|key: MockOpCode| true implies table_find(self.model@, key) == (
                    if key == op {
                        Some(new_cost)
                    } else {
                        table_find(old(self).model@, key)
                    }) by {
                        lemma_table_find_update(old(self).model@, i as int, new_cost, key);
                    }
                    assert(self.costs() =~= old(self).costs().insert(op, new_cost));
                }
                return ;
            }
            i = i + 1;
        }
        let ghost pre = self.model@;
        proof {
            lemma_table_find_absent(pre, op);
        }
        self.model.push((op, new_cost));
        proof {
            assert forall|key: MockOpCode| true implies table_find(self.model@, key) == (
            if key == op {
                Some(new_cost)
            } else {
                table_find(pre, key)
            }) by {
                lemma_table_find_push(pre, (op, new_cost), key);
            }
            assert(self.costs() =~= old(self).costs().insert(op, new_cost));
        }
    }

}

impl Default for CostModel {
    fn default() -> (r: Self)
        ensures
            r.costs() == default_costs(),
    {
        let mut r = CostModel { model: Vec::new() };
        proof {
            assert(r.costs() =~= Map::<MockOpCode, usize>::empty());
        }
        r.update_model(MockOpCode::IdentityOp, 2);
        r.update_model(MockOpCode::AddOp, 11);
        r.update_model(MockOpCode::SubOp, 17);
        r.update_model(MockOpCode::MulOp, 71);
        r.update_model(MockOpCode::DivOp, 87);
        r.update_model(MockOpCode::ConvOp, 107);
        r.update_model(MockOpCode::ExpOp, 173);
        r.update_model(MockOpCode::ReshapeOp, 37);
        r.update_model(MockOpCode::MatmulOp, 57);
        r.update_model(MockOpCode::SinOp, 127);
        proof {
            assert(r.costs() =~= default_costs());
        }
        r
    }
}

} // verus!
