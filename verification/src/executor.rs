//! The first-generation backend contract, over owned workloads, and the
//! executor that simulates each kernel by running the workload.

use vstd::prelude::*;

pub use crate::tensor_types::MockTensor as Workload;

use crate::cost_model::MockOpCode;

verus! {

/// The first-generation compute-backend contract: every kernel takes its
/// operands by value.
pub trait ExecutorLike: Sized {
    type TensorType;

    type OpCodeType;

    fn new_with_typeid(typeid: usize) -> Self;

    fn init(&mut self);

    fn mock_compute(&mut self, arg: Self::TensorType) -> Self::TensorType;

    fn unary_compute(&mut self, op: Self::OpCodeType, arg: Self::TensorType) -> Self::TensorType;

    fn binary_compute(
        &mut self,
        op: Self::OpCodeType,
        lhs: Self::TensorType,
        rhs: Self::TensorType,
    ) -> Self::TensorType;
}

/// A backend that simulates every kernel by running the workload itself.
#[derive(Debug)]
pub struct Executor {}

impl Executor {
    pub fn new() -> (e: Self) {
        Executor {  }
    }
}

impl ExecutorLike for Executor {
    type TensorType = Workload;

    type OpCodeType = MockOpCode;

    fn new_with_typeid(typeid: usize) -> Executor {
        Self::new()
    }

    fn init(&mut self) {
    }

    fn mock_compute(&mut self, arg: Self::TensorType) -> Self::TensorType {
        arg.mock_run();
        arg
    }

    fn unary_compute(&mut self, op: Self::OpCodeType, arg: Self::TensorType) -> Self::TensorType {
        arg.mock_run();
        arg
    }

    fn binary_compute(
        &mut self,
        op: Self::OpCodeType,
        lhs: Self::TensorType,
        rhs: Self::TensorType,
    ) -> Self::TensorType {
        lhs.mock_run();
        lhs
    }
}

} // verus!
