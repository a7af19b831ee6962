//! The pluggable compute-kernel backend contract, and the mock backend that
//! simulates each kernel by taking time.

use vstd::prelude::*;

use std::sync::Arc;
use std::sync::RwLock;

use crate::bindings;
use crate::cost_model::MockOpCode;
use crate::tensor_types::{MockTensor, TensorLike};

verus! {

/// The compute-kernel backend an actor owns: selected by a runtime type tag
/// at spawn time, with one entry point per kernel shape. All calls are
/// synchronous from the actor's perspective.
pub trait ExecutorLike: Sized {
    type TensorType;

    type OpCodeType;

    fn new_with_typeid(typeid: usize) -> Self;

    fn init(&mut self);

    fn mock_compute(&mut self, arg: Self::TensorType) -> Self::TensorType;

    fn unary_compute(
        &mut self,
        op: Self::OpCodeType,
        arg: Arc<RwLock<Self::TensorType>>,
    ) -> Self::TensorType;

    fn unary_compute_v2(
        &mut self,
        op: Self::OpCodeType,
        arg: Arc<RwLock<Self::TensorType>>,
        out: Arc<RwLock<Self::TensorType>>,
    );

    fn binary_compute(
        &mut self,
        op: Self::OpCodeType,
        lhs: Arc<RwLock<Self::TensorType>>,
        rhs: Arc<RwLock<Self::TensorType>>,
    ) -> Self::TensorType;

    fn binary_compute_v2(
        &mut self,
        op: Self::OpCodeType,
        lhs: Arc<RwLock<Self::TensorType>>,
        rhs: Arc<RwLock<Self::TensorType>>,
        out: Arc<RwLock<Self::TensorType>>,
    );

    fn tenary_compute_v2(
        &mut self,
        op: Self::OpCodeType,
        first: Arc<RwLock<Self::TensorType>>,
        second: Arc<RwLock<Self::TensorType>>,
        third: Arc<RwLock<Self::TensorType>>,
        out: Arc<RwLock<Self::TensorType>>,
    );

    fn dma_operation(
        &mut self,
        op: Self::OpCodeType,
        inp: Arc<RwLock<Self::TensorType>>,
        out: Arc<RwLock<Self::TensorType>>,
        shape: Vec<usize>,
    );
}

/// A backend that only takes time: one second for a unary kernel, two for a
/// binary one.
#[derive(Debug)]
pub struct MockExecutor {}

impl MockExecutor {
    pub fn new() -> (e: Self) {
        MockExecutor {  }
    }

    pub fn mock_unary<T: TensorLike + Clone>(&mut self, op: MockOpCode, arg: Arc<RwLock<T>>) -> T {
        bindings::sleep_millis(1000);
        bindings::read_locked(&arg)
    }

    pub fn mock_unary_v2<T: TensorLike + Clone>(
        &mut self,
        op: MockOpCode,
        arg: Arc<RwLock<T>>,
        ret: Arc<RwLock<T>>,
    ) {
        bindings::sleep_millis(1000);
    }

    pub fn mock_binary<T: TensorLike + Clone>(
        &mut self,
        op: MockOpCode,
        lhs: Arc<RwLock<T>>,
        rhs: Arc<RwLock<T>>,
    ) -> T {
        bindings::sleep_millis(2000);
        bindings::read_locked(&lhs)
    }

    pub fn mock_binary_v2<T: TensorLike + Clone>(
        &mut self,
        op: MockOpCode,
        lhs: Arc<RwLock<T>>,
        rhs: Arc<RwLock<T>>,
        out: Arc<RwLock<T>>,
    ) {
        bindings::sleep_millis(2000);
    }
}

impl ExecutorLike for MockExecutor {
    type TensorType = MockTensor;

    type OpCodeType = MockOpCode;

    fn new_with_typeid(typeid: usize) -> MockExecutor {
        Self::new()
    }

    fn init(&mut self) {
    }

    fn mock_compute(&mut self, arg: Self::TensorType) -> Self::TensorType {
        arg
    }

    fn unary_compute(
        &mut self,
        op: Self::OpCodeType,
        arg: Arc<RwLock<Self::TensorType>>,
    ) -> Self::TensorType {
        self.mock_unary::<Self::TensorType>(op, arg)
    }

    fn unary_compute_v2(
        &mut self,
        op: Self::OpCodeType,
        arg: Arc<RwLock<Self::TensorType>>,
        out: Arc<RwLock<Self::TensorType>>,
    ) {
        self.mock_unary_v2::<Self::TensorType>(op, arg, out);
    }

    fn binary_compute(
        &mut self,
        op: Self::OpCodeType,
        lhs: Arc<RwLock<Self::TensorType>>,
        rhs: Arc<RwLock<Self::TensorType>>,
    ) -> Self::TensorType {
        self.mock_binary::<Self::TensorType>(op, lhs, rhs)
    }

    fn binary_compute_v2(
        &mut self,
        op: Self::OpCodeType,
        lhs: Arc<RwLock<Self::TensorType>>,
        rhs: Arc<RwLock<Self::TensorType>>,
        out: Arc<RwLock<Self::TensorType>>,
    ) {
        self.mock_binary_v2::<Self::TensorType>(op, lhs, rhs, out);
    }

    fn tenary_compute_v2(
        &mut self,
        op: Self::OpCodeType,
        first: Arc<RwLock<Self::TensorType>>,
        second: Arc<RwLock<Self::TensorType>>,
        third: Arc<RwLock<Self::TensorType>>,
        out: Arc<RwLock<Self::TensorType>>,
    ) {
        bindings::sleep_millis(2000);
    }

    fn dma_operation(
        &mut self,
        op: Self::OpCodeType,
        inp: Arc<RwLock<Self::TensorType>>,
        out: Arc<RwLock<Self::TensorType>>,
        shape: Vec<usize>,
    ) {
        bindings::sleep_millis(1000);
    }
}

} // verus!
