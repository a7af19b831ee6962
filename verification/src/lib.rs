//! An in-process actor runtime that dispatches simulated compute payloads
//! across a pool of worker actors, load-balancing by actor availability while
//! supporting pinned (device-affine) delivery and dependency-gated execution.
//!
//! The scheduling core is fully verified: the supervisor's routing decisions,
//! the two-queue (ready/delay) admission scheme, halting, and the actor-side
//! message handling all carry contracts, proved against the abstract
//! transitions in `scheduler`. Channel, timer, and identifier primitives of
//! the outside crates enter through the trusted `bindings` module.

pub mod actors;
pub mod bindings;
pub mod command_builder;
pub mod context;
pub mod cost_model;
pub mod cost_table;
pub mod dummy;
pub mod estimator;
pub mod estimator_builder;
pub mod executor;
pub mod executor_types;
pub mod mailbox;
pub mod mailbox_new;
pub mod messages;
pub mod scheduler;
pub mod syscmd_builder;
pub mod system;
pub mod system_builder;
pub mod system_command_builder;
pub mod system_config;
pub mod tensor_types;
pub mod typed_messages;
pub mod workload_builder;
pub mod workloads;
