//! Verified building blocks of a set of blockchain and workflow
//! proofs of concept.
pub mod json;
pub mod workflow_graph;
pub mod frame;
pub mod enclave;
pub mod authorization;
pub mod custom_token;
pub mod guessing_game;
pub mod student_registry;
pub mod para_genesis;
pub mod codegen_model;
pub mod generator;
pub mod runtime_types;
pub mod state_manager;
pub mod example;
pub mod counter;
pub mod cross_contract;
pub mod actor;
pub mod factorial;
pub mod kurtosis;
pub mod text;
