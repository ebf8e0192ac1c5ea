//! Static analysis over parsed Solidity contracts: per-function state-mutation
//! extraction, inter-procedural propagation through storage-reference
//! parameters, call-graph and modification-chain construction, and a
//! taint/data-flow engine that links untrusted inputs to sensitive operations.

pub mod analyzer;
pub mod ast;
pub mod callgraph;
pub mod chains;
pub mod dataflow;
pub mod extcalls;
pub mod laws;
pub mod models;
pub mod names;
pub mod parser;
pub mod scanner;
pub mod propagate;
pub mod reads;
pub mod relations;
pub mod taint;
pub mod upgradeable;
