//! Point-in-time execution state for a Starknet-style ledger.
//!
//! Two parts make up the crate. The class codec moves contract classes and
//! their ABIs between the wire form served to clients, the form the execution
//! engine works on, and the record that is kept in storage. The state overlay
//! buffers every write an execution makes and answers reads from that buffer
//! first, falling back to the ledger as it stood at one fixed block.
//!
//! Nothing here performs I/O: reads of the ledger are described as requests
//! that the caller performs and hands back.

pub mod abi;
pub mod compression;
pub mod contract_class;
pub mod entry_points;
pub mod error;
pub mod felt;
pub mod json;
pub mod ordered_map;
pub mod rpc;
pub mod state_adapter;
