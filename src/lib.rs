//! A harness for a rollup ledger: accounts on the settlement chain and on
//! the ledger, the operations between them and the bytes their credentials
//! sign, the request protocol of the block-producing state keeper, the order
//! in which sealed blocks are committed and verified on-chain, and the steps
//! of the end-to-end scenario that ties them together.

use vstd::prelude::*;

pub mod account_set;
pub mod block;
pub mod encoding;
pub mod scenario;
pub mod settlement;
pub mod state_keeper;
pub mod types;
