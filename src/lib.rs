//! Futures between staking indexers and buyers: a stake ledger, a registry of
//! escrowed futures with a create / cancel / settle lifecycle, and a log of
//! proofs of indexing.
//!
//! The contract state is an ordinary value; the surrounding host supplies the
//! caller, the block time and a token gateway, and logs the events returned.

mod contract;
pub mod laws;
mod model;
mod table;
mod types;
mod uint;

pub use contract::{
    one_request, rejected, settled_by, token_call, transfer_tokens, IndexerFuturesContract, TokenCall,
    TokenGateway, ERC20,
};
pub use model::ContractView;
pub use types::{Address, Bytes32, Event, Future, FutureKey, FuturesError, PoiKey};
pub use uint::{u256_bound, U256};
