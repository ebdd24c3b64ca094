//! Classification of raw chain event logs into transfers, pool creations and
//! swaps, and discovery of newly created ERC20 token contracts.
pub mod events;
pub mod log;
pub mod pools_handler;
pub mod swaps_handler;
pub mod tokens_handler;
pub mod transfers_handler;
pub mod words;
