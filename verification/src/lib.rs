//! A raffle in which the owner of an NFT puts it up as a prize, a winning
//! ticket is drawn once the raffle closes, and the holder of that ticket
//! claims the NFT.
//!
//! The library holds the raffle's state, its rules and the effects each
//! instruction asks of the chain, all with verified contracts.
pub mod key;
pub mod error;
pub mod state;
pub mod utils;
pub mod processor;
pub mod lifecycle;
pub mod guarantees;
