//! Verified core of the Eldorado swap aggregator contracts: the funds checks,
//! the queue of pending recipients, the swap and transfer messages, and the
//! configuration rules of the Kujira, Osmosis and generic aggregators.
pub mod text;
pub mod error;
pub mod coin;
pub mod mantaswap;
pub mod mantaswap_mocks;
pub mod response;
pub mod types;
pub mod converters;
pub mod kujira;
pub mod osmosis;
pub mod aggregator;
