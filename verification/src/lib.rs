//! The settlement engine of a marketplace for tokens that keeps the buyers'
//! money in escrow.
//!
//! An order is open while its trade state exists: a small account whose address
//! is derived from the order's terms. A sale matches a buyer's order with a
//! seller's, pays the creators of the asset their royalties, the marketplace its
//! fee and the seller the rest out of the buyer's escrow, hands the tokens to
//! the buyer, and closes both orders. All of it happens, or none of it.
//!
//! The instructions work on a copy of the accounts of their transaction and
//! list what they ask of the programs that keep the ledger; see [`ledger`].

pub mod auction_house;
pub mod constant;
pub mod errors;
pub mod execute_sale;
pub mod fees;
pub mod laws;
pub mod ledger;
pub mod program;
pub mod seeds;
pub mod state;
pub mod utils;
