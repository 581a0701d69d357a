//! Resource counts for a civilization-building board game: coins and seven
//! kinds of goods, with affordability, accumulation and a textual listing.

pub mod laws;
pub mod listing;
pub mod resources;
