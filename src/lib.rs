pub mod filter;
pub mod listing;
pub mod purge;
pub mod text;
