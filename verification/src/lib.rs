//! Crowdfunding vault logic of the Realbox program: the sale life cycle,
//! token purchases and returns through agents, finalization, and the
//! settlement that decides which purchases are claimed and which refunded.
pub mod errors;
pub mod instructions;
pub mod laws;
pub mod schema;
pub mod settlement;
pub mod state;
pub mod utils;
