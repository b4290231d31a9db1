//! A small voting contract: votes for one of three fixed colors are kept in an
//! append-only store, tallied on demand, and a leading color is reported.

pub mod contract;
pub mod json;
pub mod leader;
pub mod message;
pub mod store;
pub mod vote;

pub use contract::{cast_and_tally, cast_vote};
pub use json::encode_response;
pub use leader::winner;
pub use message::{decimal_text, tally_text, vote_message};
pub use store::{ColorCount, VoteStore};
pub use vote::{is_valid_color, CastAndTally, ContractError, ContractResponse, Vote};
