//! A verified model of a lootbox program: a user links a verifiable-randomness
//! source to a per-user session, stakes tokens to request a random value,
//! consumes the published value into one of three reward buckets, and mints
//! the selected reward exactly once per request.
//!
//! The chain runtime itself (account storage, cross-program calls, signing)
//! is outside this library: every entry point here is a pure transition on
//! plain values, and a host harness performs the external actions the
//! transitions call for.

pub mod ids;
pub mod outcome;
pub mod state;
pub mod addressing;
pub mod init_lootbox;
pub mod init_user;
pub mod request_randomness;
pub mod consume_randomness;
pub mod mint_reward;
pub mod lifecycle;

pub use ids::AccountId;
pub use state::{Lootbox, LootboxErrorCode, UserState};
pub use consume_randomness::{consume_randomness, ConsumeRandomness, VrfAccount};
pub use init_lootbox::{init_lootbox, InitLootbox, MintAccount};
pub use init_user::{init_user, InitUser, InitUserParams};
pub use request_randomness::{request_randomness, RequestRandomness};
pub use mint_reward::{mint_reward, MintReward};
