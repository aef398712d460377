//! A two-tier weighted-random outcome engine for a pay-to-play game.
//!
//! Every participant is first given a hidden *setting*, drawn from a global
//! distribution, and every later play draws an outcome from the payout table
//! of that setting. The crate holds the selection algorithm, the
//! pseudo-random source that feeds it, the lifecycle of the per-user record
//! and the rules that guard the global configuration. The ledger that stores
//! the records and moves the money is the caller's: the operations here take
//! the records of one transaction as plain values and say what they become.

pub mod config;
pub mod error;
pub mod identity;
pub mod laws;
pub mod payout;
pub mod random;
pub mod selector;
pub mod setting;
pub mod user;

pub use config::initialize;
pub use config::update_play_cost;
pub use config::update_probabilities;
pub use config::GlobalState;
pub use config::Initialize;
pub use config::UpdatePlayCost;
pub use config::UpdateProbabilities;
pub use error::ErrorCode;
pub use identity::Identity;
pub use payout::play_game;
pub use payout::resolve;
pub use payout::GameResult;
pub use random::next_random;
pub use random::random_from_timestamp;
pub use selector::select;
pub use setting::assign_setting;
pub use setting::setting_from_draw;
pub use user::create_user;
pub use user::create_user_with;
pub use user::play;
pub use user::play_with;
pub use user::CreateUser;
pub use user::Play;
pub use user::PlayAction;
pub use user::PlayEvent;
pub use user::UserState;
