//! Verified reward accounting and instruction logic of an NFT staking
//! program: a pool pays a fixed number of reward tokens per second, shared
//! out over the staked NFTs through a per-share accumulator.
pub mod claim;
pub mod laws;
pub mod metadata;
pub mod reward;
pub mod rules;
pub mod stake;
pub mod state;
pub mod user;

pub use claim::claim_rewards;
pub use metadata::{CreatorInfo, NftMetadata};
pub use reward::{store_pending_reward, update_reward_debt, update_reward_pool};
pub use stake::{enter_staking, enter_staking_decoded, init_staking, EnterAction, NFT_STAKE_AMOUNT};
pub use state::{
    Address, StakingContext, StakingError, StakingInstance, User, UserContext, COMPUTATION_DECIMALS,
};
pub use user::init_user;
