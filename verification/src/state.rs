//! Account state of the staking program: the pool-wide staking instance and the
//! per-user position, plus the addresses they refer to.
use vstd::prelude::*;

verus! {

/// Fixed-point scale of `accumulated_reward_per_share`: the accumulator holds
/// reward tokens per staked share multiplied by this factor.
pub const COMPUTATION_DECIMALS: u64 = 1_000_000_000_000;

/// A 32-byte account address (the bytes of a Solana public key).
#[derive(Clone, Copy, Debug)]
pub struct Address {
    pub bytes: [u8; 32],
}

impl View for Address {
    type V = Seq<u8>;

    open spec fn view(&self) -> Seq<u8> {
        self.bytes@
    }
}

impl Address {
    /// Wraps the 32 bytes of a public key.
    pub fn new(bytes: [u8; 32]) -> (r: Address)
        ensures
            r.bytes == bytes,
    {
        Address { bytes }
    }

    /// Whether two addresses hold the same bytes.
    pub fn same_as(&self, other: &Address) -> (r: bool)
        ensures
            r == (self@ == other@),
    {
        let mut i: usize = 0;
        while i < 32
            invariant
                0 <= i <= 32,
                self@.len() == 32,
                other@.len() == 32,
                forall|j: int| 0 <= j < i ==> self@[j] == other@[j],
            decreases 32 - i,
        {
            if self.bytes[i] != other.bytes[i] {
                assert(self@[i as int] != other@[i as int]);
                return false;
            }
            i = i + 1;
        }
        assert(self@ =~= other@);
        true
    }
}

/// Pool-wide staking state: who created it, the reward rate, the reward
/// accumulator and the number of staked shares.
#[derive(Clone, Copy, Debug)]
pub struct StakingContext {
    pub authority: Address,
    pub reward_token_per_sec: u64,
    pub reward_token_mint: Address,
    pub allowed_collection_address: Address,
    pub accumulated_reward_per_share: u64,
    pub last_reward_timestamp: u64,
    pub total_shares: u64,
}

/// One user's staking position.
#[derive(Clone, Copy, Debug)]
pub struct UserContext {
    pub deposited_amount: u64,
    pub reward_debt: u64,
    pub accumulated_reward: u64,
}

/// The staking instance account, under its other name.
pub type StakingInstance = StakingContext;

/// The user account, under its other name.
pub type User = UserContext;

/// Why an instruction is refused. A refused instruction changes no state.
#[derive(Clone, Copy, Debug, PartialEq, Eq, Structural)]
pub enum StakingError {
    /// The NFT metadata account does not decode as token metadata.
    MetadataUnreadable,
    /// The NFT metadata lists no creators.
    MissingCreators,
    /// A checked arithmetic step (subtraction, multiplication or addition)
    /// leaves the range of `u64`.
    MathOverflow,
    /// The requested claim is larger than the user's accumulated reward.
    ClaimExceedsReward,
}

impl Default for Address {
    fn default() -> (r: Address)
        ensures
            forall|i: int| 0 <= i < 32 ==> r@[i] == 0,
    {
        Address { bytes: [0u8; 32] }
    }
}

impl Default for StakingContext {
    fn default() -> (r: StakingContext)
        ensures
            forall|i: int| 0 <= i < 32 ==> r.authority@[i] == 0,
            forall|i: int| 0 <= i < 32 ==> r.reward_token_mint@[i] == 0,
            forall|i: int| 0 <= i < 32 ==> r.allowed_collection_address@[i] == 0,
            r.reward_token_per_sec == 0,
            r.accumulated_reward_per_share == 0,
            r.last_reward_timestamp == 0,
            r.total_shares == 0,
    {
        StakingContext {
            authority: Address::default(),
            reward_token_per_sec: 0,
            reward_token_mint: Address::default(),
            allowed_collection_address: Address::default(),
            accumulated_reward_per_share: 0,
            last_reward_timestamp: 0,
            total_shares: 0,
        }
    }
}

impl Default for UserContext {
    fn default() -> (r: UserContext)
        ensures
            r.deposited_amount == 0,
            r.reward_debt == 0,
            r.accumulated_reward == 0,
    {
        UserContext { deposited_amount: 0, reward_debt: 0, accumulated_reward: 0 }
    }
}

} // verus!
