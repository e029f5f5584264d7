//! Decision logic of a bridge transfer pallet: who may start or complete a
//! cross-chain transfer, what each call hands to the bridge, the currency,
//! the token registry and the dispatcher, and how an interchain agent account is derived.

pub mod agent;
pub mod laws;
pub mod origin;
pub mod pallet;
pub mod token_id;
pub mod traits;
pub mod types;

pub use agent::{agent_account_of, decode_account_trailing_zero};
pub use pallet::{BridgeState, Config, Effect, Erc721Token, Event, Pallet};
pub use token_id::U256;
pub use traits::{Agent, AgentDispatch, AgentOrigin, AssetIdResourceIdProvider};
pub use types::{
    AccountId, Balance, ChainId, DepositNonce, DispatchError, Error, EthAddress, H256, Origin,
    ResourceId,
};
