use vstd::prelude::*;

use crate::types::{DispatchError, EthAddress, ResourceId};

verus! {

/// The origin of a call that arrives from another chain: the chain's tag and the
/// account that deposited the call there.
pub type AgentOrigin = (Vec<u8>, EthAddress);

/// A call to be dispatched on behalf of an agent account.
#[derive(Clone, Debug, PartialEq, Eq)]
pub struct AgentDispatch<Account, Message> {
    /// The account the call is signed by.
    pub signer: Account,
    /// The call itself.
    pub call: Message,
}

/// Acting on this chain for origins of other chains, through accounts that no
/// private key controls.
pub trait Agent<Account> {
    type Message;

    /// Binds a foreign origin to the account of this chain that acts for it.
    fn register_agent(origin: AgentOrigin) -> (res: Result<Account, DispatchError>)
        requires
            origin.0@.len() <= u32::MAX,
    ;

    /// Checks that a foreign origin may send `msg`.
    fn authenticate_tx(origin: AgentOrigin, msg: Self::Message) -> (res: Result<(), DispatchError>);

    /// Decides how `msg` is to be executed for a foreign origin: by whom it is signed.
    fn execute_tx(origin: AgentOrigin, msg: Self::Message) -> (res: Result<
        AgentDispatch<Account, Self::Message>,
        DispatchError,
    >)
        requires
            origin.0@.len() <= u32::MAX,
    ;
}

/// Maps bridged resources to the ids of the assets that stand for them.
pub trait AssetIdResourceIdProvider<AssetId> {
    type Err;

    fn try_get_asset_id(resource_id: ResourceId) -> (res: Result<AssetId, Self::Err>);
}

} // verus!
