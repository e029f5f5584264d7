use vstd::prelude::*;

use core::marker::PhantomData;

use crate::agent::{agent_account, agent_account_of};
use crate::origin::{
    ensure_bridge, ensure_root, ensure_signed, spec_ensure_bridge, spec_ensure_root,
    spec_ensure_signed,
};
use crate::token_id::{big_endian_bytes, U256};
use crate::traits::{Agent, AgentDispatch, AgentOrigin};
use crate::types::{
    AccountId, Balance, ChainId, DepositNonce, DispatchError, Error, EthAddress, H256, Origin,
    ResourceId,
};

verus! {

/// The constants a runtime configures the pallet with.
#[derive(Clone, Copy, Debug, PartialEq, Eq)]
pub struct Config {
    /// The resource that stands for the native token.
    pub native_token_id: ResourceId,
    /// The resource that arbitrary hashes are sent under.
    pub hash_id: ResourceId,
    /// The resource that non-fungible tokens are sent under.
    pub erc721_id: ResourceId,
    /// The largest native token value.
    pub native_token_max_value: Balance,
    /// The account whose signed calls the bridge makes.
    pub bridge_account: AccountId,
}

/// No chain id occurs twice among `chains`.
pub open spec fn distinct_chain_ids(chains: Seq<(ChainId, DepositNonce)>) -> bool {
    forall|i: int, j: int|
        0 <= i < j < chains.len() ==> #[trigger] chains[i].0 != #[trigger] chains[j].0
}

/// What the pallet reads of the bridge's storage: the deposit nonce of each
/// chain that has one, which are the whitelisted chains. Each chain appears once.
#[derive(Debug, PartialEq, Eq)]
pub struct BridgeState {
    chains: Vec<(ChainId, DepositNonce)>,
}

impl View for BridgeState {
    type V = Seq<(ChainId, DepositNonce)>;

    closed spec fn view(&self) -> Seq<(ChainId, DepositNonce)> {
        self.chains@
    }
}

impl Clone for BridgeState {
    fn clone(&self) -> (copy: Self)
        ensures
            copy@ == self@,
    {
        proof {
            use_type_invariant(self);
        }
        let mut chains: Vec<(ChainId, DepositNonce)> = Vec::new();
        let mut i: usize = 0;
        while i < self.chains.len()
            invariant
                i <= self.chains@.len(),
                chains@ == self.chains@.subrange(0, i as int),
            decreases self.chains@.len() - i,
        {
            chains.push(self.chains[i]);
            i = i + 1;
            assert(chains@ =~= self.chains@.subrange(0, i as int));
        }
        assert(self.chains@.subrange(0, self.chains@.len() as int) =~= self.chains@);
        BridgeState { chains }
    }
}

impl BridgeState {
    #[verifier::type_invariant]
    spec fn chain_ids_distinct(self) -> bool {
        distinct_chain_ids(self.chains@)
    }

    pub open spec fn spec_chain_whitelisted(&self, id: ChainId) -> bool {
        exists|i: int| 0 <= i < self@.len() && #[trigger] self@[i].0 == id
    }

    /// The bridge state with these chain nonces, if no chain id occurs twice.
    pub fn from_chains(chains: Vec<(ChainId, DepositNonce)>) -> (state: Option<Self>)
        ensures
            state is Some <==> distinct_chain_ids(chains@),
            state matches Some(b) ==> b@ == chains@,
    {
        let mut i: usize = 0;
        while i < chains.len()
            invariant
                i <= chains@.len(),
                forall|a: int, b: int|
                    0 <= a < b < chains@.len() && a < i ==> #[trigger] chains@[a].0
                        != #[trigger] chains@[b].0,
            decreases chains@.len() - i,
        {
            let mut j: usize = i + 1;
            while j < chains.len()
                invariant
                    i < j <= chains@.len(),
                    i < chains@.len(),
                    forall|a: int, b: int|
                        0 <= a < b < chains@.len() && a < i ==> #[trigger] chains@[a].0
                            != #[trigger] chains@[b].0,
                    forall|b: int| i < b < j ==> chains@[i as int].0 != #[trigger] chains@[b].0,
                decreases chains@.len() - j,
            {
                if chains[i].0 == chains[j].0 {
                    return None;
                }
                j = j + 1;
            }
            i = i + 1;
        }
        Some(BridgeState { chains })
    }

    /// The chain nonces the state holds; no chain id occurs twice.
    pub fn chains(&self) -> (chains: &Vec<(ChainId, DepositNonce)>)
        ensures
            chains@ == self@,
            distinct_chain_ids(self@),
    {
        proof {
            use_type_invariant(self);
        }
        &self.chains
    }

    /// Whether transfers to chain `id` are allowed.
    pub fn chain_whitelisted(&self, id: ChainId) -> (whitelisted: bool)
        ensures
            whitelisted == self.spec_chain_whitelisted(id),
    {
        let mut i: usize = 0;
        while i < self.chains.len()
            invariant
                i <= self@.len(),
                forall|j: int| 0 <= j < i ==> #[trigger] self@[j].0 != id,
            decreases self@.len() - i,
        {
            if self.chains[i].0 == id {
                return true;
            }
            i = i + 1;
        }
        false
    }
}

/// A non-fungible token as the token registry holds it.
#[derive(Clone, Debug, PartialEq, Eq)]
pub struct Erc721Token {
    pub id: U256,
    pub metadata: Vec<u8>,
}

/// Events of the pallet.
#[allow(inconsistent_fields)]
#[derive(Clone, Debug, PartialEq, Eq)]
pub enum Event {
    /// Assets were deposited.
    Deposit {
        sender: AccountId,
        recipient: AccountId,
        resource_id: ResourceId,
        amount: Balance,
    },
    /// Assets were withdrawn.
    Withdraw { sender: AccountId, recipient: Vec<u8>, resource_id: ResourceId, amount: Balance },
    /// A hash was remarked.
    Remark(H256),
}

/// What an accepted call asks the rest of the runtime to do.
#[allow(inconsistent_fields)]
#[derive(Clone, Debug, PartialEq, Eq)]
pub enum Effect<Call> {
    /// The bridge sends `metadata` to chain `dest_id` under `resource_id`.
    TransferGeneric { dest_id: ChainId, resource_id: ResourceId, metadata: Vec<u8> },
    /// `amount` of the native token is locked from `source` and sent to `recipient` on `dest_id`.
    Lock {
        source: AccountId,
        amount: Balance,
        resource_id: ResourceId,
        recipient: Vec<u8>,
        dest_id: ChainId,
    },
    /// Token `token_id` of `source` is burnt, then sent to `recipient` on `dest_id`, the
    /// token id as 32 big-endian bytes.
    TransferErc721 {
        source: AccountId,
        token_id: U256,
        dest_id: ChainId,
        resource_id: ResourceId,
        token_bytes: Vec<u8>,
        recipient: Vec<u8>,
        metadata: Vec<u8>,
    },
    /// `amount` of the native token goes from `source` to `to`.
    Unlock { source: AccountId, to: AccountId, amount: Balance },
    /// `call` is dispatched signed by `signer`.
    Dispatch { signer: AccountId, call: Call },
    /// Token `id` is minted to `recipient` with `metadata`.
    MintErc721 { recipient: AccountId, id: U256, metadata: Vec<u8> },
}

/// An effect with its byte vectors seen as sequences.
#[allow(inconsistent_fields)]
pub enum EffectView<Call> {
    TransferGeneric { dest_id: ChainId, resource_id: ResourceId, metadata: Seq<u8> },
    Lock {
        source: AccountId,
        amount: Balance,
        resource_id: ResourceId,
        recipient: Seq<u8>,
        dest_id: ChainId,
    },
    TransferErc721 {
        source: AccountId,
        token_id: U256,
        dest_id: ChainId,
        resource_id: ResourceId,
        token_bytes: Seq<u8>,
        recipient: Seq<u8>,
        metadata: Seq<u8>,
    },
    Unlock { source: AccountId, to: AccountId, amount: Balance },
    Dispatch { signer: Seq<u8>, call: Call },
    MintErc721 { recipient: AccountId, id: U256, metadata: Seq<u8> },
}

impl<Call> View for Effect<Call> {
    type V = EffectView<Call>;

    open spec fn view(&self) -> EffectView<Call> {
        match self {
            Effect::TransferGeneric { dest_id, resource_id, metadata } => EffectView::TransferGeneric {
                dest_id: *dest_id,
                resource_id: *resource_id,
                metadata: metadata@,
            },
            Effect::Lock { source, amount, resource_id, recipient, dest_id } => EffectView::Lock {
                source: *source,
                amount: *amount,
                resource_id: *resource_id,
                recipient: recipient@,
                dest_id: *dest_id,
            },
            Effect::TransferErc721 {
                source,
                token_id,
                dest_id,
                resource_id,
                token_bytes,
                recipient,
                metadata,
            } => EffectView::TransferErc721 {
                source: *source,
                token_id: *token_id,
                dest_id: *dest_id,
                resource_id: *resource_id,
                token_bytes: token_bytes@,
                recipient: recipient@,
                metadata: metadata@,
            },
            Effect::Unlock { source, to, amount } => EffectView::Unlock {
                source: *source,
                to: *to,
                amount: *amount,
            },
            Effect::Dispatch { signer, call } => EffectView::Dispatch { signer: signer@, call: *call },
            Effect::MintErc721 { recipient, id, metadata } => EffectView::MintErc721 {
                recipient: *recipient,
                id: *id,
                metadata: metadata@,
            },
        }
    }
}

/// The metadata of a token the registry holds, if it holds one.
pub open spec fn token_metadata(token: Option<Erc721Token>) -> Option<Seq<u8>> {
    match token {
        Some(t) => Some(t.metadata@),
        None => None,
    }
}

/// The outcome of a call, its effect seen through its view.
pub open spec fn outcome_view<Call>(res: Result<Effect<Call>, DispatchError>) -> Result<
    EffectView<Call>,
    DispatchError,
> {
    match res {
        Ok(effect) => Ok(effect@),
        Err(e) => Err(e),
    }
}

/// The tag of the chain that remarks arrive from.
pub open spec fn eth_chain_tag() -> Seq<u8> {
    seq![69u8, 84, 72]
}

/// Sending a hash: any signed origin may send it to `dest_id` under the hash resource.
pub open spec fn spec_transfer_hash<Call>(
    config: Config,
    origin: Origin,
    hash: H256,
    dest_id: ChainId,
) -> Result<EffectView<Call>, DispatchError> {
    match spec_ensure_signed(origin) {
        Ok(_) => Ok(
            EffectView::TransferGeneric {
                dest_id,
                resource_id: config.hash_id,
                metadata: hash@,
            },
        ),
        Err(e) => Err(e),
    }
}

/// Sending native tokens: `amount` of the signer's native token is locked and
/// sent to `recipient` on `dest_id` under `r_id`; the destination must be whitelisted.
pub open spec fn spec_generic_token_transfer<Call>(
    config: Config,
    bridge: BridgeState,
    origin: Origin,
    amount: Balance,
    r_id: ResourceId,
    recipient: Seq<u8>,
    dest_id: ChainId,
) -> Result<EffectView<Call>, DispatchError> {
    match spec_ensure_signed(origin) {
        Err(e) => Err(e),
        Ok(source) => if !bridge.spec_chain_whitelisted(dest_id) {
            Err(DispatchError::Module(Error::InvalidTransfer))
        } else {
            Ok(EffectView::Lock { source, amount, resource_id: r_id, recipient, dest_id })
        },
    }
}

/// Sending a non-fungible token the registry knows of: it is burnt and sent under
/// the non-fungible resource.
pub open spec fn spec_transfer_erc721<Call>(
    config: Config,
    bridge: BridgeState,
    origin: Origin,
    recipient: Seq<u8>,
    token_id: U256,
    token_metadata: Option<Seq<u8>>,
    dest_id: ChainId,
) -> Result<EffectView<Call>, DispatchError> {
    match spec_ensure_signed(origin) {
        Err(e) => Err(e),
        Ok(source) => if !bridge.spec_chain_whitelisted(dest_id) {
            Err(DispatchError::Module(Error::InvalidTransfer))
        } else {
            match token_metadata {
                Some(metadata) => Ok(
                    EffectView::TransferErc721 {
                        source,
                        token_id,
                        dest_id,
                        resource_id: config.erc721_id,
                        token_bytes: big_endian_bytes(token_id.0),
                        recipient,
                        metadata,
                    },
                ),
                None => Err(DispatchError::Module(Error::InvalidTransfer)),
            }
        },
    }
}

/// Completing a transfer from another chain: a plain currency transfer of `amount`
/// from the bridge account to `to`.
pub open spec fn spec_transfer<Call>(
    config: Config,
    origin: Origin,
    to: AccountId,
    amount: Balance,
    r_id: ResourceId,
) -> Result<EffectView<Call>, DispatchError> {
    match spec_ensure_bridge(origin, config.bridge_account) {
        Err(e) => Err(e),
        Ok(source) => Ok(EffectView::Unlock { source, to, amount }),
    }
}

/// Executing a call that arrived from another chain: it is dispatched signed by
/// the agent account of its depositer.
pub open spec fn spec_remark<Call>(
    config: Config,
    origin: Origin,
    decoded: Option<Call>,
    depositer: EthAddress,
) -> Result<EffectView<Call>, DispatchError> {
    match spec_ensure_bridge(origin, config.bridge_account) {
        Err(e) => Err(e),
        Ok(_) => match decoded {
            None => Err(DispatchError::Module(Error::InvalidCallMessage)),
            Some(call) => Ok(
                EffectView::Dispatch { signer: agent_account(eth_chain_tag(), depositer@), call },
            ),
        },
    }
}

/// Minting a non-fungible token that arrived from another chain.
pub open spec fn spec_mint_erc721<Call>(
    config: Config,
    origin: Origin,
    recipient: AccountId,
    id: U256,
    metadata: Seq<u8>,
) -> Result<EffectView<Call>, DispatchError> {
    match spec_ensure_bridge(origin, config.bridge_account) {
        Err(e) => Err(e),
        Ok(_) => Ok(EffectView::MintErc721 { recipient, id, metadata }),
    }
}

/// The bytes of a 32-byte array, as a vector.
fn bytes32_to_vec(bytes: &[u8; 32]) -> (v: Vec<u8>)
    ensures
        v@ == bytes@,
{
    let mut v: Vec<u8> = Vec::new();
    let mut i: usize = 0;
    while i < 32
        invariant
            i <= 32,
            v@ == bytes@.subrange(0, i as int),
        decreases 32 - i,
    {
        v.push(bytes[i]);
        i = i + 1;
        assert(v@ =~= bytes@.subrange(0, i as int));
    }
    assert(bytes@.subrange(0, 32) =~= bytes@);
    v
}

/// The bridge transfer pallet: its configuration and its storage.
pub struct Pallet<Call> {
    pub config: Config,
    /// Whether native transfers are limited.
    pub native_check: bool,
    pub calls: PhantomData<Call>,
}

impl<Call> Pallet<Call> {
    /// A pallet with the given configuration and empty storage.
    pub fn new(config: Config) -> (pallet: Self)
        ensures
            pallet.config == config,
            !pallet.native_check,
    {
        Pallet { config, native_check: false, calls: PhantomData }
    }

    /// Whether native transfers are limited.
    pub fn native_check(&self) -> (check: bool)
        ensures
            check == self.native_check,
    {
        self.native_check
    }

    /// Sets the native transfer limit flag; root only.
    pub fn native_limit(&mut self, origin: Origin, value: bool) -> (res: Result<(), DispatchError>)
        ensures
            res == spec_ensure_root(origin),
            res is Ok ==> final(self).native_check == value && final(self).config == old(
                self,
            ).config,
            res is Err ==> *final(self) == *old(self),
    {
        ensure_root(origin)?;
        self.native_check = value;
        Ok(())
    }

    /// Sends `hash` to chain `dest_id` under the hash resource.
    pub fn transfer_hash(&self, origin: Origin, hash: H256, dest_id: ChainId) -> (res: Result<
        Effect<Call>,
        DispatchError,
    >)
        ensures
            outcome_view(res) == spec_transfer_hash::<Call>(self.config, origin, hash, dest_id),
    {
        ensure_signed(origin)?;
        let resource_id = self.config.hash_id;
        let metadata = bytes32_to_vec(&hash);
        Ok(Effect::TransferGeneric { dest_id, resource_id, metadata })
    }

    /// Sends `amount` of the native token to `recipient` on chain `dest_id`.
    pub fn transfer_native(
        &self,
        bridge: &BridgeState,
        origin: Origin,
        amount: Balance,
        recipient: Vec<u8>,
        dest_id: ChainId,
    ) -> (res: Result<Effect<Call>, DispatchError>)
        ensures
            outcome_view(res) == spec_generic_token_transfer::<Call>(
                self.config,
                *bridge,
                origin,
                amount,
                self.config.native_token_id,
                recipient@,
                dest_id,
            ),
    {
        let native_token = self.config.native_token_id;
        self.generic_token_transfer(bridge, origin, amount, native_token, recipient, dest_id)
    }

    /// Sends `amount` of the native token to `recipient` on chain `dest_id`, under
    /// the resource `r_id`.
    pub fn generic_token_transfer(
        &self,
        bridge: &BridgeState,
        origin: Origin,
        amount: Balance,
        r_id: ResourceId,
        recipient: Vec<u8>,
        dest_id: ChainId,
    ) -> (res: Result<Effect<Call>, DispatchError>)
        ensures
            outcome_view(res) == spec_generic_token_transfer::<Call>(
                self.config,
                *bridge,
                origin,
                amount,
                r_id,
                recipient@,
                dest_id,
            ),
    {
        let source = ensure_signed(origin)?;
        if !bridge.chain_whitelisted(dest_id) {
            return Err(DispatchError::Module(Error::InvalidTransfer));
        }
        Ok(Effect::Lock { source, amount, resource_id: r_id, recipient, dest_id })
    }

    /// Sends the non-fungible token `token_id` to `recipient` on chain `dest_id`;
    /// `token` is what the token registry holds under `token_id`.
    pub fn transfer_erc721(
        &self,
        bridge: &BridgeState,
        origin: Origin,
        recipient: Vec<u8>,
        token_id: U256,
        token: Option<Erc721Token>,
        dest_id: ChainId,
    ) -> (res: Result<Effect<Call>, DispatchError>)
        ensures
            outcome_view(res) == spec_transfer_erc721::<Call>(
                self.config,
                *bridge,
                origin,
                recipient@,
                token_id,
                token_metadata(token),
                dest_id,
            ),
    {
        let source = ensure_signed(origin)?;
        if !bridge.chain_whitelisted(dest_id) {
            return Err(DispatchError::Module(Error::InvalidTransfer));
        }
        match token {
            Some(token) => {
                let resource_id = self.config.erc721_id;
                let tid = token_id.to_big_endian();
                let token_bytes = bytes32_to_vec(&tid);
                Ok(
                    Effect::TransferErc721 {
                        source,
                        token_id,
                        dest_id,
                        resource_id,
                        token_bytes,
                        recipient,
                        metadata: token.metadata,
                    },
                )
            },
            None => Err(DispatchError::Module(Error::InvalidTransfer)),
        }
    }

    /// Completes a transfer from another chain: `amount` of the native token goes
    /// from the bridge account to `to`.
    pub fn transfer(&self, origin: Origin, to: AccountId, amount: Balance, r_id: ResourceId) -> (res:
        Result<Effect<Call>, DispatchError>)
        ensures
            outcome_view(res) == spec_transfer::<Call>(self.config, origin, to, amount, r_id),
    {
        let source = ensure_bridge(origin, self.config.bridge_account)?;
        Ok(Effect::Unlock { source, to, amount })
    }

    /// Executes a call that arrived from another chain, deposited there by
    /// `depositer`; `decoded` is the call decoded from its message, if it decodes.
    pub fn remark(
        &self,
        origin: Origin,
        decoded: Option<Call>,
        depositer: EthAddress,
        r_id: ResourceId,
    ) -> (res: Result<Effect<Call>, DispatchError>)
        ensures
            outcome_view(res) == spec_remark::<Call>(self.config, origin, decoded, depositer),
    {
        ensure_bridge(origin, self.config.bridge_account)?;
        let call = match decoded {
            Some(call) => call,
            None => {
                return Err(DispatchError::Module(Error::InvalidCallMessage));
            },
        };
        let controller: AgentOrigin = (vec![69u8, 84, 72], depositer);
        assert(controller.0@ =~= eth_chain_tag());
        let dispatch = <Self as Agent<AccountId>>::execute_tx(controller, call)?;
        Ok(Effect::Dispatch { signer: dispatch.signer, call: dispatch.call })
    }

    /// Mints the non-fungible token `id` to `recipient`.
    pub fn mint_erc721(
        &self,
        origin: Origin,
        recipient: AccountId,
        id: U256,
        metadata: Vec<u8>,
        r_id: ResourceId,
    ) -> (res: Result<Effect<Call>, DispatchError>)
        ensures
            outcome_view(res) == spec_mint_erc721::<Call>(
                self.config,
                origin,
                recipient,
                id,
                metadata@,
            ),
    {
        ensure_bridge(origin, self.config.bridge_account)?;
        Ok(Effect::MintErc721 { recipient, id, metadata })
    }
}

impl<Call> Agent<AccountId> for Pallet<Call> {
    type Message = Call;

    /// The agent account of a foreign origin; every origin has one.
    fn register_agent(origin: AgentOrigin) -> (res: Result<AccountId, DispatchError>)
        ensures
            res matches Ok(account) && account@ == agent_account(origin.0@, origin.1@),
    {
        let account = agent_account_of(&origin.0, &origin.1);
        Ok(account)
    }

    /// Every foreign origin may send every call.
    fn authenticate_tx(origin: AgentOrigin, msg: Call) -> (res: Result<(), DispatchError>)
        ensures
            res is Ok,
    {
        Ok(())
    }

    /// The call is to be signed by the agent account of the origin.
    fn execute_tx(origin: AgentOrigin, msg: Call) -> (res: Result<
        AgentDispatch<AccountId, Call>,
        DispatchError,
    >)
        ensures
            res matches Ok(dispatch) && dispatch.signer@ == agent_account(origin.0@, origin.1@)
                && dispatch.call == msg,
    {
        let agent = Self::register_agent(origin)?;
        Ok(AgentDispatch { signer: agent, call: msg })
    }
}

} // verus!
