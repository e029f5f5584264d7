use vstd::prelude::*;

use crate::agent::{
    agent_account, agent_seed, blake2_256_hash, compact_prefix_len, compact_u32_decode, pad32,
    lemma_agent_seed_injective, lemma_compact_u32_read_back,
};
use crate::pallet::{
    spec_generic_token_transfer, spec_mint_erc721, spec_remark, spec_transfer,
    spec_transfer_erc721, spec_transfer_hash, BridgeState, Config, EffectView,
};
use crate::token_id::{big_endian_bytes, U256};
use crate::types::{
    AccountId, Balance, ChainId, DispatchError, Error, EthAddress, H256, Origin, ResourceId,
};

verus! {

/// Only signed origins can start a transfer: hashes, fungible and non-fungible
/// transfers from any other origin are refused with `BadOrigin`.
pub proof fn law_unsigned_cannot_start_transfers<Call>(
    config: Config,
    bridge: BridgeState,
    origin: Origin,
    hash: H256,
    amount: Balance,
    r_id: ResourceId,
    recipient: Seq<u8>,
    token_id: U256,
    token_metadata: Option<Seq<u8>>,
    dest_id: ChainId,
)
    requires
        !(origin is Signed),
    ensures
        spec_transfer_hash::<Call>(config, origin, hash, dest_id) == Err::<EffectView<Call>, _>(
            DispatchError::BadOrigin,
        ),
        spec_generic_token_transfer::<Call>(
            config,
            bridge,
            origin,
            amount,
            r_id,
            recipient,
            dest_id,
        ) == Err::<EffectView<Call>, _>(DispatchError::BadOrigin),
        spec_transfer_erc721::<Call>(
            config,
            bridge,
            origin,
            recipient,
            token_id,
            token_metadata,
            dest_id,
        ) == Err::<EffectView<Call>, _>(DispatchError::BadOrigin),
{
}

/// Only the bridge can complete a transfer: fungible transfers, remarks and
/// non-fungible mints from any origin but the bridge account are refused with
/// `BadOrigin`.
pub proof fn law_only_bridge_completes_transfers<Call>(
    config: Config,
    origin: Origin,
    to: AccountId,
    amount: Balance,
    r_id: ResourceId,
    decoded: Option<Call>,
    depositer: EthAddress,
    id: U256,
    metadata: Seq<u8>,
)
    requires
        !(origin matches Origin::Signed(who) && who@ == config.bridge_account@),
    ensures
        spec_transfer::<Call>(config, origin, to, amount, r_id) == Err::<EffectView<Call>, _>(
            DispatchError::BadOrigin,
        ),
        spec_remark::<Call>(config, origin, decoded, depositer) == Err::<EffectView<Call>, _>(
            DispatchError::BadOrigin,
        ),
        spec_mint_erc721::<Call>(config, origin, to, id, metadata) == Err::<EffectView<Call>, _>(
            DispatchError::BadOrigin,
        ),
{
}

/// A signed transfer towards a chain that the bridge has not whitelisted is
/// refused with `InvalidTransfer`, whatever the resource or token.
pub proof fn law_destination_must_be_whitelisted<Call>(
    config: Config,
    bridge: BridgeState,
    who: AccountId,
    amount: Balance,
    r_id: ResourceId,
    recipient: Seq<u8>,
    token_id: U256,
    token_metadata: Option<Seq<u8>>,
    dest_id: ChainId,
)
    requires
        !bridge.spec_chain_whitelisted(dest_id),
    ensures
        spec_generic_token_transfer::<Call>(
            config,
            bridge,
            Origin::Signed(who),
            amount,
            r_id,
            recipient,
            dest_id,
        ) == Err::<EffectView<Call>, _>(DispatchError::Module(Error::InvalidTransfer)),
        spec_transfer_erc721::<Call>(
            config,
            bridge,
            Origin::Signed(who),
            recipient,
            token_id,
            token_metadata,
            dest_id,
        ) == Err::<EffectView<Call>, _>(DispatchError::Module(Error::InvalidTransfer)),
{
}

/// Native tokens leave by being locked from the signer and come back by a
/// currency transfer out of the bridge account, the same amount both ways.
pub proof fn law_outbound_and_inbound_match<Call>(
    config: Config,
    bridge: BridgeState,
    sender: AccountId,
    receiver: AccountId,
    amount: Balance,
    r_id: ResourceId,
    recipient: Seq<u8>,
    dest_id: ChainId,
)
    requires
        bridge.spec_chain_whitelisted(dest_id),
    ensures
        spec_generic_token_transfer::<Call>(
            config,
            bridge,
            Origin::Signed(sender),
            amount,
            r_id,
            recipient,
            dest_id,
        ) == Ok::<_, DispatchError>(
            EffectView::<Call>::Lock {
                source: sender,
                amount,
                resource_id: r_id,
                recipient,
                dest_id,
            },
        ),
        spec_transfer::<Call>(
            config,
            Origin::Signed(config.bridge_account),
            receiver,
            amount,
            r_id,
        ) == Ok::<_, DispatchError>(
            EffectView::<Call>::Unlock { source: config.bridge_account, to: receiver, amount },
        ),
{
}

/// Every call that arrives from another chain and decodes is dispatched signed by
/// the agent account of its depositer under the chain tag `ETH`, so calls of one depositer share one signer.
pub proof fn law_remarks_run_as_depositer_agent<Call>(
    config: Config,
    call: Call,
    depositer: EthAddress,
)
    ensures
        spec_remark::<Call>(
            config,
            Origin::Signed(config.bridge_account),
            Some(call),
            depositer,
        ) == Ok::<_, DispatchError>(
            EffectView::<Call>::Dispatch {
                signer: agent_account(seq![69u8, 84, 72], depositer@),
                call,
            },
        ),
{
}


/// Two distinct foreign origins (chain tag, depositer) are hashed from distinct
/// agent seeds, so they are bound to the same agent account only where the
/// BLAKE2b-256 digests of two distinct seeds collide.
pub proof fn law_distinct_origins_distinct_seeds(
    c1: Seq<u8>,
    d1: Seq<u8>,
    c2: Seq<u8>,
    d2: Seq<u8>,
)
    requires
        c1.len() <= u32::MAX,
        c2.len() <= u32::MAX,
        d1.len() == 20,
        d2.len() == 20,
        c1 != c2 || d1 != d2,
    ensures
        agent_seed(c1, d1) != agent_seed(c2, d2),
        agent_account(c1, d1) == agent_account(c2, d2) ==> agent_seed(c1, d1) != agent_seed(
            c2,
            d2,
        ) && blake2_256_hash(agent_seed(c1, d1)) == blake2_256_hash(agent_seed(c2, d2)),
{
    if agent_seed(c1, d1) == agent_seed(c2, d2) {
        lemma_agent_seed_injective(c1, d1, c2, d2);
    }
}


/// A non-fungible token that arrives from another chain and is sent back: the
/// bridge's mint hands the registry the token id and metadata, and when the
/// registry holds that metadata under the id, the owner's transfer burns that
/// token and sends the same id (as 32 big-endian bytes) and the same metadata
/// under the non-fungible resource.
pub proof fn law_minted_token_transfers_back<Call>(
    config: Config,
    bridge: BridgeState,
    owner: AccountId,
    id: U256,
    metadata: Seq<u8>,
    recipient: Seq<u8>,
    dest_id: ChainId,
)
    requires
        bridge.spec_chain_whitelisted(dest_id),
    ensures
        spec_mint_erc721::<Call>(
            config,
            Origin::Signed(config.bridge_account),
            owner,
            id,
            metadata,
        ) == Ok::<_, DispatchError>(
            EffectView::<Call>::MintErc721 { recipient: owner, id, metadata },
        ),
        spec_transfer_erc721::<Call>(
            config,
            bridge,
            Origin::Signed(owner),
            recipient,
            id,
            Some(metadata),
            dest_id,
        ) == Ok::<_, DispatchError>(
            EffectView::<Call>::TransferErc721 {
                source: owner,
                token_id: id,
                dest_id,
                resource_id: config.erc721_id,
                token_bytes: big_endian_bytes(id.0),
                recipient,
                metadata,
            },
        ),
{
}


/// The agent account of a foreign origin is the BLAKE2b-256 digest of a seed laid
/// out as: the 15 bytes `-*-#fusotao#-*-`, the compact length of the chain tag
/// (one byte `4 * len` for tags shorter than 64 bytes), the chain tag, and the
/// depositer's 20 bytes in order at the very end.
pub proof fn law_agent_seed_layout(chain: Seq<u8>, depositer: Seq<u8>)
    requires
        chain.len() <= u32::MAX,
        depositer.len() == 20,
    ensures
        ({
            let s = agent_seed(chain, depositer);
            let l = compact_prefix_len(s[15]) as int;
            &&& agent_account(chain, depositer) == blake2_256_hash(s)
            &&& s.len() == 15 + l + chain.len() + 20
            &&& s.subrange(0, 15) == seq![
                45u8,
                42,
                45,
                35,
                102,
                117,
                115,
                111,
                116,
                97,
                111,
                35,
                45,
                42,
                45,
            ]
            &&& compact_u32_decode(s.subrange(15, s.len() as int)) == chain.len()
            &&& chain.len() < 64 ==> l == 1 && s[15] == chain.len() * 4
            &&& s.subrange(15 + l, 15 + l + chain.len()) == chain
            &&& s.subrange(s.len() - 20, s.len() as int) == depositer
        }),
{
    let s = agent_seed(chain, depositer);
    let e = crate::agent::compact_u32_encoding(chain.len());
    lemma_compact_u32_read_back(chain.len(), chain + depositer);
    assert(s =~= crate::agent::agent_seed_prefix() + (e + (chain + depositer)));
    assert(s.subrange(15, s.len() as int) =~= e + (chain + depositer));
    assert(s[15] == (e + (chain + depositer))[0]);
    let l = e.len() as int;
    assert(s.subrange(0, 15) =~= seq![
        45u8,
        42,
        45,
        35,
        102,
        117,
        115,
        111,
        116,
        97,
        111,
        35,
        45,
        42,
        45,
    ]);
    assert(s.subrange(15 + l, 15 + l + chain.len()) =~= chain);
    assert(s.subrange(s.len() - 20, s.len() as int) =~= depositer);
    if chain.len() < 64 {
        assert(e[0] == (chain.len() * 4) as u8);
    }
}

/// The chains the bridge whitelists are exactly the chains its state lists, in
/// whatever order they are listed.
pub proof fn law_whitelist_is_listed_chains(bridge: BridgeState, id: ChainId)
    ensures
        forall|i: int| 0 <= i < bridge@.len() ==> bridge.spec_chain_whitelisted(#[trigger] bridge@[i].0),
        bridge.spec_chain_whitelisted(id) ==> exists|i: int|
            0 <= i < bridge@.len() && #[trigger] bridge@[i].0 == id,
{
    assert forall|i: int| 0 <= i < bridge@.len() implies bridge.spec_chain_whitelisted(
        #[trigger] bridge@[i].0,
    ) by {
        assert(bridge@[i].0 == bridge@[i].0);
    }
}

/// A non-fungible token that the registry does not hold is never sent: every
/// signed transfer of it is refused with `InvalidTransfer`, whoever asks, for any
/// recipient and any destination.
pub proof fn law_unknown_token_is_refused<Call>(
    config: Config,
    bridge: BridgeState,
    who: AccountId,
    recipient: Seq<u8>,
    token_id: U256,
    dest_id: ChainId,
)
    ensures
        spec_transfer_erc721::<Call>(
            config,
            bridge,
            Origin::Signed(who),
            recipient,
            token_id,
            None,
            dest_id,
        ) == Err::<EffectView<Call>, _>(DispatchError::Module(Error::InvalidTransfer)),
{
}

/// A signed hash transfer sends exactly the 32 bytes of the hash, in order, to the
/// requested chain under the hash resource, whatever the hash.
pub proof fn law_hash_transfer_carries_hash<Call>(
    config: Config,
    who: AccountId,
    hash: H256,
    dest_id: ChainId,
)
    ensures
        spec_transfer_hash::<Call>(config, Origin::Signed(who), hash, dest_id) == Ok::<
            _,
            DispatchError,
        >(
            EffectView::<Call>::TransferGeneric {
                dest_id,
                resource_id: config.hash_id,
                metadata: hash@,
            },
        ),
{
}


/// A call from another chain that does not decode is refused with
/// `InvalidCallMessage`, even when the bridge sends it.
pub proof fn law_undecodable_remark_is_refused<Call>(config: Config, depositer: EthAddress)
    ensures
        spec_remark::<Call>(config, Origin::Signed(config.bridge_account), None, depositer)
            == Err::<EffectView<Call>, _>(DispatchError::Module(Error::InvalidCallMessage)),
{
}

/// An account read from a byte stream that ends in zeros takes the first 32 bytes
/// of the input in order, and zeros where the input runs out.
pub proof fn law_trailing_zero_account(input: Seq<u8>)
    ensures
        pad32(input).len() == 32,
        forall|i: int| 0 <= i < 32 && i < input.len() ==> #[trigger] pad32(input)[i] == input[i],
        forall|i: int| input.len() <= i < 32 ==> #[trigger] pad32(input)[i] == 0u8,
        input.len() == 32 ==> pad32(input) == input,
{
    if input.len() == 32 {
        assert(pad32(input) =~= input);
    }
}

} // verus!
