use chainbridge_transfer::{
    Agent, AgentDispatch, BridgeState, Config, DispatchError, Effect, Erc721Token, Error, Origin,
    Pallet, U256,
};
use parity_scale_codec::Encode;

const BRIDGE: [u8; 32] = [9u8; 32];
const ALICE: [u8; 32] = [7u8; 32];
const NATIVE: [u8; 32] = [1u8; 32];
const HASH_ID: [u8; 32] = [2u8; 32];
const NFT_ID: [u8; 32] = [3u8; 32];
const OTHER: [u8; 32] = [4u8; 32];

fn config() -> Config {
    Config {
        native_token_id: NATIVE,
        hash_id: HASH_ID,
        erc721_id: NFT_ID,
        native_token_max_value: 1_000_000,
        bridge_account: BRIDGE,
    }
}

fn pallet() -> Pallet<u32> {
    Pallet::new(config())
}

fn bridge_state() -> BridgeState {
    BridgeState::from_chains(vec![(5, 0), (7, 12)]).unwrap()
}

fn expected_agent(chain: &[u8], depositer: [u8; 20]) -> [u8; 32] {
    let seed = (b"-*-#fusotao#-*-", (chain.to_vec(), depositer)).encode();
    sp_io::hashing::blake2_256(&seed)
}

#[test]
fn native_limit_root_sets_flag() {
    let mut p = pallet();
    assert!(!p.native_check());
    assert_eq!(p.native_limit(Origin::Root, true), Ok(()));
    assert!(p.native_check());
    assert_eq!(p.native_limit(Origin::Root, false), Ok(()));
    assert!(!p.native_check());
}

#[test]
fn native_limit_refuses_signed_and_unsigned() {
    let mut p = pallet();
    assert_eq!(p.native_limit(Origin::Signed(ALICE), true), Err(DispatchError::BadOrigin));
    assert!(!p.native_check());
    assert_eq!(p.native_limit(Origin::Unsigned, true), Err(DispatchError::BadOrigin));
    assert!(!p.native_check());
    assert_eq!(p.config, config());
}

#[test]
fn transfer_hash_sends_hash_bytes() {
    let p = pallet();
    let mut hash = [0u8; 32];
    for (i, b) in hash.iter_mut().enumerate() {
        *b = i as u8;
    }
    let r = p.transfer_hash(Origin::Signed(ALICE), hash, 3);
    assert_eq!(
        r,
        Ok(Effect::TransferGeneric { dest_id: 3, resource_id: HASH_ID, metadata: hash.to_vec() })
    );
    assert_eq!(p.transfer_hash(Origin::Root, hash, 3), Err(DispatchError::BadOrigin));
}

#[test]
fn transfer_native_locks_native_token() {
    let p = pallet();
    let r = p.transfer_native(&bridge_state(), Origin::Signed(ALICE), 500, vec![0xab; 20], 5);
    assert_eq!(
        r,
        Ok(Effect::Lock {
            source: ALICE,
            amount: 500,
            resource_id: NATIVE,
            recipient: vec![0xab; 20],
            dest_id: 5
        })
    );
}

#[test]
fn generic_token_transfer_locks_native_under_given_resource() {
    let p = pallet();
    let r =
        p.generic_token_transfer(&bridge_state(), Origin::Signed(ALICE), 42, OTHER, vec![1, 2], 7);
    assert_eq!(
        r,
        Ok(Effect::Lock {
            source: ALICE,
            amount: 42,
            resource_id: OTHER,
            recipient: vec![1, 2],
            dest_id: 7
        })
    );
}

#[test]
fn generic_token_transfer_refuses_unlisted_chain() {
    let p = pallet();
    let r = p.generic_token_transfer(&bridge_state(), Origin::Signed(ALICE), 42, OTHER, vec![], 6);
    assert_eq!(r, Err(DispatchError::Module(Error::InvalidTransfer)));
    let r = p.transfer_native(&BridgeState::from_chains(vec![]).unwrap(), Origin::Signed(ALICE), 1, vec![], 5);
    assert_eq!(r, Err(DispatchError::Module(Error::InvalidTransfer)));
}

#[test]
fn generic_token_transfer_refuses_unsigned() {
    let p = pallet();
    let r = p.generic_token_transfer(&bridge_state(), Origin::Unsigned, 42, OTHER, vec![], 5);
    assert_eq!(r, Err(DispatchError::BadOrigin));
    let r = p.transfer_native(&bridge_state(), Origin::Root, 42, vec![], 5);
    assert_eq!(r, Err(DispatchError::BadOrigin));
}

#[test]
fn transfer_erc721_burns_and_sends_token() {
    let p = pallet();
    let id = U256([0x0102030405060708, 0, 0, 0x1100000000000000]);
    let token = Erc721Token { id, metadata: vec![7, 7, 7] };
    let r = p.transfer_erc721(&bridge_state(), Origin::Signed(ALICE), vec![5; 20], id, Some(token), 5);
    let mut bytes = vec![0u8; 32];
    bytes[0] = 0x11;
    bytes[24..32].copy_from_slice(&[1, 2, 3, 4, 5, 6, 7, 8]);
    assert_eq!(
        r,
        Ok(Effect::TransferErc721 {
            source: ALICE,
            token_id: id,
            dest_id: 5,
            resource_id: NFT_ID,
            token_bytes: bytes,
            recipient: vec![5; 20],
            metadata: vec![7, 7, 7],
        })
    );
}

#[test]
fn transfer_erc721_refuses_unknown_token() {
    let p = pallet();
    let id = U256([1, 0, 0, 0]);
    let r = p.transfer_erc721(&bridge_state(), Origin::Signed(ALICE), vec![], id, None, 5);
    assert_eq!(r, Err(DispatchError::Module(Error::InvalidTransfer)));
    let token = Erc721Token { id, metadata: vec![] };
    let r = p.transfer_erc721(&bridge_state(), Origin::Signed(ALICE), vec![], id, Some(token.clone()), 8);
    assert_eq!(r, Err(DispatchError::Module(Error::InvalidTransfer)));
    let r = p.transfer_erc721(&bridge_state(), Origin::Unsigned, vec![], id, Some(token), 5);
    assert_eq!(r, Err(DispatchError::BadOrigin));
}

#[test]
fn transfer_unlocks_native_from_bridge() {
    let p = pallet();
    let r = p.transfer(Origin::Signed(BRIDGE), ALICE, 10, NATIVE);
    assert_eq!(r, Ok(Effect::Unlock { source: BRIDGE, to: ALICE, amount: 10 }));
}

#[test]
fn transfer_pays_from_bridge_whatever_resource() {
    let p = pallet();
    let r = p.transfer(Origin::Signed(BRIDGE), ALICE, 10, OTHER);
    assert_eq!(r, Ok(Effect::Unlock { source: BRIDGE, to: ALICE, amount: 10 }));
}

#[test]
fn transfer_refuses_non_bridge_origins() {
    let p = pallet();
    assert_eq!(p.transfer(Origin::Signed(ALICE), ALICE, 10, NATIVE), Err(DispatchError::BadOrigin));
    assert_eq!(p.transfer(Origin::Root, ALICE, 10, NATIVE), Err(DispatchError::BadOrigin));
    assert_eq!(p.transfer(Origin::Unsigned, ALICE, 10, OTHER), Err(DispatchError::BadOrigin));
}

#[test]
fn remark_dispatches_as_depositer_agent() {
    let p = pallet();
    let depositer = [0x42u8; 20];
    let r = p.remark(Origin::Signed(BRIDGE), Some(77u32), depositer, OTHER);
    assert_eq!(
        r,
        Ok(Effect::Dispatch { signer: expected_agent(b"ETH", depositer), call: 77 })
    );
}

#[test]
fn remark_refuses_undecodable_message() {
    let p = pallet();
    let r = p.remark(Origin::Signed(BRIDGE), None, [0u8; 20], OTHER);
    assert_eq!(r, Err(DispatchError::Module(Error::InvalidCallMessage)));
}

#[test]
fn remark_refuses_non_bridge_origin() {
    let p = pallet();
    assert_eq!(p.remark(Origin::Signed(ALICE), Some(1), [0u8; 20], OTHER), Err(DispatchError::BadOrigin));
    assert_eq!(p.remark(Origin::Signed(ALICE), None, [0u8; 20], OTHER), Err(DispatchError::BadOrigin));
}

#[test]
fn mint_erc721_mints_for_bridge() {
    let p = pallet();
    let id = U256([3, 0, 0, 0]);
    let r = p.mint_erc721(Origin::Signed(BRIDGE), ALICE, id, vec![1, 2, 3], NFT_ID);
    assert_eq!(r, Ok(Effect::MintErc721 { recipient: ALICE, id, metadata: vec![1, 2, 3] }));
    let r = p.mint_erc721(Origin::Root, ALICE, id, vec![], NFT_ID);
    assert_eq!(r, Err(DispatchError::BadOrigin));
}

#[test]
fn register_agent_hashes_encoded_origin() {
    let depositer = [0x11u8; 20];
    let r = <Pallet<u32> as Agent<[u8; 32]>>::register_agent((b"ETH".to_vec(), depositer));
    assert_eq!(r, Ok(expected_agent(b"ETH", depositer)));
    // a tag of 64 bytes or more takes a two-byte length prefix
    let long_tag = vec![0x61u8; 100];
    let r = <Pallet<u32> as Agent<[u8; 32]>>::register_agent((long_tag.clone(), depositer));
    assert_eq!(r, Ok(expected_agent(&long_tag, depositer)));
    assert_ne!(expected_agent(&long_tag, depositer), expected_agent(b"ETH", depositer));
}

#[test]
fn distinct_origins_get_distinct_agents() {
    // the same bytes split differently between tag and depositer
    let mut d1 = [0u8; 20];
    d1[0] = b'H';
    let d2 = [0u8; 20];
    let a = <Pallet<u32> as Agent<[u8; 32]>>::register_agent((b"ET".to_vec(), d1)).unwrap();
    let b = <Pallet<u32> as Agent<[u8; 32]>>::register_agent((b"ETH".to_vec(), d2)).unwrap();
    assert_ne!(a, b);
    let c = <Pallet<u32> as Agent<[u8; 32]>>::register_agent((b"ETH".to_vec(), [1u8; 20])).unwrap();
    assert_ne!(b, c);
}

#[test]
fn authenticate_and_execute_tx() {
    let origin = (b"BSC".to_vec(), [3u8; 20]);
    assert_eq!(<Pallet<u32> as Agent<[u8; 32]>>::authenticate_tx(origin.clone(), 5), Ok(()));
    let r = <Pallet<u32> as Agent<[u8; 32]>>::execute_tx(origin, 5);
    assert_eq!(r, Ok(AgentDispatch { signer: expected_agent(b"BSC", [3u8; 20]), call: 5 }));
}
