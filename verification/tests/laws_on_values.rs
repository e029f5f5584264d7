use chainbridge_transfer::{BridgeState, Config, DispatchError, Effect, Error, Origin, Pallet, U256};

fn pallet() -> Pallet<u8> {
    Pallet::new(Config {
        native_token_id: [1u8; 32],
        hash_id: [2u8; 32],
        erc721_id: [3u8; 32],
        native_token_max_value: 100,
        bridge_account: [9u8; 32],
    })
}

#[test]
fn unsigned_origins_cannot_start_transfers() {
    let p = pallet();
    let b = BridgeState::from_chains(vec![(1, 0)]).unwrap();
    for origin in [Origin::Root, Origin::Unsigned] {
        assert_eq!(p.transfer_hash(origin, [0u8; 32], 1), Err(DispatchError::BadOrigin));
        assert_eq!(
            p.generic_token_transfer(&b, origin, 1, [1u8; 32], vec![], 1),
            Err(DispatchError::BadOrigin)
        );
        let token = chainbridge_transfer::Erc721Token { id: U256([1, 0, 0, 0]), metadata: vec![] };
        assert_eq!(
            p.transfer_erc721(&b, origin, vec![], U256([1, 0, 0, 0]), Some(token), 1),
            Err(DispatchError::BadOrigin)
        );
    }
}

#[test]
fn only_the_bridge_completes_transfers() {
    let p = pallet();
    for origin in [Origin::Root, Origin::Unsigned, Origin::Signed([8u8; 32])] {
        assert_eq!(p.transfer(origin, [5u8; 32], 3, [1u8; 32]), Err(DispatchError::BadOrigin));
        assert_eq!(p.remark(origin, Some(4), [0u8; 20], [0u8; 32]), Err(DispatchError::BadOrigin));
        assert_eq!(
            p.mint_erc721(origin, [5u8; 32], U256([1, 0, 0, 0]), vec![], [3u8; 32]),
            Err(DispatchError::BadOrigin)
        );
    }
}

#[test]
fn destination_must_be_whitelisted() {
    let p = pallet();
    let b = BridgeState::from_chains(vec![(1, 0), (2, 0)]).unwrap();
    let signed = Origin::Signed([6u8; 32]);
    for r_id in [[1u8; 32], [4u8; 32]] {
        assert_eq!(
            p.generic_token_transfer(&b, signed, 10, r_id, vec![1], 3),
            Err(DispatchError::Module(Error::InvalidTransfer))
        );
    }
    let token = chainbridge_transfer::Erc721Token { id: U256([1, 0, 0, 0]), metadata: vec![] };
    assert_eq!(
        p.transfer_erc721(&b, signed, vec![], U256([1, 0, 0, 0]), Some(token), 3),
        Err(DispatchError::Module(Error::InvalidTransfer))
    );
}

#[test]
fn outbound_and_inbound_amounts_match() {
    let p = pallet();
    let b = BridgeState::from_chains(vec![(1, 0)]).unwrap();
    let sender = [6u8; 32];
    let receiver = [5u8; 32];
    let out = p.generic_token_transfer(&b, Origin::Signed(sender), 77, [1u8; 32], vec![1], 1);
    let back = p.transfer(Origin::Signed([9u8; 32]), receiver, 77, [1u8; 32]);
    assert!(matches!(out, Ok(Effect::Lock { amount: 77, .. })));
    assert_eq!(back, Ok(Effect::Unlock { source: [9u8; 32], to: receiver, amount: 77 }));
    let out = p.generic_token_transfer(&b, Origin::Signed(sender), 77, [4u8; 32], vec![1], 1);
    let back = p.transfer(Origin::Signed([9u8; 32]), receiver, 77, [4u8; 32]);
    assert_eq!(
        out,
        Ok(Effect::Lock {
            source: sender,
            amount: 77,
            resource_id: [4u8; 32],
            recipient: vec![1],
            dest_id: 1
        })
    );
    assert_eq!(back, Ok(Effect::Unlock { source: [9u8; 32], to: receiver, amount: 77 }));
}

#[test]
fn remarks_of_one_depositer_share_a_signer() {
    let p = pallet();
    let depositer = [0x33u8; 20];
    let first = p.remark(Origin::Signed([9u8; 32]), Some(1), depositer, [0u8; 32]);
    let second = p.remark(Origin::Signed([9u8; 32]), Some(2), depositer, [7u8; 32]);
    let other = p.remark(Origin::Signed([9u8; 32]), Some(1), [0x34u8; 20], [0u8; 32]);
    match (first, second, other) {
        (
            Ok(Effect::Dispatch { signer: a, call: 1 }),
            Ok(Effect::Dispatch { signer: b, call: 2 }),
            Ok(Effect::Dispatch { signer: c, call: 1 }),
        ) => {
            assert_eq!(a, b);
            assert_ne!(a, c);
        },
        _ => panic!("remarks from the bridge should dispatch"),
    }
}

#[test]
fn refused_native_limit_leaves_state() {
    let mut p = pallet();
    assert_eq!(p.native_limit(Origin::Root, true), Ok(()));
    assert_eq!(p.native_limit(Origin::Signed([9u8; 32]), false), Err(DispatchError::BadOrigin));
    assert!(p.native_check());
}

#[test]
fn minted_token_transfers_back_with_its_metadata() {
    let p = pallet();
    let b = BridgeState::from_chains(vec![(1, 0)]).unwrap();
    let owner = [6u8; 32];
    let id = U256([0x0a0b, 0, 0, 0]);
    let minted = p.mint_erc721(Origin::Signed([9u8; 32]), owner, id, vec![4, 5], [3u8; 32]);
    assert_eq!(minted, Ok(Effect::MintErc721 { recipient: owner, id, metadata: vec![4, 5] }));
    let held = chainbridge_transfer::Erc721Token { id, metadata: vec![4, 5] };
    let sent = p.transfer_erc721(&b, Origin::Signed(owner), vec![8; 20], id, Some(held), 1);
    let mut bytes = vec![0u8; 32];
    bytes[30] = 0x0a;
    bytes[31] = 0x0b;
    assert_eq!(
        sent,
        Ok(Effect::TransferErc721 {
            source: owner,
            token_id: id,
            dest_id: 1,
            resource_id: [3u8; 32],
            token_bytes: bytes,
            recipient: vec![8; 20],
            metadata: vec![4, 5],
        })
    );
}
