use vstd::prelude::*;

verus! {

/// Identifier of a chain known to the bridge.
pub type ChainId = u8;

/// Counter of deposits towards one chain.
pub type DepositNonce = u64;

/// Identifier of a bridged resource.
pub type ResourceId = [u8; 32];

/// An account on an Ethereum-like chain.
pub type EthAddress = [u8; 20];

/// An account of this chain.
pub type AccountId = [u8; 32];

/// Balances and asset amounts.
pub type Balance = u128;

/// A 256-bit hash.
pub type H256 = [u8; 32];

/// Where a call comes from.
#[derive(Clone, Copy, Debug, PartialEq, Eq)]
pub enum Origin {
    /// The privileged root origin.
    Root,
    /// A call signed by an account.
    Signed(AccountId),
    /// An unsigned call (the `None` origin).
    Unsigned,
}

/// Errors of this pallet.
#[derive(Clone, Copy, Debug, PartialEq, Eq, Structural)]
pub enum Error {
    InvalidTransfer,
    InvalidTokenId,
    InValidResourceId,
    WrongAssetId,
    InvalidTokenName,
    OverTransferLimit,
    AssetAlreadyExists,
    InvalidCallMessage,
    RegisterAgentFailed,
}

/// Why a call was refused.
#[derive(Clone, Copy, Debug, PartialEq, Eq, Structural)]
pub enum DispatchError {
    /// The origin may not make this call.
    BadOrigin,
    /// The pallet refused the call.
    Module(Error),
}

} // verus!
