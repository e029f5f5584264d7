# chainbridge-transfer

The decision logic of a Substrate bridge-transfer pallet, verified with Verus.

Each call of the pallet is a function from the pallet's configuration and
storage, the caller's origin and what the call reads of the bridge and the token
registry, to either a refusal (`DispatchError`) or an `Effect`: the work that the
bridge, the asset pallets, the token registry or the dispatcher is to carry out.

- `src/types.rs`: identifiers, origins, errors.
- `src/origin.rs`: the origin checks (signed, root, bridge).
- `src/token_id.rs`: 256-bit token ids and their big-endian form.
- `src/agent.rs`: agent accounts for origins of other chains (SCALE encoding and
  BLAKE2b-256 hashing are called from `parity-scale-codec` and `sp-io`).
- `src/pallet.rs`: configuration, storage and the calls, each with an exact contract.
- `src/traits.rs`: the `Agent` and `AssetIdResourceIdProvider` traits.
- `src/laws.rs`: properties that span several calls.
- `app/lib.rs`: decoding of incoming calls and hand-over of effects to the runtime.
