//! Verified core of an Ethereum light-client bridge: a state machine that
//! tracks a beacon-chain head from Groth16-verified sync-committee updates.
pub mod bytes;
pub mod types;
pub mod pallet;
pub mod vkey;
pub mod groth16;
pub mod inputs;
pub mod client;
pub mod calls;
