//! Verified construction of the XCM programs, call encodings, barrier rules and
//! weights of a parachain that registers and moves its native asset to Asset Hub.
pub mod location;
pub mod asset;
pub mod weights;
pub mod xcm_config;
pub mod codec;
pub mod account;
pub mod instruction;
pub mod calls;
pub mod pallet;
pub mod laws;
