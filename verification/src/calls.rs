//! Encoded calls of the Asset Hub Westend runtime: `ForeignAssets::create`,
//! `AssetConversion::create_pool` and `AssetConversion::add_liquidity`.
//! A call is the pallet index, the call index, then the fields in order.
use crate::codec::{
    le_bytes, parent_location_bytes, push_array, push_parent_location, push_sibling_location,
    push_u128, sibling_location_bytes,
};
use vstd::prelude::*;

verus! {

/// Index of the `ForeignAssets` pallet in the Asset Hub Westend runtime.
pub const FOREIGN_ASSETS_PALLET_INDEX: u8 = 53;

/// Index of the `AssetConversion` pallet in the Asset Hub Westend runtime.
pub const ASSET_CONVERSION_PALLET_INDEX: u8 = 56;

/// Index of `create` in `ForeignAssets`.
pub const CREATE_CALL_INDEX: u8 = 0;

/// Index of `create_pool` in `AssetConversion`.
pub const CREATE_POOL_CALL_INDEX: u8 = 0;

/// Index of `add_liquidity` in `AssetConversion`.
pub const ADD_LIQUIDITY_CALL_INDEX: u8 = 1;

/// Index of the `Id` variant of `MultiAddress`.
pub const MULTI_ADDRESS_ID_INDEX: u8 = 0;

/// The minimum balance of the registered foreign asset.
pub const FOREIGN_ASSET_MIN_BALANCE: u128 = 1;

/// `ForeignAssets::create { id: Parent -> Parachain(para_id), admin: MultiAddress::Id(admin),
/// min_balance: 1 }`.
pub open spec fn create_foreign_asset_call_bytes(para_id: u32, admin: Seq<u8>) -> Seq<u8> {
    seq![FOREIGN_ASSETS_PALLET_INDEX, CREATE_CALL_INDEX] + sibling_location_bytes(para_id)
        + seq![MULTI_ADDRESS_ID_INDEX] + admin + le_bytes(FOREIGN_ASSET_MIN_BALANCE as nat, 16)
}

/// `AssetConversion::create_pool { asset1: Parent, asset2: Parent -> Parachain(para_id) }`.
pub open spec fn create_pool_call_bytes(para_id: u32) -> Seq<u8> {
    seq![ASSET_CONVERSION_PALLET_INDEX, CREATE_POOL_CALL_INDEX] + parent_location_bytes()
        + sibling_location_bytes(para_id)
}

/// `AssetConversion::add_liquidity` of WND and the parachain's asset, with the desired
/// amounts also as minimums, minting the liquidity tokens to `mint_to`.
pub open spec fn add_liquidity_call_bytes(
    para_id: u32,
    amount_wnd: u128,
    amount_native: u128,
    mint_to: Seq<u8>,
) -> Seq<u8> {
    seq![ASSET_CONVERSION_PALLET_INDEX, ADD_LIQUIDITY_CALL_INDEX] + parent_location_bytes()
        + sibling_location_bytes(para_id) + le_bytes(amount_wnd as nat, 16) + le_bytes(
        amount_native as nat,
        16,
    ) + le_bytes(amount_wnd as nat, 16) + le_bytes(amount_native as nat, 16) + mint_to
}

/// Encodes `ForeignAssets::create` for the asset of parachain `para_id`, administered by `admin`.
pub fn encode_create_foreign_asset(para_id: u32, admin: &[u8; 32]) -> (r: Vec<u8>)
    ensures
        r@ == create_foreign_asset_call_bytes(para_id, admin@),
{
    let mut out = Vec::new();
    out.push(FOREIGN_ASSETS_PALLET_INDEX);
    out.push(CREATE_CALL_INDEX);
    push_sibling_location(&mut out, para_id);
    out.push(MULTI_ADDRESS_ID_INDEX);
    push_array(&mut out, admin);
    push_u128(&mut out, FOREIGN_ASSET_MIN_BALANCE);
    assert(out@ =~= create_foreign_asset_call_bytes(para_id, admin@));
    out
}

/// Encodes `AssetConversion::create_pool` between WND and the asset of parachain `para_id`.
pub fn encode_create_pool(para_id: u32) -> (r: Vec<u8>)
    ensures
        r@ == create_pool_call_bytes(para_id),
{
    let mut out = Vec::new();
    out.push(ASSET_CONVERSION_PALLET_INDEX);
    out.push(CREATE_POOL_CALL_INDEX);
    push_parent_location(&mut out);
    push_sibling_location(&mut out, para_id);
    assert(out@ =~= create_pool_call_bytes(para_id));
    out
}

/// Encodes `AssetConversion::add_liquidity` of `amount_wnd` WND and `amount_native` of the
/// asset of parachain `para_id`, minting to `mint_to`.
pub fn encode_add_liquidity(para_id: u32, amount_wnd: u128, amount_native: u128, mint_to: &[u8; 32]) -> (r: Vec<u8>)
    ensures
        r@ == add_liquidity_call_bytes(para_id, amount_wnd, amount_native, mint_to@),
{
    let mut out = Vec::new();
    out.push(ASSET_CONVERSION_PALLET_INDEX);
    out.push(ADD_LIQUIDITY_CALL_INDEX);
    push_parent_location(&mut out);
    push_sibling_location(&mut out, para_id);
    push_u128(&mut out, amount_wnd);
    push_u128(&mut out, amount_native);
    push_u128(&mut out, amount_wnd);
    push_u128(&mut out, amount_native);
    push_array(&mut out, mint_to);
    assert(out@ =~= add_liquidity_call_bytes(para_id, amount_wnd, amount_native, mint_to@));
    out
}

} // verus!
