use frame_support::traits::Get;
use xcm_utils::asset::Asset;
use xcm_utils::instruction::Instruction;
use xcm_utils::location::{BodyId, BodyPart, Junction, Location, NetworkId};
use xcm_utils::pallet::{Error, Pallet};
use xcm_utils::weights::{RuntimeDbWeight, SubstrateWeight, WeightInfo};
use xcm_utils::xcm_config::{
    AssetHubForWnd, DenyBannedAssetHubAccount, NativeAssetToAssetHub,
    ParentOrParentsExecutivePlurality, ProcessMessageError, XcmConfig,
};

fn ah_account(id: [u8; 32], network: Option<NetworkId>) -> Location {
    Location { parents: 1, interior: vec![Junction::Parachain(1000), Junction::AccountId32 { network, id }] }
}

fn descend_to(id: [u8; 32]) -> Instruction {
    Instruction::DescendOrigin(vec![Junction::AccountId32 { network: None, id }])
}

#[test]
fn banned_account_on_asset_hub_is_denied() {
    assert!(matches!(
        DenyBannedAssetHubAccount::deny_execution(&ah_account([0u8; 32], None), &[]),
        Err(ProcessMessageError::Unsupported)
    ));
    assert!(matches!(
        DenyBannedAssetHubAccount::deny_execution(&ah_account([0u8; 32], Some(NetworkId::Kusama)), &[Instruction::Other]),
        Err(ProcessMessageError::Unsupported)
    ));
}

#[test]
fn message_descending_to_the_banned_account_is_denied() {
    // A message sent by the banned account on Asset Hub: origin Parachain(1000),
    // then DescendOrigin to the account.
    let msg = vec![descend_to([0u8; 32]), Instruction::RefundSurplus];
    assert!(matches!(
        DenyBannedAssetHubAccount::deny_execution(&Location::asset_hub(), &msg),
        Err(ProcessMessageError::Unsupported)
    ));
    // Descending further below the banned account does not escape the rule.
    let below = vec![descend_to([0u8; 32]), Instruction::DescendOrigin(vec![Junction::OnlyChild])];
    assert!(matches!(
        DenyBannedAssetHubAccount::deny_execution(&Location::asset_hub(), &below),
        Err(ProcessMessageError::Unsupported)
    ));
    assert!(matches!(
        DenyBannedAssetHubAccount::deny_execution(
            &ah_account([0u8; 32], None),
            &[Instruction::DescendOrigin(vec![Junction::OnlyChild]), Instruction::Other]
        ),
        Err(ProcessMessageError::Unsupported)
    ));
    let below_origin = Location {
        parents: 1,
        interior: vec![Junction::Parachain(1000), Junction::AccountId32 { network: None, id: [0u8; 32] }, Junction::PalletInstance(3)],
    };
    assert!(matches!(
        DenyBannedAssetHubAccount::deny_execution(&below_origin, &[]),
        Err(ProcessMessageError::Unsupported)
    ));
    // Descending in two steps reaches the same account.
    let two_steps = vec![
        Instruction::DescendOrigin(vec![]),
        descend_to([0u8; 32]),
        Instruction::Other,
    ];
    assert!(matches!(
        DenyBannedAssetHubAccount::deny_execution(&Location::asset_hub(), &two_steps),
        Err(ProcessMessageError::Unsupported)
    ));
}

#[test]
fn other_origins_are_not_denied() {
    let mut other = [0u8; 32];
    other[31] = 1;
    assert!(DenyBannedAssetHubAccount::deny_execution(&ah_account(other, None), &[]).is_ok());
    assert!(DenyBannedAssetHubAccount::deny_execution(&Location::asset_hub(), &[descend_to(other)]).is_ok());
    // A DescendOrigin that is not leading does not move the origin.
    let late = vec![Instruction::Other, descend_to([0u8; 32])];
    assert!(DenyBannedAssetHubAccount::deny_execution(&Location::asset_hub(), &late).is_ok());
    let elsewhere = Location { parents: 1, interior: vec![Junction::Parachain(1001), Junction::AccountId32 { network: None, id: [0u8; 32] }] };
    assert!(DenyBannedAssetHubAccount::deny_execution(&elsewhere, &[]).is_ok());
    assert!(DenyBannedAssetHubAccount::deny_execution(&Location::sibling(1001), &[descend_to([0u8; 32])]).is_ok());
    assert!(DenyBannedAssetHubAccount::deny_execution(&Location::parent(), &[]).is_ok());
    assert!(DenyBannedAssetHubAccount::deny_execution(&Location::asset_hub(), &[]).is_ok());
    let deeper = Location { parents: 2, interior: vec![Junction::Parachain(1000), Junction::AccountId32 { network: None, id: [0u8; 32] }] };
    assert!(DenyBannedAssetHubAccount::deny_execution(&deeper, &[]).is_ok());
}

#[test]
fn parent_and_its_executive_get_free_execution() {
    assert!(ParentOrParentsExecutivePlurality::contains(&Location::parent()));
    let exec = Location::new_x1(1, Junction::Plurality { id: BodyId::Executive, part: BodyPart::Members { count: 3 } });
    assert!(ParentOrParentsExecutivePlurality::contains(&exec));
    let tech = Location::new_x1(1, Junction::Plurality { id: BodyId::Technical, part: BodyPart::Voice });
    assert!(!ParentOrParentsExecutivePlurality::contains(&tech));
    assert!(!ParentOrParentsExecutivePlurality::contains(&Location::here()));
    assert!(!ParentOrParentsExecutivePlurality::contains(&Location::asset_hub()));
    let own_exec = Location::new_x1(0, Junction::Plurality { id: BodyId::Executive, part: BodyPart::Voice });
    assert!(!ParentOrParentsExecutivePlurality::contains(&own_exec));
}

#[test]
fn asset_hub_is_reserve_for_wnd_only() {
    assert!(AssetHubForWnd::contains(&Asset::wnd(5), &Location::asset_hub()));
    assert!(!AssetHubForWnd::contains(&Asset::native(5), &Location::asset_hub()));
    assert!(!AssetHubForWnd::contains(&Asset::wnd(5), &Location::sibling(1001)));
    assert!(!AssetHubForWnd::contains(&Asset::wnd(5), &Location::parent()));
}

#[test]
fn only_native_teleports_to_asset_hub() {
    assert!(NativeAssetToAssetHub::contains(&Asset::native(5), &Location::asset_hub()));
    assert!(!NativeAssetToAssetHub::contains(&Asset::wnd(5), &Location::asset_hub()));
    assert!(!NativeAssetToAssetHub::contains(&Asset::native(5), &Location::sibling(2000)));
}

#[test]
fn no_asset_is_both_teleported_and_reserve_transferred() {
    for a in [Asset::native(1), Asset::wnd(1)] {
        for l in [Location::asset_hub(), Location::parent(), Location::here()] {
            assert!(!(NativeAssetToAssetHub::contains(&a, &l) && AssetHubForWnd::contains(&a, &l)));
        }
    }
}

const ALICE_HEX: &str = "d43593c715fdd31c61141abd04a99fd6822c8558854ccde39a5684e7a56da27d";

fn alice_bytes() -> [u8; 32] {
    let mut b = [0u8; 32];
    for i in 0..32 {
        b[i] = u8::from_str_radix(&ALICE_HEX[2 * i..2 * i + 2], 16).unwrap();
    }
    b
}

#[test]
fn public_key_hex_decodes_with_or_without_prefix() {
    assert_eq!(Pallet::public_key_to_account_id(ALICE_HEX).unwrap(), alice_bytes());
    let prefixed = format!("0x{}", ALICE_HEX);
    assert_eq!(Pallet::public_key_to_account_id(&prefixed).unwrap(), alice_bytes());
    let upper = ALICE_HEX.to_uppercase();
    assert_eq!(Pallet::public_key_to_account_id(&upper).unwrap(), alice_bytes());
}

#[test]
fn bad_public_keys_are_rejected() {
    assert!(matches!(Pallet::public_key_to_account_id("zz"), Err(Error::InvalidAccountIdHex)));
    assert!(matches!(Pallet::public_key_to_account_id("abcd"), Err(Error::InvalidAccountIdHex)));
    assert!(matches!(Pallet::public_key_to_account_id(""), Err(Error::InvalidAccountIdHex)));
    let too_long = format!("{}00", ALICE_HEX);
    assert!(matches!(Pallet::public_key_to_account_id(&too_long), Err(Error::InvalidAccountIdHex)));
    let bad_char = format!("{}g", &ALICE_HEX[..63]);
    assert!(matches!(Pallet::public_key_to_account_id(&bad_char), Err(Error::InvalidAccountIdHex)));
}

#[test]
fn hex_of_any_key_reads_back() {
    let key: [u8; 32] = core::array::from_fn(|i| (i * 37 + 11) as u8);
    let hex: String = key.iter().map(|b| format!("{:02x}", b)).collect();
    assert_eq!(Pallet::public_key_to_account_id(&hex).unwrap(), key);
    assert_eq!(Pallet::public_key_to_account_id(&format!("0x{}", hex)).unwrap(), key);
}

#[test]
fn weights_follow_database_weights() {
    let db = RuntimeDbWeight { read: 3, write: 7 };
    let w = SubstrateWeight::new(db);
    let r = w.register_native_asset_on_ah();
    assert_eq!((r.ref_time, r.proof_size), (10_007, 0));
    let t = w.transfer_to_ah();
    assert_eq!((t.ref_time, t.proof_size), (10_010, 0));
    let p = w.setup_pool_on_ah();
    assert_eq!((p.ref_time, p.proof_size), (10_010, 0));
}

#[test]
fn default_weights_use_rocks_db() {
    let rocks = frame_support::weights::constants::RocksDbWeight::get();
    let expected_register = sp_weights::Weight::from_parts(10_000, 0).saturating_add(rocks.writes(1));
    let expected_transfer = sp_weights::Weight::from_parts(10_000, 0).saturating_add(rocks.reads_writes(1, 1));
    let r = ().register_native_asset_on_ah();
    assert_eq!(r.ref_time, expected_register.ref_time());
    assert_eq!(r.ref_time, 100_010_000);
    let t = ().transfer_to_ah();
    assert_eq!(t.ref_time, expected_transfer.ref_time());
    assert_eq!(t.ref_time, 125_010_000);
    let s = SubstrateWeight::new(RuntimeDbWeight::rocks_db()).setup_pool_on_ah();
    assert_eq!(s.ref_time, ().setup_pool_on_ah().ref_time);
}

#[test]
fn weights_saturate() {
    let db = RuntimeDbWeight { read: u64::MAX, write: u64::MAX };
    let t = SubstrateWeight::new(db).transfer_to_ah();
    assert_eq!(t.ref_time, u64::MAX);
}

#[test]
fn executor_config_uses_the_whitelists() {
    assert!(XcmConfig::is_teleporter(&Asset::native(1), &Location::asset_hub()));
    assert!(!XcmConfig::is_teleporter(&Asset::wnd(1), &Location::asset_hub()));
    assert!(XcmConfig::is_reserve(&Asset::wnd(1), &Location::asset_hub()));
    assert!(!XcmConfig::is_reserve(&Asset::wnd(1), &Location::parent()));
}
