use polkadot_parachain_primitives::primitives::Sibling;
use staging_xcm::v5 as x;
use sp_runtime::traits::AccountIdConversion;
use xcm_utils::asset::{Asset, AssetFilter, AssetTransferFilter, Fungibility, WildAsset, ONE_WND};
use xcm_utils::account::sibling_sovereign_account;
use xcm_utils::calls::encode_create_foreign_asset;
use xcm_utils::instruction::{Instruction, OriginKind, WeightLimit};
use xcm_utils::location::{Junction, Location};
use xcm_utils::pallet::{AccountState, DispatchError, Error, Event, Origin, Pallet};

const BALANCE: u128 = 1_000_000_000_000_000;

fn no_consumers() -> AccountState {
    AccountState { consumers: 0, existential_deposit: 0, free_balance: 0 }
}

fn amount(a: &Asset) -> u128 {
    match a.fun {
        Fungibility::Fungible(n) => n,
        Fungibility::NonFungible(_) => panic!("fungible expected"),
    }
}

fn is_here(l: &Location) -> bool {
    l.parents == 0 && l.interior.is_empty()
}

fn is_parent(l: &Location) -> bool {
    l.parents == 1 && l.interior.is_empty()
}

fn account_of(l: &Location) -> [u8; 32] {
    assert_eq!(l.parents, 0);
    assert_eq!(l.interior.len(), 1);
    match l.interior[0] {
        Junction::AccountId32 { network: None, id } => id,
        _ => panic!("account expected"),
    }
}

fn para_of(l: &Location) -> u32 {
    assert_eq!(l.parents, 1);
    assert_eq!(l.interior.len(), 1);
    match l.interior[0] {
        Junction::Parachain(id) => id,
        _ => panic!("parachain expected"),
    }
}

fn sovereign_2000() -> [u8; 32] {
    let acc: sp_runtime::AccountId32 = Sibling::from(2000u32).into_account_truncating();
    acc.into()
}

#[test]
fn test_register_native_asset_creates_foreign_asset_on_ah_works() {
    let send = Pallet::register_native_asset_on_ah(&Origin::Root, 2000).expect("root may register");
    assert_eq!(para_of(&send.dest), 1000);
    assert_eq!(send.sovereign_account, sovereign_2000());
    let p = &send.message;
    assert_eq!(p.len(), 5);
    match &p[0] {
        Instruction::WithdrawAsset(a) => {
            assert_eq!(a.len(), 1);
            assert!(is_parent(&a[0].id.0));
            assert_eq!(amount(&a[0]), 1_000_000_000_000);
        },
        _ => panic!("withdraw expected"),
    }
    match &p[1] {
        Instruction::BuyExecution { fees, weight_limit: WeightLimit::Unlimited } => {
            assert!(is_parent(&fees.id.0));
            assert_eq!(amount(fees), 1_000_000_000_000);
        },
        _ => panic!("buy execution expected"),
    }
    match &p[2] {
        Instruction::Transact { origin_kind: OriginKind::Xcm, fallback_max_weight: None, call } => {
            // ForeignAssets::create for the location Parent -> Parachain(2000).
            assert_eq!(call, &encode_create_foreign_asset(2000, &sovereign_2000()));
            assert_eq!(&call[..7], &[53, 0, 1, 1, 0, 0x41, 0x1f]);
        },
        _ => panic!("transact expected"),
    }
    assert!(matches!(p[3], Instruction::RefundSurplus));
    match &p[4] {
        Instruction::DepositAsset { assets: AssetFilter::Wild(WildAsset::AllCounted(1)), beneficiary } => {
            assert_eq!(account_of(beneficiary), sovereign_2000());
        },
        _ => panic!("deposit expected"),
    }
}

#[test]
fn register_requires_root() {
    for origin in [Origin::Signed([1u8; 32]), Origin::Unsigned] {
        assert!(matches!(
            Pallet::register_native_asset_on_ah(&origin, 2000),
            Err(DispatchError::BadOrigin)
        ));
    }
}

#[test]
fn test_transfer_to_ah_works() {
    let alice = [1u8; 32];
    let bob = [2u8; 32];
    let balance_to_transfer = BALANCE / 10;
    let plan = Pallet::transfer_to_ah(
        &Origin::Signed(alice),
        balance_to_transfer,
        balance_to_transfer,
        bob,
        2000,
        no_consumers(),
    )
    .expect("signed transfer");
    assert_eq!(plan.top_up, None);
    assert_eq!(plan.max_weight.ref_time, u64::MAX);
    assert_eq!(plan.max_weight.proof_size, u64::MAX);
    let p = &plan.message;
    assert_eq!(p.len(), 3);
    match &p[0] {
        Instruction::WithdrawAsset(a) => {
            assert!(is_parent(&a[0].id.0));
            assert_eq!(amount(&a[0]), balance_to_transfer + ONE_WND);
        },
        _ => panic!("withdraw expected"),
    }
    match &p[1] {
        Instruction::WithdrawAsset(a) => {
            assert!(is_here(&a[0].id.0));
            assert_eq!(amount(&a[0]), balance_to_transfer);
        },
        _ => panic!("withdraw expected"),
    }
    match &p[2] {
        Instruction::InitiateTransfer { destination, remote_fees, preserve_origin, assets, remote_xcm } => {
            assert_eq!(para_of(destination), 1000);
            assert!(!preserve_origin);
            match remote_fees {
                Some(AssetTransferFilter::ReserveWithdraw(AssetFilter::Definite(f))) => {
                    assert!(is_parent(&f[0].id.0));
                    assert_eq!(amount(&f[0]), ONE_WND);
                },
                _ => panic!("fees expected"),
            }
            assert_eq!(assets.len(), 2);
            match &assets[0] {
                AssetTransferFilter::Teleport(AssetFilter::Definite(a)) => {
                    assert!(is_here(&a[0].id.0));
                    assert_eq!(amount(&a[0]), balance_to_transfer);
                },
                _ => panic!("teleport expected"),
            }
            match &assets[1] {
                AssetTransferFilter::ReserveWithdraw(AssetFilter::Definite(a)) => {
                    assert!(is_parent(&a[0].id.0));
                    assert_eq!(amount(&a[0]), balance_to_transfer);
                },
                _ => panic!("reserve withdraw expected"),
            }
            assert_eq!(remote_xcm.len(), 3);
            match &remote_xcm[0] {
                Instruction::DepositAsset { assets: AssetFilter::Wild(WildAsset::AllCounted(2)), beneficiary } => {
                    assert_eq!(account_of(beneficiary), bob);
                },
                _ => panic!("deposit expected"),
            }
            assert!(matches!(remote_xcm[1], Instruction::RefundSurplus));
            match &remote_xcm[2] {
                Instruction::DepositAsset { assets: AssetFilter::Wild(WildAsset::All), beneficiary } => {
                    assert_eq!(account_of(beneficiary), sovereign_2000());
                },
                _ => panic!("deposit expected"),
            }
        },
        _ => panic!("initiate transfer expected"),
    }
}

#[test]
fn transfer_requires_signed_origin() {
    for origin in [Origin::Root, Origin::Unsigned] {
        assert!(matches!(
            Pallet::transfer_to_ah(&origin, 10, 10, [2u8; 32], 2000, no_consumers()),
            Err(DispatchError::BadOrigin)
        ));
    }
}

#[test]
fn transfer_refuses_zero_amounts() {
    let o = Origin::Signed([1u8; 32]);
    for (n, w) in [(0u128, 10u128), (10, 0), (0, 0)] {
        assert!(matches!(
            Pallet::transfer_to_ah(&o, n, w, [2u8; 32], 2000, no_consumers()),
            Err(DispatchError::Module(Error::XcmSendFailed))
        ));
    }
}

#[test]
fn transfer_tops_up_only_the_existential_deposit() {
    let o = Origin::Signed([1u8; 32]);
    // Holds exactly the amount: topped up by the existential deposit.
    let exact = AccountState { consumers: 1, existential_deposit: 100_000_000, free_balance: 1000 };
    assert_eq!(Pallet::transfer_to_ah(&o, 1000, 5, [2u8; 32], 2000, exact).unwrap().top_up, Some(100_000_000));
    // Holds part of the deposit on top: topped up by the rest.
    let partial = AccountState { consumers: 1, existential_deposit: 100, free_balance: 1040 };
    assert_eq!(Pallet::transfer_to_ah(&o, 1000, 5, [2u8; 32], 2000, partial).unwrap().top_up, Some(60));
    let rich = AccountState { consumers: 1, existential_deposit: 100_000_000, free_balance: 200_000_000 };
    assert_eq!(Pallet::transfer_to_ah(&o, 1000, 5, [2u8; 32], 2000, rich).unwrap().top_up, None);
    let no_cons = AccountState { consumers: 0, existential_deposit: 100_000_000, free_balance: 1000 };
    assert_eq!(Pallet::transfer_to_ah(&o, 1000, 5, [2u8; 32], 2000, no_cons).unwrap().top_up, None);
}

#[test]
fn no_top_up_for_an_amount_not_held() {
    let o = Origin::Signed([1u8; 32]);
    let poor = AccountState { consumers: 1, existential_deposit: 1, free_balance: 0 };
    assert_eq!(Pallet::transfer_to_ah(&o, 10, 5, [2u8; 32], 2000, poor).unwrap().top_up, None);
    assert_eq!(Pallet::setup_pool_on_ah(&o, 10, 5, 2000, poor).unwrap().top_up, None);
    assert_eq!(Pallet::top_up(10, AccountState { consumers: 1, existential_deposit: 1, free_balance: 9 }), None);
}

#[test]
fn top_up_saturates() {
    let account = AccountState { consumers: 3, existential_deposit: 10, free_balance: u128::MAX - 5 };
    assert_eq!(Pallet::top_up(u128::MAX - 7, account), Some(5));
    assert_eq!(Pallet::top_up(0, AccountState { consumers: 3, existential_deposit: 10, free_balance: 5 }), Some(5));
}

#[test]
fn transfer_wnd_total_saturates() {
    let plan = Pallet::transfer_to_ah(&Origin::Signed([1u8; 32]), 1, u128::MAX, [2u8; 32], 2000, no_consumers()).unwrap();
    match &plan.message[0] {
        Instruction::WithdrawAsset(a) => assert_eq!(amount(&a[0]), u128::MAX),
        _ => panic!("withdraw expected"),
    }
}

#[test]
fn setup_pool_builds_pool_program() {
    let plan = Pallet::setup_pool_on_ah(&Origin::Signed([1u8; 32]), 50, 70, 2000, no_consumers()).unwrap();
    let p = &plan.message;
    assert_eq!(p.len(), 2);
    match &p[0] {
        Instruction::WithdrawAsset(a) => {
            assert_eq!(a.len(), 2);
            assert!(is_here(&a[0].id.0));
            assert_eq!(amount(&a[0]), 50);
            assert!(is_parent(&a[1].id.0));
            assert_eq!(amount(&a[1]), 70 + ONE_WND);
        },
        _ => panic!("withdraw expected"),
    }
    match &p[1] {
        Instruction::InitiateTransfer { destination, remote_xcm, preserve_origin, .. } => {
            assert_eq!(para_of(destination), 1000);
            // The caller's origin travels, so the pool calls are dispatched as its account.
            assert!(*preserve_origin);
            assert_eq!(remote_xcm.len(), 5);
            match &remote_xcm[0] {
                Instruction::DepositAsset { assets: AssetFilter::Wild(WildAsset::All), beneficiary } => {
                    assert_eq!(beneficiary.parents, 1);
                    assert_eq!(beneficiary.interior.len(), 2);
                    assert!(matches!(beneficiary.interior[0], Junction::Parachain(2000)));
                    assert!(matches!(beneficiary.interior[1], Junction::AccountId32 { network: None, id } if id == [1u8; 32]));
                },
                _ => panic!("deposit expected"),
            }
            match &remote_xcm[1] {
                Instruction::Transact { call, fallback_max_weight: Some(w), origin_kind: OriginKind::SovereignAccount } => {
                    assert_eq!(&call[..2], &[56, 0]);
                    assert_eq!(w.ref_time, u64::MAX);
                },
                _ => panic!("transact expected"),
            }
            match &remote_xcm[2] {
                Instruction::Transact { call, origin_kind: OriginKind::SovereignAccount, .. } => {
                    assert_eq!(&call[..2], &[56, 1]);
                    assert_eq!(&call[call.len() - 32..], &sovereign_2000());
                },
                _ => panic!("transact expected"),
            }
            assert!(matches!(remote_xcm[3], Instruction::RefundSurplus));
            match &remote_xcm[4] {
                Instruction::DepositAsset { assets: AssetFilter::Wild(WildAsset::All), beneficiary } => {
                    assert_eq!(account_of(beneficiary), sovereign_2000());
                },
                _ => panic!("deposit expected"),
            }
        },
        _ => panic!("initiate transfer expected"),
    }
}

#[test]
fn setup_pool_checks_origin_then_amounts() {
    assert!(matches!(
        Pallet::setup_pool_on_ah(&Origin::Root, 0, 0, 2000, no_consumers()),
        Err(DispatchError::BadOrigin)
    ));
    assert!(matches!(
        Pallet::setup_pool_on_ah(&Origin::Signed([1u8; 32]), 0, 5, 2000, no_consumers()),
        Err(DispatchError::Module(Error::XcmSendFailed))
    ));
}

#[test]
fn outcomes_give_events() {
    match Pallet::sent_outcome(Ok([5u8; 32])) {
        Ok(Event::XcmSent { hash }) => assert_eq!(hash, [5u8; 32]),
        _ => panic!("event expected"),
    }
    assert!(matches!(Pallet::sent_outcome(Err(DispatchError::SendFailure)), Err(DispatchError::SendFailure)));
    match Pallet::executed_outcome(true, true) {
        Ok(Event::XcmSent { hash }) => assert_eq!(hash, [0u8; 32]),
        _ => panic!("event expected"),
    }
    assert!(matches!(Pallet::executed_outcome(false, true), Err(DispatchError::Module(Error::XcmSendFailed))));
    assert!(matches!(Pallet::executed_outcome(true, false), Err(DispatchError::Module(Error::XcmSendFailed))));
}

#[test]
fn sovereign_account_layout() {
    let acc = sibling_sovereign_account(2000);
    let mut expected = [0u8; 32];
    expected[..4].copy_from_slice(b"sibl");
    expected[4..8].copy_from_slice(&2000u32.to_le_bytes());
    assert_eq!(acc, expected);
    assert_ne!(sibling_sovereign_account(2000), sibling_sovereign_account(2001));
}

#[test]
fn pool_withdrawal_is_listed_in_assets_order() {
    let plan = Pallet::setup_pool_on_ah(&Origin::Signed([1u8; 32]), 50, 70, 2000, no_consumers()).unwrap();
    let listed: Vec<x::Asset> = match &plan.message[0] {
        Instruction::WithdrawAsset(a) => a
            .iter()
            .map(|asset| {
                let id = if is_here(&asset.id.0) { x::Location::here() } else { x::Location::parent() };
                x::Asset { id: x::AssetId(id), fun: x::Fungibility::Fungible(amount(asset)) }
            })
            .collect(),
        _ => panic!("withdraw expected"),
    };
    let normalised: x::Assets = listed.clone().into();
    assert_eq!(normalised.into_inner(), listed);
}
