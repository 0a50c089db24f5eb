//! The pallet's calls: who may call them, and the XCM programs they send to or
//! execute for Asset Hub.
//!
//! Each call is split in two. The first part checks the origin and the amounts and
//! builds the program (with the native balance to mint first, if any); the runtime
//! then mints, sends or executes it; the second part turns that outcome into the
//! call's result and event.
use crate::account::{
    all_hex_digits, all_hex_or_space, from_hex_result, hex_pairs, hex_to_account_bytes,
    sibling_account_bytes, sibling_sovereign_account, strip_0x,
};
use crate::asset::{
    definite_one, native_view, wnd_view, Asset, AssetFilter, AssetFilterView,
    AssetTransferFilter, AssetTransferFilterView, AssetView, WildAsset, WildAssetView, assets_view,
    ONE_WND,
};
use crate::calls::{
    add_liquidity_call_bytes, create_foreign_asset_call_bytes, create_pool_call_bytes,
    encode_add_liquidity, encode_create_foreign_asset, encode_create_pool,
};
use crate::instruction::{
    program_view, push_instruction, transfer_filters_view, Instruction, InstructionView,
    OriginKind, WeightLimit,
};
use crate::location::{account_view, asset_hub_view, sibling_account_view, Location, LocationView};
use crate::weights::Weight;
use vstd::prelude::*;

verus! {

/// `a + b`, clamped at `u128::MAX`.
pub open spec fn sat_add_u128(a: u128, b: u128) -> u128 {
    if a + b > u128::MAX {
        u128::MAX
    } else {
        (a + b) as u128
    }
}

/// The origin a call is dispatched with.
#[derive(Clone, Copy, Debug)]
pub enum Origin {
    Root,
    Signed([u8; 32]),
    /// No origin: an unsigned call.
    Unsigned,
}

/// The pallet's errors.
#[derive(Clone, Copy, Debug)]
pub enum Error {
    XcmSendFailed,
    InvalidAccountIdHex,
}

/// Why a call failed.
#[derive(Clone, Copy, Debug)]
pub enum DispatchError {
    /// The origin may not make this call.
    BadOrigin,
    /// An error of this pallet.
    Module(Error),
    /// The runtime's XCM controller refused to send the message.
    SendFailure,
}

/// The pallet's events.
#[derive(Clone, Copy, Debug)]
pub enum Event {
    XcmSent { hash: [u8; 32] },
}

/// The balances of the calling account that decide whether it is topped up.
#[derive(Clone, Copy, Debug)]
pub struct AccountState {
    /// The number of consumer references of the account.
    pub consumers: u32,
    /// The existential deposit of the native asset.
    pub existential_deposit: u128,
    /// The account's free native balance.
    pub free_balance: u128,
}

/// A message to send to another chain.
#[derive(Debug)]
pub struct RemoteSend {
    pub dest: Location,
    pub message: Vec<Instruction>,
    /// This chain's sovereign account on Asset Hub, where surplus fees are returned.
    pub sovereign_account: [u8; 32],
}

/// A message to execute locally, after minting `top_up` native tokens into the caller's account.
#[derive(Debug)]
pub struct LocalExecution {
    pub top_up: Option<u128>,
    pub message: Vec<Instruction>,
    pub max_weight: Weight,
    /// This chain's sovereign account on Asset Hub, where surplus fees are returned.
    pub sovereign_account: [u8; 32],
}

/// The native tokens minted into the caller's account so that it keeps the existential
/// deposit after sending `amount` it already holds: only an account with consumers that
/// holds `amount` but not `amount` plus the existential deposit is topped up, by what it
/// lacks, which is at most the existential deposit. A caller that does not hold `amount`
/// gets nothing, and the local withdrawal of the native asset then fails.
pub open spec fn top_up_amount(amount: u128, account: AccountState) -> Option<u128> {
    let required = sat_add_u128(amount, account.existential_deposit);
    if account.consumers > 0 && amount <= account.free_balance && account.free_balance
        < required {
        Some((required - account.free_balance) as u128)
    } else {
        None
    }
}

/// The program sent to Asset Hub to register parachain `para_id`'s asset: withdraw one
/// WND, buy execution with it, create the foreign asset, refund the surplus and deposit
/// it to the sovereign account.
pub open spec fn register_program(para_id: u32, sovereign: [u8; 32]) -> Seq<InstructionView> {
    seq![
        InstructionView::WithdrawAsset(seq![wnd_view(ONE_WND)]),
        InstructionView::BuyExecution {
            fees: wnd_view(ONE_WND),
            weight_limit: WeightLimit::Unlimited,
        },
        InstructionView::Transact {
            origin_kind: OriginKind::Xcm,
            fallback_max_weight: None,
            call: create_foreign_asset_call_bytes(para_id, sovereign@),
        },
        InstructionView::RefundSurplus,
        InstructionView::DepositAsset {
            assets: AssetFilterView::Wild(WildAssetView::AllCounted(1)),
            beneficiary: account_view(sovereign),
        },
    ]
}

/// Remote fees: one WND, withdrawn from the reserve on Asset Hub.
pub open spec fn remote_fees_view() -> AssetTransferFilterView {
    AssetTransferFilterView::ReserveWithdraw(AssetFilterView::Definite(seq![wnd_view(ONE_WND)]))
}

/// The assets moved to Asset Hub: the native asset by teleport, WND by reserve withdrawal.
pub open spec fn transfer_filters(amount_native: u128, amount_wnd: u128) -> Seq<
    AssetTransferFilterView,
> {
    seq![
        AssetTransferFilterView::Teleport(AssetFilterView::Definite(seq![native_view(amount_native)])),
        AssetTransferFilterView::ReserveWithdraw(AssetFilterView::Definite(seq![wnd_view(amount_wnd)])),
    ]
}

/// What runs on Asset Hub after a transfer: both assets go to the beneficiary, the
/// surplus fees to the sovereign account.
pub open spec fn transfer_remote_program(beneficiary: [u8; 32], sovereign: [u8; 32]) -> Seq<
    InstructionView,
> {
    seq![
        InstructionView::DepositAsset {
            assets: AssetFilterView::Wild(WildAssetView::AllCounted(2)),
            beneficiary: account_view(beneficiary),
        },
        InstructionView::RefundSurplus,
        InstructionView::DepositAsset {
            assets: AssetFilterView::Wild(WildAssetView::All),
            beneficiary: account_view(sovereign),
        },
    ]
}

/// The program executed locally by `transfer_to_ah`: withdraw the WND (with one more
/// for remote fees), withdraw the native asset, and move both to Asset Hub.
pub open spec fn transfer_program(
    amount_native: u128,
    amount_wnd: u128,
    beneficiary: [u8; 32],
    sovereign: [u8; 32],
) -> Seq<InstructionView> {
    seq![
        InstructionView::WithdrawAsset(seq![wnd_view(sat_add_u128(amount_wnd, ONE_WND))]),
        InstructionView::WithdrawAsset(seq![native_view(amount_native)]),
        InstructionView::InitiateTransfer {
            destination: asset_hub_view(),
            remote_fees: Some(remote_fees_view()),
            preserve_origin: false,
            assets: transfer_filters(amount_native, amount_wnd),
            remote_xcm: transfer_remote_program(beneficiary, sovereign),
        },
    ]
}

/// What runs on Asset Hub to set up the pool, with the caller's origin preserved, so
/// Asset Hub acts as the caller's account there, `Parent -> Parachain(para_id) ->
/// AccountId32(caller)`: deposit both assets to that account, create the pool and
/// add the liquidity as that account (`Transact` with `OriginKind::SovereignAccount`,
/// the origin kind that Asset Hub turns into the signed origin the two calls need),
/// minting the liquidity tokens to this chain's sovereign account, then refund the
/// surplus fees and deposit them to the sovereign account.
pub open spec fn pool_remote_program(
    para_id: u32,
    caller: [u8; 32],
    amount_native: u128,
    amount_wnd: u128,
    sovereign: [u8; 32],
) -> Seq<InstructionView> {
    seq![
        InstructionView::DepositAsset {
            assets: AssetFilterView::Wild(WildAssetView::All),
            beneficiary: sibling_account_view(para_id, caller),
        },
        InstructionView::Transact {
            origin_kind: OriginKind::SovereignAccount,
            fallback_max_weight: Some(Weight { ref_time: u64::MAX, proof_size: u64::MAX }),
            call: create_pool_call_bytes(para_id),
        },
        InstructionView::Transact {
            origin_kind: OriginKind::SovereignAccount,
            fallback_max_weight: Some(Weight { ref_time: u64::MAX, proof_size: u64::MAX }),
            call: add_liquidity_call_bytes(para_id, amount_wnd, amount_native, sovereign@),
        },
        InstructionView::RefundSurplus,
        InstructionView::DepositAsset {
            assets: AssetFilterView::Wild(WildAssetView::All),
            beneficiary: account_view(sovereign),
        },
    ]
}

/// The program executed locally by `setup_pool_on_ah`: withdraw the native asset and
/// the WND (with one more for remote fees), listed in the order `Assets` keeps them
/// (the native asset `Here` sorts before `Parent`), and move both to Asset Hub,
/// preserving the caller's origin so that the pool calls can be dispatched there.
pub open spec fn pool_program(
    para_id: u32,
    caller: [u8; 32],
    amount_native: u128,
    amount_wnd: u128,
    sovereign: [u8; 32],
) -> Seq<InstructionView> {
    seq![
        InstructionView::WithdrawAsset(
            seq![native_view(amount_native), wnd_view(sat_add_u128(amount_wnd, ONE_WND))],
        ),
        InstructionView::InitiateTransfer {
            destination: asset_hub_view(),
            remote_fees: Some(remote_fees_view()),
            preserve_origin: true,
            assets: transfer_filters(amount_native, amount_wnd),
            remote_xcm: pool_remote_program(para_id, caller, amount_native, amount_wnd, sovereign),
        },
    ]
}

/// A list holding one asset.
fn one_asset(a: Asset) -> (v: Vec<Asset>)
    ensures
        assets_view(v@) == seq![a@],
{
    let ghost av = a@;
    let mut v = Vec::new();
    v.push(a);
    assert(assets_view(v@) =~= seq![av]);
    v
}

/// The remote fees filter.
fn remote_fees() -> (f: AssetTransferFilter)
    ensures
        f@ == remote_fees_view(),
{
    AssetTransferFilter::ReserveWithdraw(definite_one(Asset::wnd(ONE_WND)))
}

/// The transfer filters of both assets.
fn transfer_filters_exec(amount_native: u128, amount_wnd: u128) -> (v: Vec<AssetTransferFilter>)
    ensures
        transfer_filters_view(v@) == transfer_filters(amount_native, amount_wnd),
{
    let native = AssetTransferFilter::Teleport(definite_one(Asset::native(amount_native)));
    let wnd = AssetTransferFilter::ReserveWithdraw(definite_one(Asset::wnd(amount_wnd)));
    let ghost nv = native@;
    let ghost wv = wnd@;
    let mut v = Vec::new();
    v.push(native);
    v.push(wnd);
    assert(transfer_filters_view(v@) =~= seq![nv, wv]);
    v
}

/// Deposit the assets matched by `assets` to the local account `account`.
fn deposit_to(assets: WildAsset, account: [u8; 32]) -> (i: Instruction)
    ensures
        i@ == (InstructionView::DepositAsset {
            assets: AssetFilterView::Wild(assets@),
            beneficiary: account_view(account),
        }),
{
    Instruction::DepositAsset { assets: AssetFilter::Wild(assets), beneficiary: Location::account(account) }
}

/// The largest weight, for `Transact` fallbacks and local execution.
fn max_weight() -> (w: Weight)
    ensures
        w == (Weight { ref_time: u64::MAX, proof_size: u64::MAX }),
{
    Weight::max_value()
}

/// The pallet.
pub struct Pallet;

impl Pallet {
    /// The program that registers parachain `para_id`'s native asset on Asset Hub as a
    /// foreign asset. Only root may call this.
    pub fn register_native_asset_on_ah(origin: &Origin, para_id: u32) -> (r: Result<
        RemoteSend,
        DispatchError,
    >)
        ensures
            r is Ok <==> origin is Root,
            r matches Err(e) ==> e == DispatchError::BadOrigin,
            r matches Ok(s) ==> s.dest@ == asset_hub_view() && s.sovereign_account@
                == sibling_account_bytes(para_id) && program_view(s.message@) == register_program(
                para_id,
                s.sovereign_account,
            ),
    {
        match origin {
            Origin::Root => {},
            _ => {
                return Err(DispatchError::BadOrigin);
            },
        }
        let sovereign = sibling_sovereign_account(para_id);
        let call = encode_create_foreign_asset(para_id, &sovereign);
        let mut program: Vec<Instruction> = Vec::new();
        let i0 = Instruction::WithdrawAsset(one_asset(Asset::wnd(ONE_WND)));
        push_instruction(&mut program, i0);
        let i1 = Instruction::BuyExecution {
            fees: Asset::wnd(ONE_WND),
            weight_limit: WeightLimit::Unlimited,
        };
        push_instruction(&mut program, i1);
        let i2 = Instruction::Transact {
            origin_kind: OriginKind::Xcm,
            fallback_max_weight: None,
            call,
        };
        push_instruction(&mut program, i2);
        push_instruction(&mut program, Instruction::RefundSurplus);
        let i4 = deposit_to(WildAsset::AllCounted(1), sovereign);
        push_instruction(&mut program, i4);
        assert(program_view(Seq::<Instruction>::empty()) =~= Seq::<InstructionView>::empty());
        assert(program_view(program@) =~= register_program(para_id, sovereign));
        Ok(RemoteSend { dest: Location::asset_hub(), message: program, sovereign_account: sovereign })
    }

    /// The program that moves `amount_native` of the native asset and `amount_wnd` WND
    /// from the signed caller to `beneficiary` on Asset Hub, and the native tokens to
    /// mint first so that the caller keeps its existential deposit.
    pub fn transfer_to_ah(
        origin: &Origin,
        amount_native: u128,
        amount_wnd: u128,
        beneficiary: [u8; 32],
        para_id: u32,
        account: AccountState,
    ) -> (r: Result<LocalExecution, DispatchError>)
        ensures
            !(origin is Signed) ==> r matches Err(DispatchError::BadOrigin),
            origin is Signed && (amount_native == 0 || amount_wnd == 0) ==> r matches Err(
                DispatchError::Module(Error::XcmSendFailed),
            ),
            origin is Signed && amount_native > 0 && amount_wnd > 0 ==> r is Ok,
            r matches Ok(plan) ==> plan.top_up == top_up_amount(amount_native, account)
                && plan.max_weight == (Weight { ref_time: u64::MAX, proof_size: u64::MAX })
                && plan.sovereign_account@ == sibling_account_bytes(para_id) && program_view(
                plan.message@,
            ) == transfer_program(amount_native, amount_wnd, beneficiary, plan.sovereign_account),
    {
        match origin {
            Origin::Signed(_) => {},
            _ => {
                return Err(DispatchError::BadOrigin);
            },
        }
        let top_up = Self::top_up(amount_native, account);
        if !(amount_native > 0 && amount_wnd > 0) {
            return Err(DispatchError::Module(Error::XcmSendFailed));
        }
        let wnd_total = amount_wnd.saturating_add(ONE_WND);
        let sovereign = sibling_sovereign_account(para_id);

        let mut remote: Vec<Instruction> = Vec::new();
        let r0 = deposit_to(WildAsset::AllCounted(2), beneficiary);
        push_instruction(&mut remote, r0);
        push_instruction(&mut remote, Instruction::RefundSurplus);
        let r2 = deposit_to(WildAsset::All, sovereign);
        push_instruction(&mut remote, r2);
        assert(program_view(Seq::<Instruction>::empty()) =~= Seq::<InstructionView>::empty());
        assert(program_view(remote@) =~= transfer_remote_program(beneficiary, sovereign));

        let mut program: Vec<Instruction> = Vec::new();
        let i0 = Instruction::WithdrawAsset(one_asset(Asset::wnd(wnd_total)));
        push_instruction(&mut program, i0);
        let i1 = Instruction::WithdrawAsset(one_asset(Asset::native(amount_native)));
        push_instruction(&mut program, i1);
        let i2 = Instruction::InitiateTransfer {
            destination: Location::asset_hub(),
            remote_fees: Some(remote_fees()),
            preserve_origin: false,
            assets: transfer_filters_exec(amount_native, amount_wnd),
            remote_xcm: remote,
        };
        push_instruction(&mut program, i2);
        assert(program_view(program@) =~= transfer_program(
            amount_native,
            amount_wnd,
            beneficiary,
            sovereign,
        ));
        Ok(
            LocalExecution {
                top_up,
                message: program,
                max_weight: max_weight(),
                sovereign_account: sovereign,
            },
        )
    }

    /// The program that creates a WND / native asset pool on Asset Hub and adds
    /// `amount_wnd` and `amount_native` of liquidity, the liquidity tokens going to this
    /// chain's sovereign account, and the native tokens to mint first so that the caller
    /// keeps its existential deposit. The caller's origin travels with the assets, and
    /// the pool calls are dispatched as the caller's account on Asset Hub.
    pub fn setup_pool_on_ah(
        origin: &Origin,
        amount_native: u128,
        amount_wnd: u128,
        para_id: u32,
        account: AccountState,
    ) -> (r: Result<LocalExecution, DispatchError>)
        ensures
            !(origin is Signed) ==> r matches Err(DispatchError::BadOrigin),
            origin is Signed && (amount_native == 0 || amount_wnd == 0) ==> r matches Err(
                DispatchError::Module(Error::XcmSendFailed),
            ),
            origin is Signed && amount_native > 0 && amount_wnd > 0 ==> r is Ok,
            r matches Ok(plan) ==> plan.top_up == top_up_amount(amount_native, account)
                && plan.max_weight == (Weight { ref_time: u64::MAX, proof_size: u64::MAX })
                && plan.sovereign_account@ == sibling_account_bytes(para_id) && program_view(
                plan.message@,
            ) == pool_program(
                para_id,
                origin->Signed_0,
                amount_native,
                amount_wnd,
                plan.sovereign_account,
            ),
    {
        let caller = match origin {
            Origin::Signed(who) => *who,
            _ => {
                return Err(DispatchError::BadOrigin);
            },
        };
        if !(amount_native > 0 && amount_wnd > 0) {
            return Err(DispatchError::Module(Error::XcmSendFailed));
        }
        let top_up = Self::top_up(amount_native, account);
        let wnd_total = amount_wnd.saturating_add(ONE_WND);
        let sovereign = sibling_sovereign_account(para_id);

        let create_pool = encode_create_pool(para_id);
        let add_liquidity = encode_add_liquidity(para_id, amount_wnd, amount_native, &sovereign);

        let mut remote: Vec<Instruction> = Vec::new();
        let r0 = Instruction::DepositAsset {
            assets: AssetFilter::Wild(WildAsset::All),
            beneficiary: Location::sibling_account(para_id, caller),
        };
        push_instruction(&mut remote, r0);
        let r1 = Instruction::Transact {
            origin_kind: OriginKind::SovereignAccount,
            fallback_max_weight: Some(max_weight()),
            call: create_pool,
        };
        push_instruction(&mut remote, r1);
        let r2 = Instruction::Transact {
            origin_kind: OriginKind::SovereignAccount,
            fallback_max_weight: Some(max_weight()),
            call: add_liquidity,
        };
        push_instruction(&mut remote, r2);
        push_instruction(&mut remote, Instruction::RefundSurplus);
        let r4 = deposit_to(WildAsset::All, sovereign);
        push_instruction(&mut remote, r4);
        assert(program_view(Seq::<Instruction>::empty()) =~= Seq::<InstructionView>::empty());
        assert(program_view(remote@) =~= pool_remote_program(
            para_id,
            caller,
            amount_native,
            amount_wnd,
            sovereign,
        ));

        let wnd_asset = Asset::wnd(wnd_total);
        let native_asset = Asset::native(amount_native);
        let ghost wa = wnd_asset@;
        let ghost na = native_asset@;
        let mut withdraw: Vec<Asset> = Vec::new();
        withdraw.push(native_asset);
        withdraw.push(wnd_asset);
        assert(assets_view(withdraw@) =~= seq![na, wa]);

        let mut program: Vec<Instruction> = Vec::new();
        let i0 = Instruction::WithdrawAsset(withdraw);
        push_instruction(&mut program, i0);
        let i1 = Instruction::InitiateTransfer {
            destination: Location::asset_hub(),
            remote_fees: Some(remote_fees()),
            preserve_origin: true,
            assets: transfer_filters_exec(amount_native, amount_wnd),
            remote_xcm: remote,
        };
        push_instruction(&mut program, i1);
        assert(program_view(program@) =~= pool_program(
            para_id,
            caller,
            amount_native,
            amount_wnd,
            sovereign,
        ));
        Ok(
            LocalExecution {
                top_up,
                message: program,
                max_weight: max_weight(),
                sovereign_account: sovereign,
            },
        )
    }

    /// The native tokens to mint into a caller that is about to send `amount` away.
    pub fn top_up(amount: u128, account: AccountState) -> (r: Option<u128>)
        ensures
            r == top_up_amount(amount, account),
    {
        if account.consumers > 0 && amount <= account.free_balance {
            let required = amount.saturating_add(account.existential_deposit);
            if account.free_balance < required {
                return Some(required - account.free_balance);
            }
        }
        None
    }

    /// The result of a call that sent a message: the event with the message hash, or
    /// the controller's error.
    pub fn sent_outcome(sent: Result<[u8; 32], DispatchError>) -> (r: Result<Event, DispatchError>)
        ensures
            sent matches Ok(h) ==> r == Ok::<Event, DispatchError>(Event::XcmSent { hash: h }),
            sent matches Err(e) ==> r == Err::<Event, DispatchError>(e),
    {
        match sent {
            Ok(hash) => Ok(Event::XcmSent { hash }),
            Err(e) => Err(e),
        }
    }

    /// The result of a call that executed a message locally: with no message hash,
    /// the event carries the zero hash; a failed top-up or execution is `XcmSendFailed`.
    pub fn executed_outcome(topped_up: bool, executed: bool) -> (r: Result<Event, DispatchError>)
        ensures
            topped_up && executed ==> (r matches Ok(Event::XcmSent { hash }) && hash@ == Seq::new(
                32,
                |i: int| 0u8,
            )),
            !(topped_up && executed) ==> r == Err::<Event, DispatchError>(
                DispatchError::Module(Error::XcmSendFailed),
            ),
    {
        if topped_up && executed {
            let hash = [0u8; 32];
            assert(hash@ =~= Seq::new(32, |i: int| 0u8));
            Ok(Event::XcmSent { hash })
        } else {
            Err(DispatchError::Module(Error::XcmSendFailed))
        }
    }

    /// Turns a hex public key (with or without `0x`) into a 32-byte account id.
    pub fn public_key_to_account_id(hex: &str) -> (r: Result<[u8; 32], Error>)
        ensures
            r is Ok <==> (from_hex_result(hex@) matches Some(b) && b.len() == 32),
            r matches Ok(k) ==> from_hex_result(hex@) == Some(k@),
            r matches Err(e) ==> e == Error::InvalidAccountIdHex,
            r is Ok <==> all_hex_or_space(strip_0x(hex@)) && (strip_0x(hex@).len() + 1) / 2
                == 32,
            all_hex_digits(strip_0x(hex@)) && strip_0x(hex@).len() == 64 ==> (r matches Ok(k)
                && k@ == hex_pairs(strip_0x(hex@))),
    {
        match hex_to_account_bytes(hex) {
            Some(k) => Ok(k),
            None => Err(Error::InvalidAccountIdHex),
        }
    }
}

} // verus!
