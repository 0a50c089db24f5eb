//! Properties that hold across the library's functions: the pallet's programs stay
//! within the runtime's teleport and reserve rules, surplus fees always return to the
//! sovereign account, top-ups supply at most the existential deposit, sovereign accounts are
//! distinct, and a hex public key reads back as itself.
use crate::account::{
    all_hex_digits, hex_pairs, hex_value, is_hex_digit, sibling_account_bytes, strip_0x,
};
use crate::asset::{
    native_view, wnd_view, AssetFilterView, AssetTransferFilterView, AssetView, WildAssetView,
    ONE_WND,
};
use crate::codec::{le_bytes, lemma_le_bytes_len, parent_location_bytes, sibling_location_bytes};
use crate::instruction::InstructionView;
use crate::weights::{one_read_write_weight, one_write_weight, RuntimeDbWeight};
use crate::location::{account_view, here_view, parent_view, LocationView};
use crate::pallet::{
    pool_program, pool_remote_program, register_program, remote_fees_view, sat_add_u128,
    top_up_amount, transfer_filters, transfer_program, transfer_remote_program, AccountState,
};
use crate::instruction::Instruction;
use crate::location::{asset_hub_view, BodyId, BodyPart, Junction};
use crate::xcm_config::{
    banned_account_view, descended_origin, is_banned_origin, is_native_to_asset_hub, is_parent_or_executive, is_wnd_from_asset_hub,
};
use vstd::prelude::*;

verus! {

/// A transfer filter moves only what the runtime allows towards `dest`: teleported
/// assets are the native asset going to Asset Hub, reserve-withdrawn assets are WND
/// going to Asset Hub, its reserve.
pub open spec fn filter_respects_config(f: AssetTransferFilterView, dest: LocationView) -> bool {
    match f {
        AssetTransferFilterView::Teleport(AssetFilterView::Definite(assets)) => forall|k: int|
            0 <= k < assets.len() ==> is_native_to_asset_hub(#[trigger] assets[k], dest),
        AssetTransferFilterView::ReserveWithdraw(AssetFilterView::Definite(assets)) => forall|
            k: int,
        |
            0 <= k < assets.len() ==> is_wnd_from_asset_hub(#[trigger] assets[k], dest),
        _ => false,
    }
}

/// Every transfer that the instruction starts respects the runtime's rules,
/// remote fees included.
pub open spec fn transfer_respects_config(i: InstructionView) -> bool {
    match i {
        InstructionView::InitiateTransfer { destination, remote_fees, assets, .. } => {
            &&& (remote_fees matches Some(f) ==> filter_respects_config(f, destination))
            &&& forall|k: int|
                0 <= k < assets.len() ==> filter_respects_config(#[trigger] assets[k], destination)
        },
        _ => true,
    }
}

/// Every instruction of the program respects the runtime's transfer rules.
pub open spec fn program_respects_config(p: Seq<InstructionView>) -> bool {
    forall|k: int| 0 <= k < p.len() ==> transfer_respects_config(#[trigger] p[k])
}

/// The program ends by refunding the surplus fees and depositing them to `account`.
pub open spec fn ends_with_refund_to(p: Seq<InstructionView>, account: [u8; 32]) -> bool {
    &&& p.len() >= 2
    &&& p[p.len() - 2] == InstructionView::RefundSurplus
    &&& p[p.len() - 1] matches InstructionView::DepositAsset {
        assets: AssetFilterView::Wild(_),
        beneficiary,
    }
    &&& beneficiary == account_view(account)
}

/// No asset is both teleportable and reserve-transferred: the teleport whitelist and
/// the reserve rule never accept the same asset and location.
pub proof fn lemma_teleport_and_reserve_are_disjoint(asset: AssetView, location: LocationView)
    ensures
        !(is_native_to_asset_hub(asset, location) && is_wnd_from_asset_hub(asset, location)),
{
    if is_native_to_asset_hub(asset, location) {
        assert(asset.id.parents == 0);
        assert(parent_view().parents == 1);
    }
}

/// The relay chain and its executive, which get free execution, are never the banned origin.
pub proof fn lemma_free_execution_origins_are_not_banned(origin: LocationView)
    ensures
        is_parent_or_executive(origin) ==> !is_banned_origin(origin),
{
}

/// Leading `DescendOrigin`s only append junctions: the descended origin keeps the
/// parents and starts with the origin's interior.
pub proof fn lemma_descended_origin_extends(origin: LocationView, message: Seq<Instruction>)
    ensures
        descended_origin(origin, message).parents == origin.parents,
        descended_origin(origin, message).interior.len() >= origin.interior.len(),
        descended_origin(origin, message).interior.subrange(0, origin.interior.len() as int)
            == origin.interior,
    decreases message.len(),
{
    if message.len() > 0 {
        match message[0] {
            Instruction::DescendOrigin(js) => {
                let next = LocationView {
                    parents: origin.parents,
                    interior: origin.interior + js@,
                };
                let rest = message.subrange(1, message.len() as int);
                lemma_descended_origin_extends(next, rest);
                let d = descended_origin(next, rest);
                assert(d.interior.subrange(0, origin.interior.len() as int) =~= d.interior.subrange(
                    0,
                    next.interior.len() as int,
                ).subrange(0, origin.interior.len() as int));
                assert(next.interior.subrange(0, origin.interior.len() as int)
                    =~= origin.interior);
            },
            _ => {
                assert(origin.interior.subrange(0, origin.interior.len() as int)
                    =~= origin.interior);
            },
        }
    } else {
        assert(origin.interior.subrange(0, origin.interior.len() as int) =~= origin.interior);
    }
}

/// The banned account cannot escape the barrier by descending: a message whose origin
/// is the banned account, or lies below it, is rejected whatever its leading
/// `DescendOrigin`s are.
pub proof fn lemma_descending_keeps_banned(origin: LocationView, message: Seq<Instruction>)
    requires
        is_banned_origin(origin),
    ensures
        is_banned_origin(descended_origin(origin, message)),
{
    lemma_descended_origin_extends(origin, message);
    let d = descended_origin(origin, message);
    let pre = d.interior.subrange(0, origin.interior.len() as int);
    assert(d.interior[0] == pre[0]);
    assert(d.interior[1] == pre[1]);
}

/// A message sent by the banned account on Asset Hub (origin Asset Hub, then a
/// `DescendOrigin` to the account, on any network) is rejected by the barrier,
/// whatever follows, further `DescendOrigin`s included.
pub proof fn lemma_messages_of_banned_account_are_denied(
    message: Seq<Instruction>,
    network: Option<crate::location::NetworkId>,
    id: [u8; 32],
)
    requires
        id@ == banned_account_view(),
        message.len() > 0,
        message[0] matches Instruction::DescendOrigin(js) && js@ == seq![
            Junction::AccountId32 { network, id },
        ],
    ensures
        is_banned_origin(descended_origin(asset_hub_view(), message)),
{
    let js = match message[0] {
        Instruction::DescendOrigin(js) => js,
        _ => arbitrary(),
    };
    let next = LocationView {
        parents: 1,
        interior: asset_hub_view().interior + js@,
    };
    let rest = message.subrange(1, message.len() as int);
    assert(descended_origin(asset_hub_view(), message) == descended_origin(next, rest));
    assert(next.interior =~= seq![
        Junction::Parachain(crate::location::ASSET_HUB_PARA_ID),
        Junction::AccountId32 { network, id },
    ]);
    assert(is_banned_origin(next));
    lemma_descending_keeps_banned(next, rest);
}

/// `transfer_to_ah` only teleports the native asset to Asset Hub and only
/// reserve-withdraws WND from Asset Hub, as the runtime's XCM configuration allows.
pub proof fn lemma_transfer_respects_config(
    amount_native: u128,
    amount_wnd: u128,
    beneficiary: [u8; 32],
    sovereign: [u8; 32],
)
    ensures
        program_respects_config(transfer_program(amount_native, amount_wnd, beneficiary, sovereign)),
{
    let p = transfer_program(amount_native, amount_wnd, beneficiary, sovereign);
    let fs = transfer_filters(amount_native, amount_wnd);
    assert(filter_respects_config(fs[0], crate::location::asset_hub_view()));
    assert(filter_respects_config(fs[1], crate::location::asset_hub_view()));
    assert(filter_respects_config(remote_fees_view(), crate::location::asset_hub_view()));
    assert(transfer_respects_config(p[2]));
    assert(transfer_respects_config(p[0]));
    assert(transfer_respects_config(p[1]));
}

/// `setup_pool_on_ah` only teleports the native asset to Asset Hub and only
/// reserve-withdraws WND from Asset Hub, as the runtime's XCM configuration allows.
pub proof fn lemma_setup_pool_respects_config(
    para_id: u32,
    caller: [u8; 32],
    amount_native: u128,
    amount_wnd: u128,
    sovereign: [u8; 32],
)
    ensures
        program_respects_config(
            pool_program(para_id, caller, amount_native, amount_wnd, sovereign),
        ),
{
    let p = pool_program(para_id, caller, amount_native, amount_wnd, sovereign);
    let fs = transfer_filters(amount_native, amount_wnd);
    assert(filter_respects_config(fs[0], crate::location::asset_hub_view()));
    assert(filter_respects_config(fs[1], crate::location::asset_hub_view()));
    assert(filter_respects_config(remote_fees_view(), crate::location::asset_hub_view()));
    assert(transfer_respects_config(p[0]));
    assert(transfer_respects_config(p[1]));
}

/// Every program that runs on Asset Hub ends by refunding the overestimated fees and
/// depositing them to this chain's sovereign account, so fees left over after the
/// program's work are not trapped.
pub proof fn lemma_surplus_fees_return_to_sovereign(
    para_id: u32,
    caller: [u8; 32],
    amount_native: u128,
    amount_wnd: u128,
    beneficiary: [u8; 32],
    sovereign: [u8; 32],
)
    ensures
        ends_with_refund_to(register_program(para_id, sovereign), sovereign),
        ends_with_refund_to(transfer_remote_program(beneficiary, sovereign), sovereign),
        ends_with_refund_to(
            pool_remote_program(para_id, caller, amount_native, amount_wnd, sovereign),
            sovereign,
        ),
{
}

/// The beneficiary receives exactly the requested amounts, for every pair of amounts:
/// the transfer teleports one asset, `amount_native` of the native asset (what
/// instruction 1 withdrew), and reserve-withdraws one asset, `amount_wnd` of WND; the
/// remote fees are one WND; and the WND withdrawn locally is `amount_wnd` plus that
/// WND (when the sum fits in a `u128`).
pub proof fn lemma_transfer_moves_requested_amounts(
    amount_native: u128,
    amount_wnd: u128,
    beneficiary: [u8; 32],
    sovereign: [u8; 32],
)
    ensures
        ({
            let p = transfer_program(amount_native, amount_wnd, beneficiary, sovereign);
            &&& amount_wnd + ONE_WND <= u128::MAX ==> p[0] == InstructionView::WithdrawAsset(
                seq![wnd_view((amount_wnd + ONE_WND) as u128)],
            )
            &&& p[1] == InstructionView::WithdrawAsset(seq![native_view(amount_native)])
            &&& p[2] matches InstructionView::InitiateTransfer { assets, remote_fees, .. }
            &&& assets.len() == 2
            &&& assets[0] == AssetTransferFilterView::Teleport(
                AssetFilterView::Definite(seq![native_view(amount_native)]),
            )
            &&& assets[1] == AssetTransferFilterView::ReserveWithdraw(
                AssetFilterView::Definite(seq![wnd_view(amount_wnd)]),
            )
            &&& remote_fees == Some(
                AssetTransferFilterView::ReserveWithdraw(
                    AssetFilterView::Definite(seq![wnd_view(ONE_WND)]),
                ),
            )
            &&& p[2] matches InstructionView::InitiateTransfer { destination, remote_xcm, preserve_origin, .. }
            &&& destination.parents == 1
            &&& destination.interior == seq![Junction::Parachain(1000)]
            &&& !preserve_origin
            &&& remote_xcm.len() == 3
            &&& remote_xcm[0] == InstructionView::DepositAsset {
                assets: AssetFilterView::Wild(WildAssetView::AllCounted(2)),
                beneficiary: LocationView {
                    parents: 0,
                    interior: seq![Junction::AccountId32 { network: None, id: beneficiary }],
                },
            }
        }),
{
}

/// Registration pays one WND for execution on Asset Hub and creates the foreign asset
/// `Parent -> Parachain(para_id)` administered by the sovereign account with minimum
/// balance one: the call is `ForeignAssets` (53) `create` (0), the location, the
/// `MultiAddress::Id` variant, the account and the little-endian `1`, dispatched with
/// the `Xcm` origin kind; the surplus fees return to the sovereign account.
pub proof fn lemma_register_creates_the_foreign_asset(para_id: u32, sovereign: [u8; 32])
    ensures
        ({
            let p = register_program(para_id, sovereign);
            &&& p.len() == 5
            &&& p[0] == InstructionView::WithdrawAsset(seq![wnd_view(1_000_000_000_000)])
            &&& p[1] matches InstructionView::BuyExecution { fees, .. }
            &&& fees == wnd_view(1_000_000_000_000)
            &&& p[2] == InstructionView::Transact {
                origin_kind: crate::instruction::OriginKind::Xcm,
                fallback_max_weight: None,
                call: seq![53u8, 0u8] + sibling_location_bytes(para_id) + seq![0u8] + sovereign@
                    + le_bytes(1, 16),
            }
            &&& p[4] == InstructionView::DepositAsset {
                assets: AssetFilterView::Wild(WildAssetView::AllCounted(1)),
                beneficiary: LocationView {
                    parents: 0,
                    interior: seq![Junction::AccountId32 { network: None, id: sovereign }],
                },
            }
        }),
{
}

/// Each call's weight is the base time plus its database accesses: registration one
/// write, the transfer and the pool set-up one read and one write, with no proof size
/// (when nothing saturates).
pub proof fn lemma_weights_count_database_accesses(db: RuntimeDbWeight)
    requires
        10_000 + db.read + db.write <= u64::MAX,
    ensures
        one_write_weight(db).ref_time == 10_000 + db.write,
        one_write_weight(db).proof_size == 0,
        one_read_write_weight(db).ref_time == 10_000 + db.read + db.write,
        one_read_write_weight(db).proof_size == 0,
{
}

/// The pool receives exactly the requested amounts, for every pair of amounts: the
/// native amount is withdrawn and teleported, the WND amount (plus one WND for fees)
/// withdrawn and the WND amount reserve-withdrawn, and the `add_liquidity` call asks
/// for `amount_wnd` of its first asset (WND, `Parent`) and `amount_native` of its second
/// (`Parent -> Parachain(para_id)`), as desired and as minimum amounts, minting to the
/// sovereign account.
pub proof fn lemma_setup_pool_moves_requested_amounts(
    para_id: u32,
    caller: [u8; 32],
    amount_native: u128,
    amount_wnd: u128,
    sovereign: [u8; 32],
)
    ensures
        ({
            let p = pool_program(para_id, caller, amount_native, amount_wnd, sovereign);
            &&& amount_wnd + ONE_WND <= u128::MAX ==> p[0] == InstructionView::WithdrawAsset(
                seq![native_view(amount_native), wnd_view((amount_wnd + ONE_WND) as u128)],
            )
            &&& p[1] matches InstructionView::InitiateTransfer { assets, remote_xcm, .. }
            &&& assets.len() == 2
            &&& assets[0] == AssetTransferFilterView::Teleport(
                AssetFilterView::Definite(seq![native_view(amount_native)]),
            )
            &&& assets[1] == AssetTransferFilterView::ReserveWithdraw(
                AssetFilterView::Definite(seq![wnd_view(amount_wnd)]),
            )
            &&& remote_xcm.len() == 5
            &&& remote_xcm[2] matches InstructionView::Transact { call, .. }
            &&& call == seq![56u8, 1u8] + parent_location_bytes() + sibling_location_bytes(para_id)
                + le_bytes(amount_wnd as nat, 16) + le_bytes(amount_native as nat, 16) + le_bytes(
                amount_wnd as nat,
                16,
            ) + le_bytes(amount_native as nat, 16) + sovereign@
        }),
{
}

/// Asset Hub is trusted as reserve of WND only, and of WND only from Asset Hub: the
/// rule accepts an asset and a location exactly when the asset's class is `Parent`
/// (no interior) and the location is `Parent -> Parachain(1000)`.
pub proof fn lemma_reserve_is_wnd_from_asset_hub_only(asset: AssetView, location: LocationView)
    ensures
        is_wnd_from_asset_hub(asset, location) ==> asset.id.parents == 1
            && asset.id.interior.len() == 0,
        is_wnd_from_asset_hub(asset, location) ==> location.parents == 1
            && location.interior.len() == 1 && location.interior[0] == Junction::Parachain(1000),
        (asset.id.parents == 1 && asset.id.interior.len() == 0 && location.parents == 1
            && location.interior =~= seq![Junction::Parachain(1000)]) ==> is_wnd_from_asset_hub(
            asset,
            location,
        ),
{
    if is_wnd_from_asset_hub(asset, location) {
        assert(asset.id.interior == parent_view().interior);
        assert(location.interior == asset_hub_view().interior);
    }
    if asset.id.parents == 1 && asset.id.interior.len() == 0 {
        assert(asset.id.interior =~= parent_view().interior);
    }
}

/// Only the native asset (`Here`) may be teleported, and only to
/// `Parent -> Parachain(1000)`.
pub proof fn lemma_teleport_is_native_to_asset_hub_only(asset: AssetView, location: LocationView)
    ensures
        is_native_to_asset_hub(asset, location) ==> asset.id.parents == 0
            && asset.id.interior.len() == 0,
        is_native_to_asset_hub(asset, location) ==> location.parents == 1
            && location.interior.len() == 1 && location.interior[0] == Junction::Parachain(1000),
        (asset.id.parents == 0 && asset.id.interior.len() == 0 && location.parents == 1
            && location.interior =~= seq![Junction::Parachain(1000)]) ==> is_native_to_asset_hub(
            asset,
            location,
        ),
{
    if is_native_to_asset_hub(asset, location) {
        assert(location.interior == asset_hub_view().interior);
    }
    if asset.id.parents == 0 && asset.id.interior.len() == 0 {
        assert(asset.id.interior =~= here_view().interior);
    }
}

/// The relay chain and its executive body get free execution whatever part of the body
/// speaks; no other body of the relay chain, and nothing without exactly one parent, does.
pub proof fn lemma_free_execution_is_parent_or_its_executive(
    part: BodyPart,
    other: BodyId,
    l: LocationView,
)
    ensures
        is_parent_or_executive(LocationView { parents: 1, interior: Seq::empty() }),
        is_parent_or_executive(
            LocationView {
                parents: 1,
                interior: seq![Junction::Plurality { id: BodyId::Executive, part }],
            },
        ),
        !(other is Executive) ==> !is_parent_or_executive(
            LocationView { parents: 1, interior: seq![Junction::Plurality { id: other, part }] },
        ),
        l.parents != 1 ==> !is_parent_or_executive(l),
        l.interior.len() > 1 ==> !is_parent_or_executive(l),
{
    assert(LocationView { parents: 1, interior: Seq::<Junction>::empty() } == parent_view()) by {
        assert(Seq::<Junction>::empty() =~= parent_view().interior);
    }
}

/// The barrier denies only origins that start with `Parent -> Parachain(1000)` followed
/// by a 32-byte account whose bytes are all zero; any other second junction (a 20-byte
/// account, a pallet, a plurality, another 32-byte account) is let through.
pub proof fn lemma_only_the_zero_account_on_asset_hub_is_banned(origin: LocationView)
    ensures
        is_banned_origin(origin) ==> origin.parents == 1 && origin.interior.len() >= 2
            && origin.interior[0] == Junction::Parachain(1000) && (origin.interior[1] matches Junction::AccountId32 {
            id,
            ..
        } && id@ == Seq::new(32, |i: int| 0u8)),
        (origin.interior.len() >= 2 && !(origin.interior[1] is AccountId32))
            ==> !is_banned_origin(origin),
{
    if is_banned_origin(origin) {
        assert(banned_account_view() =~= Seq::new(32, |i: int| 0u8));
    }
}

/// The top-up only ever supplies the existential deposit: it is at most the existential
/// deposit, it is given only to an account with consumers that already holds the amount
/// it sends, and it brings the free balance exactly to `amount + existential_deposit`
/// (clamped). An account that does not hold the amount is never topped up.
pub proof fn lemma_top_up_is_at_most_existential_deposit(amount: u128, account: AccountState)
    ensures
        account.consumers == 0 ==> top_up_amount(amount, account) is None,
        account.free_balance < amount ==> top_up_amount(amount, account) is None,
        top_up_amount(amount, account) matches Some(t) ==> {
            &&& t <= account.existential_deposit
            &&& account.free_balance + t == sat_add_u128(amount, account.existential_deposit)
        },
        account.consumers > 0 && amount <= account.free_balance ==> (top_up_amount(
            amount,
            account,
        ) is None <==> account.free_balance >= sat_add_u128(amount, account.existential_deposit)),
{
}

/// `256^k`.
pub open spec fn pow256(k: nat) -> nat
    decreases k,
{
    if k == 0 {
        1
    } else {
        256 * pow256((k - 1) as nat)
    }
}

/// Little-endian bytes determine a number that fits in them.
pub proof fn lemma_le_bytes_injective(a: nat, b: nat, k: nat)
    requires
        a < pow256(k),
        b < pow256(k),
        le_bytes(a, k) == le_bytes(b, k),
    ensures
        a == b,
    decreases k,
{
    if k > 0 {
        let ka = (k - 1) as nat;
        lemma_le_bytes_len(a / 256, ka);
        lemma_le_bytes_len(b / 256, ka);
        assert(le_bytes(a, k)[0] == (a % 256) as u8);
        assert(le_bytes(b, k)[0] == (b % 256) as u8);
        assert(le_bytes(a / 256, ka) =~= le_bytes(a, k).subrange(1, k as int));
        assert(le_bytes(b / 256, ka) =~= le_bytes(b, k).subrange(1, k as int));
        assert(a / 256 < pow256(ka)) by (nonlinear_arith)
            requires
                a < 256 * pow256(ka),
        ;
        assert(b / 256 < pow256(ka)) by (nonlinear_arith)
            requires
                b < 256 * pow256(ka),
        ;
        lemma_le_bytes_injective(a / 256, b / 256, ka);
        assert(a == 256 * (a / 256) + a % 256) by (nonlinear_arith);
        assert(b == 256 * (b / 256) + b % 256) by (nonlinear_arith);
    } else {
        assert(a == 0 && b == 0);
    }
}

/// Different parachains have different sovereign accounts.
pub proof fn lemma_sovereign_accounts_distinct(a: u32, b: u32)
    requires
        a != b,
    ensures
        sibling_account_bytes(a) != sibling_account_bytes(b),
{
    assert(pow256(4) == 0x1_0000_0000) by {
        reveal_with_fuel(pow256, 5);
    }
    if sibling_account_bytes(a) == sibling_account_bytes(b) {
        lemma_le_bytes_len(a as nat, 4);
        lemma_le_bytes_len(b as nat, 4);
        assert(le_bytes(a as nat, 4) =~= sibling_account_bytes(a).subrange(4, 8));
        assert(le_bytes(b as nat, 4) =~= sibling_account_bytes(b).subrange(4, 8));
        lemma_le_bytes_injective(a as nat, b as nat, 4);
    }
}

/// The lowercase hex digit for a value below sixteen.
pub open spec fn hex_char(n: u8) -> char {
    if n < 10 {
        (('0' as u8) + n) as char
    } else {
        (('a' as u8) + n - 10) as char
    }
}

/// A byte string written in lowercase hex, two digits per byte.
pub open spec fn lower_hex(bytes: Seq<u8>) -> Seq<char> {
    Seq::new(
        2 * bytes.len(),
        |i: int|
            if i % 2 == 0 {
                hex_char(bytes[i / 2] / 16)
            } else {
                hex_char(bytes[i / 2] % 16)
            },
    )
}

proof fn lemma_hex_char(n: u8)
    requires
        n < 16,
    ensures
        is_hex_digit(hex_char(n)),
        hex_value(hex_char(n)) == n,
        hex_char(n) != 'x',
{
}

/// A 32-byte key written in lowercase hex, with or without `0x`, is 64 hex digits
/// after the prefix is stripped, and its digit pairs spell the key again; so
/// `public_key_to_account_id` reads it back as the key.
pub proof fn lemma_hex_key_roundtrip(key: Seq<u8>)
    requires
        key.len() == 32,
    ensures
        strip_0x(lower_hex(key)) == lower_hex(key),
        strip_0x(seq!['0', 'x'] + lower_hex(key)) == lower_hex(key),
        all_hex_digits(lower_hex(key)),
        lower_hex(key).len() == 64,
        hex_pairs(lower_hex(key)) == key,
{
    let s = lower_hex(key);
    lemma_hex_char(key[0] % 16);
    assert(s[1] == hex_char(key[0] % 16));
    assert(strip_0x(s) == s);
    assert((seq!['0', 'x'] + s).subrange(2, 66) =~= s);
    assert forall|i: int| 0 <= i < s.len() implies #[trigger] is_hex_digit(s[i]) by {
        lemma_hex_char(key[i / 2] / 16);
        lemma_hex_char(key[i / 2] % 16);
    }
    assert forall|k: int| 0 <= k < 32 implies #[trigger] hex_pairs(s)[k] == key[k] by {
        let b = key[k];
        lemma_hex_char(b / 16);
        lemma_hex_char(b % 16);
        assert(s[2 * k] == hex_char(b / 16));
        assert(s[2 * k + 1] == hex_char(b % 16));
        assert((b / 16) * 16 + b % 16 == b) by (nonlinear_arith);
    }
    assert(hex_pairs(s) =~= key);
}

} // verus!
