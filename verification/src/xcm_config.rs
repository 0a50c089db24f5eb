//! The runtime's XCM rules: which origins the barrier rejects, which origins get
//! free execution, which chain is trusted as reserve for WND, and which teleports
//! are allowed.
use crate::asset::{Asset, AssetView};
use crate::instruction::Instruction;
use crate::location::{
    asset_hub_view, bytes32_eq, here_view, parent_view, BodyId, Junction, Location,
    LocationView, ASSET_HUB_PARA_ID,
};
use crate::weights::Weight;
use vstd::prelude::*;

verus! {

/// Why a message is not processed.
#[derive(Clone, Copy, Debug)]
pub enum ProcessMessageError {
    BadFormat,
    Corrupt,
    Unsupported,
    Overweight(Weight),
    Yield,
    StackLimitReached,
}

/// The banned account on Asset Hub, as bytes: thirty-two zeros.
pub open spec fn banned_account_view() -> Seq<u8> {
    Seq::new(32, |i: int| 0u8)
}

/// The account on Asset Hub whose messages are rejected: all zeros.
pub fn banned_asset_hub_account_id() -> (r: [u8; 32])
    ensures
        r@ == banned_account_view(),
{
    let r = [0u8; 32];
    assert(r@ =~= banned_account_view());
    r
}

/// The origin is the banned account on Asset Hub or lies below it: it starts with
/// `Parent -> Parachain(1000) -> AccountId32 { id: banned, .. }`, on any network.
pub open spec fn is_banned_origin(origin: LocationView) -> bool {
    &&& origin.parents == 1
    &&& origin.interior.len() >= 2
    &&& origin.interior[0] == Junction::Parachain(ASSET_HUB_PARA_ID)
    &&& origin.interior[1] matches Junction::AccountId32 { id, .. }
    &&& id@ == banned_account_view()
}

/// The origin is the parent, or the executive plurality of the parent.
pub open spec fn is_parent_or_executive(l: LocationView) -> bool {
    ||| l == parent_view()
    ||| {
        &&& l.parents == 1
        &&& l.interior.len() == 1
        &&& l.interior[0] matches Junction::Plurality { id: BodyId::Executive, .. }
    }
}

/// The origin a message acts as after its leading `DescendOrigin` instructions: each
/// appends its junctions to the origin's interior.
pub open spec fn descended_origin(origin: LocationView, message: Seq<Instruction>) -> LocationView
    decreases message.len(),
{
    if message.len() > 0 {
        match message[0] {
            Instruction::DescendOrigin(js) => descended_origin(
                LocationView { parents: origin.parents, interior: origin.interior + js@ },
                message.subrange(1, message.len() as int),
            ),
            _ => origin,
        }
    } else {
        origin
    }
}

/// Asset Hub is the reserve of WND: the asset is WND and the location is Asset Hub.
pub open spec fn is_wnd_from_asset_hub(asset: AssetView, location: LocationView) -> bool {
    asset.id == parent_view() && location == asset_hub_view()
}

/// Teleports are allowed for the native asset to Asset Hub only.
pub open spec fn is_native_to_asset_hub(asset: AssetView, location: LocationView) -> bool {
    asset.id == here_view() && location == asset_hub_view()
}

/// Rejects messages that act for the banned account on Asset Hub.
pub struct DenyBannedAssetHubAccount;

/// Whether a location is the banned account on Asset Hub or lies below it.
fn is_banned_location(l: &Location) -> (r: bool)
    ensures
        r == is_banned_origin(l@),
{
    if l.parents == 1 && l.interior.len() >= 2 {
        let first = l.interior[0];
        let second = l.interior[1];
        match (first, second) {
            (Junction::Parachain(para), Junction::AccountId32 { id, .. }) => {
                let banned = banned_asset_hub_account_id();
                para == ASSET_HUB_PARA_ID && bytes32_eq(&id, &banned)
            },
            _ => false,
        }
    } else {
        false
    }
}

impl DenyBannedAssetHubAccount {
    /// `Err(Unsupported)` exactly when the message acts for the banned account on Asset
    /// Hub or for something below it: its origin, moved down by its leading
    /// `DescendOrigin` instructions, starts with
    /// `Parent -> Parachain(1000) -> AccountId32 { id: banned, .. }`. A message from
    /// that account arrives with origin `Parachain(1000)` and a leading `DescendOrigin`.
    pub fn deny_execution(origin: &Location, instructions: &[Instruction]) -> (r: Result<
        (),
        ProcessMessageError,
    >)
        ensures
            is_banned_origin(descended_origin(origin@, instructions@)) ==> r matches Err(
                ProcessMessageError::Unsupported,
            ),
            !is_banned_origin(descended_origin(origin@, instructions@)) ==> r is Ok,
    {
        let mut interior: Vec<Junction> = Vec::new();
        let mut k: usize = 0;
        while k < origin.interior.len()
            invariant
                k <= origin.interior@.len(),
                interior@ == origin.interior@.subrange(0, k as int),
            decreases origin.interior@.len() - k,
        {
            interior.push(origin.interior[k]);
            assert(origin.interior@.subrange(0, k + 1) =~= origin.interior@.subrange(0, k as int).push(origin.interior@[k as int]));
            k = k + 1;
        }
        assert(origin.interior@.subrange(0, k as int) =~= origin.interior@);
        let mut current = Location { parents: origin.parents, interior };
        let n = instructions.len();
        let mut i: usize = 0;
        let mut done = false;
        assert(instructions@.subrange(0, n as int) =~= instructions@);
        while i < n && !done
            invariant
                i <= n,
                done ==> descended_origin(current@, instructions@.subrange(i as int, n as int))
                    == current@,
                n == instructions@.len(),
                current.parents == origin.parents,
                descended_origin(origin@, instructions@) == descended_origin(
                    current@,
                    instructions@.subrange(i as int, n as int),
                ),
            decreases n - i + (if done { 0int } else { 1int }),
        {
            let ghost rest = instructions@.subrange(i as int, n as int);
            match &instructions[i] {
                Instruction::DescendOrigin(js) => {
                    let ghost before = current@;
                    let mut j: usize = 0;
                    while j < js.len()
                        invariant
                            j <= js@.len(),
                            current.parents == before.parents,
                            current@.interior == before.interior + js@.subrange(0, j as int),
                        decreases js@.len() - j,
                    {
                        current.interior.push(js[j]);
                        assert(js@.subrange(0, j + 1) =~= js@.subrange(0, j as int).push(js@[j as int]));
                        j = j + 1;
                    }
                    assert(js@.subrange(0, j as int) =~= js@);
                    assert(rest.subrange(1, rest.len() as int) =~= instructions@.subrange(i + 1, n as int));
                    assert(current@ == (LocationView { parents: before.parents, interior: before.interior + js@ }));
                    i = i + 1;
                },
                _ => {
                    assert(descended_origin(current@, rest) == current@);
                    done = true;
                },
            }
        }
        if !done {
            assert(instructions@.subrange(n as int, n as int).len() == 0);
        }
        if is_banned_location(&current) {
            Err(ProcessMessageError::Unsupported)
        } else {
            Ok(())
        }
    }
}

/// The parent and its executive plurality get free execution.
pub struct ParentOrParentsExecutivePlurality;

impl ParentOrParentsExecutivePlurality {
    /// Whether the location is `(1, [])` or `(1, [Plurality { id: Executive, .. }])`.
    pub fn contains(location: &Location) -> (r: bool)
        ensures
            r == is_parent_or_executive(location@),
    {
        if location.is_parent() {
            return true;
        }
        if location.parents == 1 && location.interior.len() == 1 {
            match location.interior[0] {
                Junction::Plurality { id: BodyId::Executive, .. } => true,
                _ => false,
            }
        } else {
            false
        }
    }
}

/// Asset Hub is trusted as the reserve of WND.
pub struct AssetHubForWnd;

impl AssetHubForWnd {
    /// Whether `asset` is WND and `location` is Asset Hub.
    pub fn contains(asset: &Asset, location: &Location) -> (r: bool)
        ensures
            r == is_wnd_from_asset_hub(asset@, location@),
    {
        let is_asset_hub = location.is_asset_hub();
        asset.id.0.is_parent() && is_asset_hub
    }
}

/// Only the native asset may be teleported, and only to Asset Hub.
pub struct NativeAssetToAssetHub;

impl NativeAssetToAssetHub {
    /// Whether `asset` is the native asset and `location` is Asset Hub.
    pub fn contains(asset: &Asset, location: &Location) -> (r: bool)
        ensures
            r == is_native_to_asset_hub(asset@, location@),
    {
        let is_asset_hub = location.is_asset_hub();
        asset.id.0.is_here() && is_asset_hub
    }
}

/// The executor configuration's asset rules: Asset Hub is the reserve of WND
/// (`IsReserve = AssetHubForWnd`) and teleports are whitelisted to the native asset
/// going to Asset Hub (`IsTeleporter = NativeAssetToAssetHub`).
pub struct XcmConfig;

impl XcmConfig {
    /// `IsReserve`: whether `origin` is trusted as the reserve of `asset`.
    pub fn is_reserve(asset: &Asset, origin: &Location) -> (r: bool)
        ensures
            r == is_wnd_from_asset_hub(asset@, origin@),
    {
        AssetHubForWnd::contains(asset, origin)
    }

    /// `IsTeleporter`: whether `asset` may be teleported with `origin`.
    pub fn is_teleporter(asset: &Asset, origin: &Location) -> (r: bool)
        ensures
            r == is_native_to_asset_hub(asset@, origin@),
    {
        NativeAssetToAssetHub::contains(asset, origin)
    }
}

} // verus!
