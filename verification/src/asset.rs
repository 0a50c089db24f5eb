//! Assets identified by a location, with a fungible amount or a non-fungible instance,
//! and the filters that select them in XCM instructions.
use crate::location::{here_view, parent_view, Location, LocationView};
use vstd::prelude::*;

verus! {

/// One WND, in plancks: the amount paid for remote execution on Asset Hub.
pub const ONE_WND: u128 = 1_000_000_000_000;

/// A non-fungible asset instance.
#[derive(Clone, Copy, Debug)]
pub enum AssetInstance {
    Undefined,
    Index(u128),
    Array4([u8; 4]),
    Array8([u8; 8]),
    Array16([u8; 16]),
    Array32([u8; 32]),
}

/// Whether an asset is fungible (with an amount) or non-fungible (with an instance).
#[derive(Clone, Copy, Debug)]
pub enum Fungibility {
    Fungible(u128),
    NonFungible(AssetInstance),
}

/// Identifies an asset class by its location.
#[derive(Debug)]
pub struct AssetId(pub Location);

/// An asset: its class and its amount or instance.
#[derive(Debug)]
pub struct Asset {
    pub id: AssetId,
    pub fun: Fungibility,
}

/// The mathematical value of an [`Asset`].
pub struct AssetView {
    pub id: LocationView,
    pub fun: Fungibility,
}

impl View for Asset {
    type V = AssetView;

    open spec fn view(&self) -> AssetView {
        AssetView { id: self.id.0@, fun: self.fun }
    }
}

/// Classes of assets matched by a wildcard.
#[derive(Clone, Copy, Debug)]
pub enum WildFungibility {
    Fungible,
    NonFungible,
}

/// A wildcard selection of assets from the holding register.
#[derive(Debug)]
pub enum WildAsset {
    All,
    AllOf { id: AssetId, fun: WildFungibility },
    AllCounted(u32),
    AllOfCounted { id: AssetId, fun: WildFungibility, count: u32 },
}

/// The mathematical value of a [`WildAsset`].
pub enum WildAssetView {
    All,
    AllOf { id: LocationView, fun: WildFungibility },
    AllCounted(u32),
    AllOfCounted { id: LocationView, fun: WildFungibility, count: u32 },
}

impl View for WildAsset {
    type V = WildAssetView;

    open spec fn view(&self) -> WildAssetView {
        match self {
            WildAsset::All => WildAssetView::All,
            WildAsset::AllOf { id, fun } => WildAssetView::AllOf { id: id.0@, fun: *fun },
            WildAsset::AllCounted(n) => WildAssetView::AllCounted(*n),
            WildAsset::AllOfCounted { id, fun, count } => WildAssetView::AllOfCounted {
                id: id.0@,
                fun: *fun,
                count: *count,
            },
        }
    }
}

/// A definite list of assets or a wildcard.
#[derive(Debug)]
pub enum AssetFilter {
    Definite(Vec<Asset>),
    Wild(WildAsset),
}

/// The mathematical value of an [`AssetFilter`].
pub enum AssetFilterView {
    Definite(Seq<AssetView>),
    Wild(WildAssetView),
}

/// The views of a list of assets.
pub open spec fn assets_view(assets: Seq<Asset>) -> Seq<AssetView> {
    assets.map_values(|a: Asset| a@)
}

impl View for AssetFilter {
    type V = AssetFilterView;

    open spec fn view(&self) -> AssetFilterView {
        match self {
            AssetFilter::Definite(v) => AssetFilterView::Definite(assets_view(v@)),
            AssetFilter::Wild(w) => AssetFilterView::Wild(w@),
        }
    }
}

/// How a set of assets is moved to another chain.
#[derive(Debug)]
pub enum AssetTransferFilter {
    Teleport(AssetFilter),
    ReserveDeposit(AssetFilter),
    ReserveWithdraw(AssetFilter),
}

/// The mathematical value of an [`AssetTransferFilter`].
pub enum AssetTransferFilterView {
    Teleport(AssetFilterView),
    ReserveDeposit(AssetFilterView),
    ReserveWithdraw(AssetFilterView),
}

impl View for AssetTransferFilter {
    type V = AssetTransferFilterView;

    open spec fn view(&self) -> AssetTransferFilterView {
        match self {
            AssetTransferFilter::Teleport(f) => AssetTransferFilterView::Teleport(f@),
            AssetTransferFilter::ReserveDeposit(f) => AssetTransferFilterView::ReserveDeposit(f@),
            AssetTransferFilter::ReserveWithdraw(f) => AssetTransferFilterView::ReserveWithdraw(
                f@,
            ),
        }
    }
}

/// A fungible amount of the asset at `id`.
pub open spec fn fungible_view(id: LocationView, amount: u128) -> AssetView {
    AssetView { id, fun: Fungibility::Fungible(amount) }
}

/// `amount` of this chain's native asset (`Here`).
pub open spec fn native_view(amount: u128) -> AssetView {
    fungible_view(here_view(), amount)
}

/// `amount` of WND, the relay chain's asset (`Parent`).
pub open spec fn wnd_view(amount: u128) -> AssetView {
    fungible_view(parent_view(), amount)
}

impl Asset {
    /// `amount` of the native asset of this chain.
    pub fn native(amount: u128) -> (a: Asset)
        ensures
            a@ == native_view(amount),
    {
        Asset { id: AssetId(Location::here()), fun: Fungibility::Fungible(amount) }
    }

    /// `amount` of WND.
    pub fn wnd(amount: u128) -> (a: Asset)
        ensures
            a@ == wnd_view(amount),
    {
        Asset { id: AssetId(Location::parent()), fun: Fungibility::Fungible(amount) }
    }
}

/// A definite filter holding exactly one asset.
pub fn definite_one(asset: Asset) -> (f: AssetFilter)
    ensures
        f@ == AssetFilterView::Definite(seq![asset@]),
{
    let ghost av = asset@;
    let mut v = Vec::new();
    v.push(asset);
    assert(assets_view(v@) =~= seq![av]);
    AssetFilter::Definite(v)
}

} // verus!
