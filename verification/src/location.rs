//! Locations in the XCM consensus hierarchy: a number of parents followed by
//! at most eight interior junctions.
use vstd::prelude::*;

verus! {

/// The para id of Asset Hub on Westend.
pub const ASSET_HUB_PARA_ID: u32 = 1000;

/// A global identifier of a consensus system.
#[derive(Clone, Copy, Debug)]
pub enum NetworkId {
    ByGenesis([u8; 32]),
    ByFork { block_number: u64, block_hash: [u8; 32] },
    Polkadot,
    Kusama,
    Ethereum { chain_id: u64 },
    BitcoinCore,
    BitcoinCash,
    PolkadotBulletin,
}

/// An identifier of a pluralistic body.
#[derive(Clone, Copy, Debug)]
pub enum BodyId {
    Unit,
    Moniker([u8; 4]),
    Index(u32),
    Executive,
    Technical,
    Legislative,
    Judicial,
    Defense,
    Administration,
    Treasury,
}

/// A part of a pluralistic body.
#[derive(Clone, Copy, Debug)]
pub enum BodyPart {
    Voice,
    Members { count: u32 },
    Fraction { nom: u32, denom: u32 },
    AtLeastProportion { nom: u32, denom: u32 },
    MoreThanProportion { nom: u32, denom: u32 },
}

/// A single item in a path to describe the relative location of a consensus system.
#[derive(Clone, Copy, Debug)]
#[allow(inconsistent_fields)]
pub enum Junction {
    Parachain(u32),
    AccountId32 { network: Option<NetworkId>, id: [u8; 32] },
    AccountIndex64 { network: Option<NetworkId>, index: u64 },
    AccountKey20 { network: Option<NetworkId>, key: [u8; 20] },
    PalletInstance(u8),
    GeneralIndex(u128),
    GeneralKey { length: u8, data: [u8; 32] },
    OnlyChild,
    Plurality { id: BodyId, part: BodyPart },
    GlobalConsensus(NetworkId),
}

/// A relative location: `parents` steps up, then down through `interior`.
#[derive(Debug)]
pub struct Location {
    pub parents: u8,
    pub interior: Vec<Junction>,
}

/// The mathematical value of a [`Location`].
pub struct LocationView {
    pub parents: u8,
    pub interior: Seq<Junction>,
}

impl View for Location {
    type V = LocationView;

    open spec fn view(&self) -> LocationView {
        LocationView { parents: self.parents, interior: self.interior@ }
    }
}

/// The location of the interpreting consensus system itself.
pub open spec fn here_view() -> LocationView {
    LocationView { parents: 0, interior: Seq::empty() }
}

/// The location of the parent (relay chain) of the interpreting system.
pub open spec fn parent_view() -> LocationView {
    LocationView { parents: 1, interior: Seq::empty() }
}

/// A sibling parachain as seen from a parachain: `Parent -> Parachain(id)`.
pub open spec fn sibling_view(para_id: u32) -> LocationView {
    LocationView { parents: 1, interior: seq![Junction::Parachain(para_id)] }
}

/// Asset Hub as seen from a sibling parachain.
pub open spec fn asset_hub_view() -> LocationView {
    sibling_view(ASSET_HUB_PARA_ID)
}

/// A local 32-byte account without a network: `AccountId32 { network: None, id }`.
pub open spec fn account_view(id: [u8; 32]) -> LocationView {
    LocationView {
        parents: 0,
        interior: seq![Junction::AccountId32 { network: None, id }],
    }
}

/// An account of a sibling parachain, as seen from another sibling:
/// `Parent -> Parachain(para_id) -> AccountId32 { network: None, id }`.
pub open spec fn sibling_account_view(para_id: u32, id: [u8; 32]) -> LocationView {
    LocationView {
        parents: 1,
        interior: seq![Junction::Parachain(para_id), Junction::AccountId32 { network: None, id }],
    }
}

impl Location {
    /// `Location::here()`.
    pub fn here() -> (l: Location)
        ensures
            l@ == here_view(),
    {
        Location { parents: 0, interior: Vec::new() }
    }

    /// `Location::parent()`.
    pub fn parent() -> (l: Location)
        ensures
            l@ == parent_view(),
    {
        Location { parents: 1, interior: Vec::new() }
    }

    /// A location with `parents` and a single interior junction.
    pub fn new_x1(parents: u8, junction: Junction) -> (l: Location)
        ensures
            l@ == (LocationView { parents, interior: seq![junction] }),
    {
        let mut interior = Vec::new();
        interior.push(junction);
        Location { parents, interior }
    }

    /// `Parent -> Parachain(para_id)`.
    pub fn sibling(para_id: u32) -> (l: Location)
        ensures
            l@ == sibling_view(para_id),
    {
        Location::new_x1(1, Junction::Parachain(para_id))
    }

    /// `Parent -> Parachain(1000)`: Asset Hub.
    pub fn asset_hub() -> (l: Location)
        ensures
            l@ == asset_hub_view(),
    {
        Location::sibling(ASSET_HUB_PARA_ID)
    }

    /// `AccountId32 { network: None, id }` with no parents.
    pub fn account(id: [u8; 32]) -> (l: Location)
        ensures
            l@ == account_view(id),
    {
        Location::new_x1(0, Junction::AccountId32 { network: None, id })
    }

    /// `Parent -> Parachain(para_id) -> AccountId32 { network: None, id }`.
    pub fn sibling_account(para_id: u32, id: [u8; 32]) -> (l: Location)
        ensures
            l@ == sibling_account_view(para_id, id),
    {
        let mut interior = Vec::new();
        interior.push(Junction::Parachain(para_id));
        interior.push(Junction::AccountId32 { network: None, id });
        assert(interior@ =~= seq![
            Junction::Parachain(para_id),
            Junction::AccountId32 { network: None, id },
        ]);
        Location { parents: 1, interior }
    }

    /// Whether the location has no parents and no interior junctions.
    pub fn is_here(&self) -> (r: bool)
        ensures
            r == (self@ == here_view()),
    {
        let r = self.parents == 0 && self.interior.len() == 0;
        proof {
            if r {
                assert(self@.interior =~= Seq::<Junction>::empty());
            }
        }
        r
    }

    /// Whether the location is exactly the parent.
    pub fn is_parent(&self) -> (r: bool)
        ensures
            r == (self@ == parent_view()),
    {
        let r = self.parents == 1 && self.interior.len() == 0;
        proof {
            if r {
                assert(self@.interior =~= Seq::<Junction>::empty());
            }
        }
        r
    }

    /// Whether the location is exactly Asset Hub, `Parent -> Parachain(1000)`.
    pub fn is_asset_hub(&self) -> (r: bool)
        ensures
            r == (self@ == asset_hub_view()),
    {
        if self.parents == 1 && self.interior.len() == 1 {
            match self.interior[0] {
                Junction::Parachain(id) => {
                    if id == ASSET_HUB_PARA_ID {
                        assert(self@.interior =~= seq![Junction::Parachain(ASSET_HUB_PARA_ID)]);
                        true
                    } else {
                        assert(self@.interior[0] != asset_hub_view().interior[0]);
                        false
                    }
                },
                _ => {
                    assert(self@.interior[0] != asset_hub_view().interior[0]);
                    false
                },
            }
        } else {
            false
        }
    }
}

/// Byte-wise equality of two 32-byte arrays.
pub fn bytes32_eq(a: &[u8; 32], b: &[u8; 32]) -> (r: bool)
    ensures
        r == (a@ == b@),
{
    let mut i: usize = 0;
    while i < 32
        invariant
            i <= 32,
            a@.len() == 32,
            b@.len() == 32,
            forall|j: int| 0 <= j < i ==> a@[j] == b@[j],
        decreases 32 - i,
    {
        if a[i] != b[i] {
            return false;
        }
        i = i + 1;
    }
    assert(a@ =~= b@);
    true
}

} // verus!
