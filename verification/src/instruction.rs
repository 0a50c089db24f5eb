//! The XCM instructions that this library's programs are made of.
use crate::asset::{
    assets_view, Asset, AssetFilter, AssetFilterView, AssetTransferFilter,
    AssetTransferFilterView, AssetView,
};
use crate::location::{Junction, Location, LocationView};
use crate::weights::Weight;
use vstd::prelude::*;

verus! {

/// The kind of origin a `Transact` call is dispatched with.
#[derive(Clone, Copy, Debug)]
pub enum OriginKind {
    Native,
    SovereignAccount,
    Superuser,
    Xcm,
}

/// The most weight that may be bought for execution.
#[derive(Clone, Copy, Debug)]
pub enum WeightLimit {
    Unlimited,
    Limited(Weight),
}

/// An XCM instruction.
#[derive(Debug)]
#[allow(inconsistent_fields)]
pub enum Instruction {
    /// Move the assets from the origin's account into the holding register. The
    /// library lists them in the order `Assets` keeps: sorted by class, equal classes merged.
    WithdrawAsset(Vec<Asset>),
    /// Pay for execution with `fees` from the holding register.
    BuyExecution { fees: Asset, weight_limit: WeightLimit },
    /// Dispatch an encoded call of the executing chain.
    Transact { origin_kind: OriginKind, fallback_max_weight: Option<Weight>, call: Vec<u8> },
    /// Return unused execution fees to the holding register.
    RefundSurplus,
    /// Move assets from the holding register to `beneficiary`.
    DepositAsset { assets: AssetFilter, beneficiary: Location },
    /// Move the origin down through the given interior junctions.
    DescendOrigin(Vec<Junction>),
    /// Any other instruction: one that this library neither builds nor inspects.
    Other,
    /// Move assets to `destination` and run `remote_xcm` there.
    InitiateTransfer {
        destination: Location,
        remote_fees: Option<AssetTransferFilter>,
        preserve_origin: bool,
        assets: Vec<AssetTransferFilter>,
        remote_xcm: Vec<Instruction>,
    },
}

/// The mathematical value of an [`Instruction`].
#[allow(inconsistent_fields)]
pub enum InstructionView {
    WithdrawAsset(Seq<AssetView>),
    BuyExecution { fees: AssetView, weight_limit: WeightLimit },
    Transact { origin_kind: OriginKind, fallback_max_weight: Option<Weight>, call: Seq<u8> },
    RefundSurplus,
    DepositAsset { assets: AssetFilterView, beneficiary: LocationView },
    DescendOrigin(Seq<Junction>),
    Other,
    InitiateTransfer {
        destination: LocationView,
        remote_fees: Option<AssetTransferFilterView>,
        preserve_origin: bool,
        assets: Seq<AssetTransferFilterView>,
        remote_xcm: Seq<InstructionView>,
    },
}

/// The views of a list of transfer filters.
pub open spec fn transfer_filters_view(fs: Seq<AssetTransferFilter>) -> Seq<
    AssetTransferFilterView,
> {
    fs.map_values(|f: AssetTransferFilter| f@)
}

/// The views of a program, instruction by instruction.
pub open spec fn program_view(p: Seq<Instruction>) -> Seq<InstructionView>
    decreases p,
{
    if p.len() == 0 {
        Seq::empty()
    } else {
        program_view(p.drop_last()).push(instruction_view(p.last()))
    }
}

/// The view of one instruction.
pub open spec fn instruction_view(i: Instruction) -> InstructionView
    decreases i,
{
    match i {
        Instruction::WithdrawAsset(v) => InstructionView::WithdrawAsset(assets_view(v@)),
        Instruction::BuyExecution { fees, weight_limit } => InstructionView::BuyExecution {
            fees: fees@,
            weight_limit,
        },
        Instruction::Transact { origin_kind, fallback_max_weight, call } =>
            InstructionView::Transact { origin_kind, fallback_max_weight, call: call@ },
        Instruction::RefundSurplus => InstructionView::RefundSurplus,
        Instruction::DescendOrigin(js) => InstructionView::DescendOrigin(js@),
        Instruction::Other => InstructionView::Other,
        Instruction::DepositAsset { assets, beneficiary } => InstructionView::DepositAsset {
            assets: assets@,
            beneficiary: beneficiary@,
        },
        Instruction::InitiateTransfer {
            destination,
            remote_fees,
            preserve_origin,
            assets,
            remote_xcm,
        } => InstructionView::InitiateTransfer {
            destination: destination@,
            remote_fees: match remote_fees {
                Some(f) => Some(f@),
                None => None,
            },
            preserve_origin,
            assets: transfer_filters_view(assets@),
            remote_xcm: program_view(remote_xcm@),
        },
    }
}

impl View for Instruction {
    type V = InstructionView;

    open spec fn view(&self) -> InstructionView {
        instruction_view(*self)
    }
}

/// The view of a program grows by one instruction with each push.
pub proof fn lemma_program_view_push(p: Seq<Instruction>, i: Instruction)
    ensures
        program_view(p.push(i)) == program_view(p).push(instruction_view(i)),
{
    assert(p.push(i).drop_last() =~= p);
}

/// Appends an instruction to a program.
pub fn push_instruction(program: &mut Vec<Instruction>, i: Instruction)
    ensures
        program_view(final(program)@) == program_view(old(program)@).push(i@),
{
    let ghost iv = i@;
    proof {
        lemma_program_view_push(program@, i);
    }
    program.push(i);
}

} // verus!
