//! The part of the XCM vocabulary that the bridge configuration builds and reads,
//! held as plain values.

use vstd::prelude::*;

verus! {

/// A global consensus system (a relay chain network).
#[derive(Clone, Copy, Debug, PartialEq, Eq, Structural)]
pub enum NetworkId {
    Polkadot,
    Kusama,
    Westend,
    Rococo,
}

/// One step of an XCM location.
#[derive(Clone, Copy, Debug, PartialEq, Eq, Structural)]
pub enum Junction {
    /// An indexed parachain of the context relay chain.
    Parachain(u32),
    /// An indexed pallet instance of the context chain.
    PalletInstance(u8),
    /// A global consensus system.
    GlobalConsensus(NetworkId),
}

/// A relative location: how many levels to go up, then the junctions to go down.
#[derive(Clone, Debug, PartialEq, Eq)]
pub struct Location {
    pub parents: u8,
    pub interior: Vec<Junction>,
}

/// The mathematical value of a [`Location`].
pub struct LocationView {
    pub parents: u8,
    pub interior: Seq<Junction>,
}

impl View for Location {
    type V = LocationView;

    open spec fn view(&self) -> LocationView {
        LocationView { parents: self.parents, interior: self.interior@ }
    }
}

/// The two-dimensional weight of an XCM execution.
#[derive(Clone, Copy, Debug, PartialEq, Eq, Structural)]
pub struct Weight {
    pub ref_time: u64,
    pub proof_size: u64,
}

/// An upper bound on the weight that may be bought for an XCM program.
#[derive(Clone, Copy, Debug, PartialEq, Eq, Structural)]
pub enum WeightLimit {
    Unlimited,
    Limited(Weight),
}

/// How an XCM origin is turned into a dispatch origin.
#[derive(Clone, Copy, Debug, PartialEq, Eq, Structural)]
pub enum OriginKind {
    Native,
    SovereignAccount,
    Superuser,
    Xcm,
}

/// The XCM instructions that the congestion messages are made of.
#[derive(Clone, Debug, PartialEq, Eq)]
pub enum Instruction {
    /// Pay nothing for the execution, up to `weight_limit`.
    UnpaidExecution { weight_limit: WeightLimit, check_origin: Option<Location> },
    /// Dispatch the SCALE-encoded `call` with the given origin kind and weight.
    Transact { origin_kind: OriginKind, require_weight_at_most: Weight, call: Vec<u8> },
}

/// The mathematical value of an [`Instruction`].
pub enum InstructionView {
    UnpaidExecution { weight_limit: WeightLimit, check_origin: Option<LocationView> },
    Transact { origin_kind: OriginKind, require_weight_at_most: Weight, call: Seq<u8> },
}

impl View for Instruction {
    type V = InstructionView;

    open spec fn view(&self) -> InstructionView {
        match self {
            Instruction::UnpaidExecution { weight_limit, check_origin } => {
                InstructionView::UnpaidExecution {
                    weight_limit: *weight_limit,
                    check_origin: match check_origin {
                        Some(l) => Some(l@),
                        None => None,
                    },
                }
            },
            Instruction::Transact { origin_kind, require_weight_at_most, call } => {
                InstructionView::Transact {
                    origin_kind: *origin_kind,
                    require_weight_at_most: *require_weight_at_most,
                    call: call@,
                }
            },
        }
    }
}

/// The view of an XCM program, instruction by instruction.
pub open spec fn program_view(program: Seq<Instruction>) -> Seq<InstructionView> {
    program.map_values(|i: Instruction| i@)
}

/// Identifier of a bridge messages lane.
#[derive(Clone, Copy, Debug, PartialEq, Eq)]
pub struct LaneId(pub [u8; 4]);

/// A sending location together with the lane its messages go through.
#[derive(Clone, Debug, PartialEq, Eq)]
pub struct SenderAndLane {
    pub location: Location,
    pub lane: LaneId,
}

/// The mathematical value of a [`SenderAndLane`].
pub struct SenderAndLaneView {
    pub location: LocationView,
    pub lane: LaneId,
}

impl View for SenderAndLane {
    type V = SenderAndLaneView;

    open spec fn view(&self) -> SenderAndLaneView {
        SenderAndLaneView { location: self.location@, lane: self.lane }
    }
}

} // verus!
