//! The XCM programs by which the bridge hub tells AssetHubWestend that the bridge
//! to Rococo has become congested, or is no longer congested.

use crate::xcm_model::{Instruction, InstructionView, OriginKind, Weight, WeightLimit, program_view};
use parity_scale_codec::Encode;
use vstd::prelude::*;

verus! {

/// Index of the `ToRococoXcmRouter` pallet in the AssetHubWestend `Call` enum.
pub const TO_ROCOCO_XCM_ROUTER_PALLET_INDEX: u8 = 34;

/// Index of `report_bridge_status` among the calls of that pallet.
pub const REPORT_BRIDGE_STATUS_CALL_INDEX: u8 = 0;

/// The SCALE encoding of
/// `Call::ToRococoXcmRouter(report_bridge_status { bridge_id, is_congested })`:
/// the pallet index, the call index, the 32 bytes of the bridge id, and one byte
/// for the flag.
pub open spec fn report_bridge_status_call(bridge_id: Seq<u8>, is_congested: bool) -> Seq<u8> {
    seq![TO_ROCOCO_XCM_ROUTER_PALLET_INDEX, REPORT_BRIDGE_STATUS_CALL_INDEX] + bridge_id + seq![
        if is_congested {
            1u8
        } else {
            0u8
        },
    ]
}

/// The bridge id that the congestion reports carry: the default (all-zero) hash.
pub open spec fn default_bridge_id() -> Seq<u8> {
    Seq::new(32, |_i: int| 0u8)
}

/// The weight that AssetHubWestend may spend on the `report_bridge_status` call.
pub open spec fn transact_call_max_weight_spec() -> Weight {
    Weight { ref_time: 200_000_000, proof_size: 6144 }
}

/// The congestion report program: unpaid execution without limit and without
/// an origin check, then a `Transact` of the `report_bridge_status` call.
pub open spec fn congestion_message(is_congested: bool) -> Seq<InstructionView> {
    seq![
        InstructionView::UnpaidExecution { weight_limit: WeightLimit::Unlimited, check_origin: None },
        InstructionView::Transact {
            origin_kind: OriginKind::Xcm,
            require_weight_at_most: transact_call_max_weight_spec(),
            call: report_bridge_status_call(default_bridge_id(), is_congested),
        },
    ]
}

/// Encodes `bp_asset_hub_westend::Call::ToRococoXcmRouter(report_bridge_status { .. })`
/// with `parity_scale_codec::Encode::encode`. The contract states the SCALE layout
/// that the derived encoding gives: the `#[codec(index = 34)]` and
/// `#[codec(index = 0)]` variant bytes, the 32 raw bytes of the `H256`, then the
/// flag as one byte.
#[verifier::external_body]
fn encode_report_bridge_status(bridge_id: [u8; 32], is_congested: bool) -> (call: Vec<u8>)
    ensures
        call@ == report_bridge_status_call(bridge_id@, is_congested),
{
    bp_asset_hub_westend::Call::ToRococoXcmRouter(
        bp_asset_hub_westend::XcmBridgeHubRouterCall::report_bridge_status {
            bridge_id: bp_asset_hub_westend::Hash::from(bridge_id),
            is_congested,
        },
    ).encode()
}

/// Reads `bp_asset_hub_westend::XcmBridgeHubRouterTransactCallMaxWeight::get()`,
/// which the crate defines as `Weight::from_parts(200_000_000, 6144)`; the contract
/// states those two parts.
#[verifier::external_body]
fn transact_call_max_weight() -> (w: Weight)
    ensures
        w == transact_call_max_weight_spec(),
{
    let w = bp_asset_hub_westend::XcmBridgeHubRouterTransactCallMaxWeight::get();
    Weight { ref_time: w.ref_time(), proof_size: w.proof_size() }
}

/// Builds the program that reports to AssetHubWestend whether the bridge to Rococo
/// is congested.
pub fn build_congestion_message(is_congested: bool) -> (message: Vec<Instruction>)
    ensures
        program_view(message@) == congestion_message(is_congested),
{
    let bridge_id: [u8; 32] = [0u8; 32];
    assert(bridge_id@ =~= default_bridge_id());
    let call = encode_report_bridge_status(bridge_id, is_congested);
    let mut message: Vec<Instruction> = Vec::new();
    message.push(
        Instruction::UnpaidExecution { weight_limit: WeightLimit::Unlimited, check_origin: None },
    );
    message.push(
        Instruction::Transact {
            origin_kind: OriginKind::Xcm,
            require_weight_at_most: transact_call_max_weight(),
            call,
        },
    );
    assert(program_view(message@) =~= congestion_message(is_congested));
    message
}

/// Sends the bridge's congestion reports towards AssetHubWestend: the program it
/// sends when the bridge becomes congested, and the one it sends when the bridge
/// is no longer congested.
pub struct ToBridgeHubRococoXcmBlobHauler;

impl ToBridgeHubRococoXcmBlobHauler {
    /// The program sent when the outbound lane becomes congested.
    pub fn congested_message() -> (message: Vec<Instruction>)
        ensures
            program_view(message@) == congestion_message(true),
    {
        build_congestion_message(true)
    }

    /// The program sent when the outbound lane is no longer congested.
    pub fn uncongested_message() -> (message: Vec<Instruction>)
        ensures
            program_view(message@) == congestion_message(false),
    {
        build_congestion_message(false)
    }
}

/// The two reports are the same program but for the last byte of the encoded
/// call, and that byte is the flag: 1 for congested, 0 for not congested. So the
/// report for one flag is never the report for the other.
pub proof fn lemma_congestion_reports_differ_only_in_flag(a: bool, b: bool)
    ensures
        congestion_message(a).len() == 2,
        congestion_message(a)[0] == congestion_message(b)[0],
        congestion_message(a)[1] is Transact,
        congestion_message(a)[1]->origin_kind == congestion_message(b)[1]->origin_kind,
        congestion_message(a)[1]->require_weight_at_most
            == congestion_message(b)[1]->require_weight_at_most,
        congestion_message(a)[1]->call.len() == 35,
        forall|i: int|
            0 <= i < 34 ==> #[trigger] congestion_message(a)[1]->call[i]
                == congestion_message(b)[1]->call[i],
        congestion_message(a)[1]->call[34] == (if a {
            1u8
        } else {
            0u8
        }),
        (congestion_message(a) == congestion_message(b)) <==> (a == b),
{
    let ca = congestion_message(a)[1]->call;
    let cb = congestion_message(b)[1]->call;
    assert(ca.len() == 35);
    assert forall|i: int| 0 <= i < 34 implies #[trigger] ca[i] == cb[i] by {
        if i >= 2 {
            assert(ca[i] == default_bridge_id()[i - 2]);
            assert(cb[i] == default_bridge_id()[i - 2]);
        }
    }
    if a != b {
        assert(ca[34] != cb[34]);
        assert(congestion_message(a)[1] != congestion_message(b)[1]);
    }
}

} // verus!
