//! The parameters of the Westend -> Rococo bridge: how many headers are kept, how
//! priorities are boosted, where the bridged chains are, and which lanes carry
//! which routes.

use crate::xcm_model::{Junction, LaneId, Location, LocationView, NetworkId, SenderAndLane, SenderAndLaneView};
use vstd::prelude::*;

verus! {

/// How many Rococo relay chain headers the GRANDPA bridge pallet keeps.
pub const RELAY_CHAIN_HEADERS_TO_KEEP: u32 = 1024;

/// How many Rococo parachain heads the parachains bridge pallet keeps.
pub const PARACHAIN_HEADS_TO_KEEP: u32 = 64;

/// How many free relay chain headers may be imported per block.
pub const MAX_FREE_HEADERS_PER_BLOCK: u32 = 4;

/// The minimal interval, in blocks, between two free relay chain header imports.
pub const FREE_HEADERS_INTERVAL: u32 = 5;

/// Name of the pallet at Rococo that stores the parachain heads.
pub const ROCOCO_BRIDGE_PARACHAIN_PALLET_NAME: &'static str = "Paras";

/// Identifier of the transaction extension that refunds relayers delivering
/// messages on the AssetHubWestend -> AssetHubRococo lane.
pub const ON_BRIDGE_HUB_WESTEND_REFUND_BRIDGE_HUB_ROCOCO_MESSAGES: &'static str =
    "OnBridgeHubWestendRefundBridgeHubRococoMessages";

/// Priority boost of a transaction for every additional relay chain header it
/// imports.
pub const PRIORITY_BOOST_PER_RELAY_HEADER: u64 = 32_007_814_407_814;

/// Priority boost of a transaction for every additional parachain header it
/// imports.
pub const PRIORITY_BOOST_PER_PARACHAIN_HEADER: u64 = 1_396_340_903_540_903;

/// Priority boost of a delivery transaction for every additional message it
/// carries.
pub const PRIORITY_BOOST_PER_MESSAGE: u64 = 182_044_444_444_444;

/// The network on the other side of the bridge.
pub const ROCOCO_GLOBAL_CONSENSUS_NETWORK: NetworkId = NetworkId::Rococo;

/// The lane that carries the messages of AssetHubWestend to AssetHubRococo.
pub open spec fn asset_hub_rococo_lane_spec() -> LaneId {
    LaneId([0, 0, 0, 2])
}

/// The lane that carries the messages of AssetHubWestend to AssetHubRococo.
pub fn xcm_lane_for_asset_hub_westend_to_asset_hub_rococo() -> (lane: LaneId)
    ensures
        lane == asset_hub_rococo_lane_spec(),
{
    LaneId([0, 0, 0, 2])
}

/// The messages lane of the AssetHubWestend -> AssetHubRococo route, for which
/// delivery transactions are refunded.
pub fn asset_hub_westend_to_asset_hub_rococo_messages_lane() -> (lane: LaneId)
    ensures
        lane == asset_hub_rococo_lane_spec(),
{
    xcm_lane_for_asset_hub_westend_to_asset_hub_rococo()
}

/// Reads `bp_rococo::MAX_NESTED_PARACHAIN_HEAD_DATA_SIZE`, defined there as 128.
#[verifier::external_body]
fn rococo_max_nested_parachain_head_data_size() -> (size: u32)
    ensures
        size == 128,
{
    bp_rococo::MAX_NESTED_PARACHAIN_HEAD_DATA_SIZE
}

/// Reads `bp_asset_hub_westend::ASSET_HUB_WESTEND_PARACHAIN_ID`, defined there as 1000.
#[verifier::external_body]
fn westend_asset_hub_parachain_id() -> (id: u32)
    ensures
        id == 1000,
{
    bp_asset_hub_westend::ASSET_HUB_WESTEND_PARACHAIN_ID
}

/// Reads `bp_asset_hub_rococo::ASSET_HUB_ROCOCO_PARACHAIN_ID`, defined there as 1000.
#[verifier::external_body]
fn rococo_asset_hub_parachain_id() -> (id: u32)
    ensures
        id == 1000,
{
    bp_asset_hub_rococo::ASSET_HUB_ROCOCO_PARACHAIN_ID
}

/// Reads `bp_bridge_hub_rococo::BRIDGE_HUB_ROCOCO_PARACHAIN_ID`, defined there as 1013
/// (the `PARACHAIN_ID` of `BridgeHubRococo` is that constant).
#[verifier::external_body]
fn rococo_bridge_hub_parachain_id() -> (id: u32)
    ensures
        id == 1013,
{
    bp_bridge_hub_rococo::BRIDGE_HUB_ROCOCO_PARACHAIN_ID
}

/// The largest Rococo parachain head that the parachains bridge pallet accepts.
pub fn max_rococo_para_head_data_size() -> (size: u32)
    ensures
        size == 128,
{
    rococo_max_nested_parachain_head_data_size()
}

/// The parachain id of AssetHubWestend.
pub fn asset_hub_westend_para_id() -> (id: u32)
    ensures
        id == 1000,
{
    westend_asset_hub_parachain_id()
}

/// The parachain id of AssetHubRococo.
pub fn asset_hub_rococo_para_id() -> (id: u32)
    ensures
        id == 1000,
{
    rococo_asset_hub_parachain_id()
}

/// The Rococo network, as seen from this chain: two levels up, then its global
/// consensus.
pub open spec fn rococo_network_location_spec() -> LocationView {
    LocationView {
        parents: 2,
        interior: seq![Junction::GlobalConsensus(ROCOCO_GLOBAL_CONSENSUS_NETWORK)],
    }
}

/// BridgeHubRococo, as seen from this chain.
pub open spec fn bridge_hub_rococo_location_spec() -> LocationView {
    LocationView {
        parents: 2,
        interior: seq![
            Junction::GlobalConsensus(ROCOCO_GLOBAL_CONSENSUS_NETWORK),
            Junction::Parachain(1013),
        ],
    }
}

/// AssetHubWestend and the lane of its messages to AssetHubRococo.
pub open spec fn asset_hub_westend_route_spec() -> SenderAndLaneView {
    SenderAndLaneView {
        location: LocationView { parents: 1, interior: seq![Junction::Parachain(1000)] },
        lane: asset_hub_rococo_lane_spec(),
    }
}

/// The lanes on which messages may be sent to BridgeHubRococo.
pub open spec fn active_outbound_lanes_spec() -> Seq<LaneId> {
    seq![asset_hub_rococo_lane_spec()]
}

/// One entry of the active lanes: a sender with its lane, and the network and
/// the location inside it that its messages go to.
pub type ActiveLane = (SenderAndLane, (NetworkId, Vec<Junction>));

/// The mathematical value of an [`ActiveLane`].
pub open spec fn active_lane_view(lane: ActiveLane) -> (SenderAndLaneView, (NetworkId, Seq<Junction>)) {
    (lane.0@, (lane.1.0, lane.1.1@))
}

/// The active lanes: AssetHubWestend to AssetHubRococo.
pub open spec fn active_lanes_spec() -> Seq<(SenderAndLaneView, (NetworkId, Seq<Junction>))> {
    seq![
        (
            asset_hub_westend_route_spec(),
            (ROCOCO_GLOBAL_CONSENSUS_NETWORK, seq![Junction::Parachain(1000)]),
        ),
    ]
}

/// The location of the Rococo network.
pub fn rococo_global_consensus_network_location() -> (location: Location)
    ensures
        location@ == rococo_network_location_spec(),
{
    let mut interior: Vec<Junction> = Vec::new();
    interior.push(Junction::GlobalConsensus(ROCOCO_GLOBAL_CONSENSUS_NETWORK));
    let location = Location { parents: 2, interior };
    assert(location@.interior =~= rococo_network_location_spec().interior);
    location
}

/// The location of BridgeHubRococo.
pub fn bridge_hub_rococo_location() -> (location: Location)
    ensures
        location@ == bridge_hub_rococo_location_spec(),
{
    let mut interior: Vec<Junction> = Vec::new();
    interior.push(Junction::GlobalConsensus(ROCOCO_GLOBAL_CONSENSUS_NETWORK));
    interior.push(Junction::Parachain(rococo_bridge_hub_parachain_id()));
    let location = Location { parents: 2, interior };
    assert(location@.interior =~= bridge_hub_rococo_location_spec().interior);
    location
}

/// The location of the bridge messages pallet towards Rococo within this chain,
/// given the pallet's index in the runtime; the index is cut to its low byte.
pub fn bridge_westend_to_rococo_messages_pallet_instance(pallet_index: usize) -> (interior:
    Vec<Junction>)
    ensures
        interior@ == seq![Junction::PalletInstance((pallet_index % 256) as u8)],
{
    let index: u8 = (pallet_index % 256) as u8;
    let mut interior: Vec<Junction> = Vec::new();
    interior.push(Junction::PalletInstance(index));
    assert(interior@ =~= seq![Junction::PalletInstance((pallet_index % 256) as u8)]);
    interior
}

/// AssetHubWestend (one level up, then its parachain) and the lane of its
/// messages to AssetHubRococo.
pub fn from_asset_hub_westend_to_asset_hub_rococo_route() -> (route: SenderAndLane)
    ensures
        route@ == asset_hub_westend_route_spec(),
{
    let mut interior: Vec<Junction> = Vec::new();
    interior.push(Junction::Parachain(asset_hub_westend_para_id()));
    let route = SenderAndLane {
        location: Location { parents: 1, interior },
        lane: xcm_lane_for_asset_hub_westend_to_asset_hub_rococo(),
    };
    assert(route@.location.interior =~= asset_hub_westend_route_spec().location.interior);
    route
}

/// The lanes on which messages may be sent to BridgeHubRococo.
pub fn active_outbound_lanes_to_bridge_hub_rococo() -> (lanes: Vec<LaneId>)
    ensures
        lanes@ == active_outbound_lanes_spec(),
{
    let mut lanes: Vec<LaneId> = Vec::new();
    lanes.push(xcm_lane_for_asset_hub_westend_to_asset_hub_rococo());
    assert(lanes@ =~= active_outbound_lanes_spec());
    lanes
}

/// The active lanes: each sender with its lane, and where in which network its
/// messages go.
pub fn active_lanes() -> (lanes: Vec<ActiveLane>)
    ensures
        lanes@.map_values(|l: ActiveLane| active_lane_view(l)) == active_lanes_spec(),
{
    let route = from_asset_hub_westend_to_asset_hub_rococo_route();
    let mut destination: Vec<Junction> = Vec::new();
    destination.push(Junction::Parachain(asset_hub_rococo_para_id()));
    let mut lanes: Vec<ActiveLane> = Vec::new();
    lanes.push((route, (ROCOCO_GLOBAL_CONSENSUS_NETWORK, destination)));
    assert(destination@ =~= seq![Junction::Parachain(1000)]);
    assert(lanes@.map_values(|l: ActiveLane| active_lane_view(l)) =~= active_lanes_spec());
    lanes
}

/// Every active lane is a lane on which messages may be sent, its messages go to
/// the bridged network, and the AssetHubWestend route uses the lane for which
/// delivery is refunded.
pub proof fn lemma_active_lanes_are_outbound_lanes()
    ensures
        forall|i: int|
            0 <= i < active_lanes_spec().len() ==> active_outbound_lanes_spec().contains(
                #[trigger] active_lanes_spec()[i].0.lane,
            ),
        forall|i: int|
            0 <= i < active_lanes_spec().len() ==> (#[trigger] active_lanes_spec()[i]).1.0
                == ROCOCO_GLOBAL_CONSENSUS_NETWORK,
        active_lanes_spec().contains(
            (
                asset_hub_westend_route_spec(),
                (ROCOCO_GLOBAL_CONSENSUS_NETWORK, seq![Junction::Parachain(1000)]),
            ),
        ),
        asset_hub_westend_route_spec().lane == asset_hub_rococo_lane_spec(),
{
    assert(active_outbound_lanes_spec()[0] == asset_hub_rococo_lane_spec());
    assert(active_lanes_spec()[0] == (
        asset_hub_westend_route_spec(),
        (ROCOCO_GLOBAL_CONSENSUS_NETWORK, seq![Junction::Parachain(1000)]),
    ));
}

/// BridgeHubRococo lies within the bridged network: its location starts with the
/// location of the Rococo network, whose single junction names the bridged
/// network.
pub proof fn lemma_bridge_hub_rococo_within_bridged_network()
    ensures
        bridge_hub_rococo_location_spec().parents == rococo_network_location_spec().parents,
        rococo_network_location_spec().interior.is_prefix_of(
            bridge_hub_rococo_location_spec().interior,
        ),
        rococo_network_location_spec().interior
            == seq![Junction::GlobalConsensus(ROCOCO_GLOBAL_CONSENSUS_NETWORK)],
{
    assert(rococo_network_location_spec().interior =~= bridge_hub_rococo_location_spec().interior.take(1));
}

} // verus!
