use bridge_hub_westend_runtime::bridge_config::{
    active_lanes, active_outbound_lanes_to_bridge_hub_rococo, asset_hub_rococo_para_id,
    asset_hub_westend_para_id, asset_hub_westend_to_asset_hub_rococo_messages_lane,
    bridge_hub_rococo_location, bridge_westend_to_rococo_messages_pallet_instance,
    from_asset_hub_westend_to_asset_hub_rococo_route, max_rococo_para_head_data_size,
    rococo_global_consensus_network_location, xcm_lane_for_asset_hub_westend_to_asset_hub_rococo,
    FREE_HEADERS_INTERVAL, ON_BRIDGE_HUB_WESTEND_REFUND_BRIDGE_HUB_ROCOCO_MESSAGES, MAX_FREE_HEADERS_PER_BLOCK, PARACHAIN_HEADS_TO_KEEP,
    PRIORITY_BOOST_PER_MESSAGE, PRIORITY_BOOST_PER_PARACHAIN_HEADER,
    PRIORITY_BOOST_PER_RELAY_HEADER, RELAY_CHAIN_HEADERS_TO_KEEP,
    ROCOCO_BRIDGE_PARACHAIN_PALLET_NAME, ROCOCO_GLOBAL_CONSENSUS_NETWORK,
};
use bridge_hub_westend_runtime::xcm_model::{Junction, LaneId, Location, NetworkId};

#[test]
fn ensure_bridge_integrity() {
    assert_eq!(
        bridge_westend_to_rococo_messages_pallet_instance(
            bp_bridge_hub_westend::WITH_BRIDGE_WESTEND_TO_ROCOCO_MESSAGES_PALLET_INDEX as usize
        ),
        vec![Junction::PalletInstance(
            bp_bridge_hub_westend::WITH_BRIDGE_WESTEND_TO_ROCOCO_MESSAGES_PALLET_INDEX
        )]
    );
}

#[test]
fn pallet_instance_keeps_the_low_byte_of_the_index() {
    assert_eq!(bridge_westend_to_rococo_messages_pallet_instance(44), vec![Junction::PalletInstance(44)]);
    assert_eq!(bridge_westend_to_rococo_messages_pallet_instance(300), vec![Junction::PalletInstance(44)]);
    assert_eq!(bridge_westend_to_rococo_messages_pallet_instance(255), vec![Junction::PalletInstance(255)]);
    assert_eq!(bridge_westend_to_rococo_messages_pallet_instance(256), vec![Junction::PalletInstance(0)]);
}

#[test]
fn header_and_priority_parameters() {
    assert_eq!(RELAY_CHAIN_HEADERS_TO_KEEP, 1024);
    assert_eq!(PARACHAIN_HEADS_TO_KEEP, 64);
    assert_eq!(MAX_FREE_HEADERS_PER_BLOCK, 4);
    assert_eq!(FREE_HEADERS_INTERVAL, 5);
    assert_eq!(ROCOCO_BRIDGE_PARACHAIN_PALLET_NAME, "Paras");
    assert_eq!(PRIORITY_BOOST_PER_RELAY_HEADER, 32_007_814_407_814);
    assert_eq!(PRIORITY_BOOST_PER_PARACHAIN_HEADER, 1_396_340_903_540_903);
    assert_eq!(PRIORITY_BOOST_PER_MESSAGE, 182_044_444_444_444);
    assert_eq!(
        ON_BRIDGE_HUB_WESTEND_REFUND_BRIDGE_HUB_ROCOCO_MESSAGES,
        "OnBridgeHubWestendRefundBridgeHubRococoMessages"
    );
}

#[test]
fn outside_constants_are_read() {
    assert_eq!(max_rococo_para_head_data_size(), bp_rococo::MAX_NESTED_PARACHAIN_HEAD_DATA_SIZE);
    assert_eq!(max_rococo_para_head_data_size(), 128);
    assert_eq!(asset_hub_westend_para_id(), 1000);
    assert_eq!(asset_hub_rococo_para_id(), 1000);
    assert_eq!(asset_hub_westend_para_id(), bp_asset_hub_westend::ASSET_HUB_WESTEND_PARACHAIN_ID);
    assert_eq!(asset_hub_rococo_para_id(), bp_asset_hub_rococo::ASSET_HUB_ROCOCO_PARACHAIN_ID);
}

#[test]
fn rococo_locations() {
    assert_eq!(ROCOCO_GLOBAL_CONSENSUS_NETWORK, NetworkId::Rococo);
    assert_eq!(
        rococo_global_consensus_network_location(),
        Location { parents: 2, interior: vec![Junction::GlobalConsensus(NetworkId::Rococo)] }
    );
    assert_eq!(
        bridge_hub_rococo_location(),
        Location {
            parents: 2,
            interior: vec![
                Junction::GlobalConsensus(NetworkId::Rococo),
                Junction::Parachain(bp_bridge_hub_rococo::BRIDGE_HUB_ROCOCO_PARACHAIN_ID),
            ],
        }
    );
    let network = rococo_global_consensus_network_location();
    let bridge_hub = bridge_hub_rococo_location();
    assert_eq!(network.parents, bridge_hub.parents);
    assert!(bridge_hub.interior.starts_with(&network.interior));
}

#[test]
fn lanes_and_routes() {
    assert_eq!(xcm_lane_for_asset_hub_westend_to_asset_hub_rococo(), LaneId([0, 0, 0, 2]));
    assert_eq!(asset_hub_westend_to_asset_hub_rococo_messages_lane(), LaneId([0, 0, 0, 2]));
    assert_eq!(active_outbound_lanes_to_bridge_hub_rococo(), vec![LaneId([0, 0, 0, 2])]);
    let route = from_asset_hub_westend_to_asset_hub_rococo_route();
    assert_eq!(route.location, Location { parents: 1, interior: vec![Junction::Parachain(1000)] });
    assert_eq!(route.lane, LaneId([0, 0, 0, 2]));
    let lanes = active_lanes();
    assert_eq!(lanes.len(), 1);
    assert_eq!(lanes[0].0, route);
    assert_eq!(lanes[0].1 .0, NetworkId::Rococo);
    assert_eq!(lanes[0].1 .1, vec![Junction::Parachain(1000)]);
    for lane in &lanes {
        assert!(active_outbound_lanes_to_bridge_hub_rococo().contains(&lane.0.lane));
    }
}
