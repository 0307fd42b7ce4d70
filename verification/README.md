# bridge-hub-westend-runtime (bridge to Rococo)

The parameters of the BridgeHub Westend -> Rococo bridge, and the XCM programs
by which the bridge hub reports congestion of that bridge to AssetHubWestend.

- `src/xcm_model.rs`: the XCM values the configuration builds (locations,
  junctions, instructions, lanes), with their mathematical views.
- `src/congestion.rs`: the congestion reports and their laws.
- `src/bridge_config.rs`: header, priority, location and lane parameters, and
  the laws that tie lanes and locations together.
- `app/lib.rs`: conversion of those values into the `xcm` crate's types.
