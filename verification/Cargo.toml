[package]
name = "bridge-hub-westend-runtime"
version = "0.1.0"
edition = "2021"
publish = false

[dependencies]
parity-scale-codec = { version = "*", default-features = false }
bp-asset-hub-westend = { version = "*", default-features = false }
bp-asset-hub-rococo = { version = "*", default-features = false }
bp-bridge-hub-westend = { version = "*", default-features = false }
bp-bridge-hub-rococo = { version = "*", default-features = false }
bp-rococo = { version = "*", default-features = false }
bp-xcm-bridge-hub-router = { version = "*", default-features = false }
staging-xcm = { version = "*", default-features = false }
