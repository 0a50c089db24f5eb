[package]
name = "xcm_utils"
version = "0.1.0"
edition = "2021"
publish = false

[dependencies]
parity-scale-codec = "=3.7.5"
impl-serde = "=0.5.0"
sp-weights = "=37.0.0"
staging-xcm = "=25.0.0"
polkadot-parachain-primitives = "=24.0.0"
sp-runtime = "=49.0.0"
frame-support = "=49.0.1"
