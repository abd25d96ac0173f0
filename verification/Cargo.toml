[package]
name = "astro_gov_relay"
version = "0.1.0"
edition = "2021"
publish = false

[dependencies]
cosmwasm-std = { version = "=1.5.11", features = ["stargate", "ibc3", "cosmwasm_1_2"] }
cosmwasm-schema = "=1.5.11"
cw-storage-plus = "=1.2.0"
cw2 = "=1.1.2"
cw-utils = "=1.0.3"
cw20-ics20 = "=1.1.2"
astroport = "=5.9.0"
astroport-governance = "=4.4.0"
neutron-sdk = "=0.10.0"
serde = { version = "=1.0.229", features = ["derive"] }
schemars = "=0.8.22"
thiserror = "=1.0.69"
anyhow = "=1.0.104"
cw-multi-test = "=0.20.1"
