[package]
name = "workspaces"
version = "0.1.0"
edition = "2021"
publish = false

[dependencies]
anyhow = "1"
async-trait = "0.1"
borsh = "1"
near-primitives = "0.23.0"
url = "2"
