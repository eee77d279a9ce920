[package]
name = "nft_minter"
version = "0.1.0"
edition = "2021"
publish = false

[dependencies]
borsh = "=0.10.4"
mpl-token-metadata = { version = "=1.13.2", features = ["no-entrypoint"] }
solana-program = "=1.16.25"
# Not called from this crate. The metadata crate brings in spl-token-2022,
# which asks for any spl-memo 4.0.x; the releases after 4.0.0 are built on
# solana-program 2 and do not compile beside solana-program 1.16. This line
# holds spl-memo at the release that does.
spl-memo = { version = "=4.0.0", features = ["no-entrypoint"] }
spl-token = { version = "=4.0.0", features = ["no-entrypoint"] }
