[package]
name = "oxy"
version = "0.1.0"
edition = "2021"
publish = false

[dependencies]
arrayvec = "=0.7.8"
byteorder = "=1.5.0"
data-encoding = "=2.11.1"
num = "=0.4.3"
snow = "=0.9.6"
rand_core = "=0.6.4"
clap = "=2.34.0"
serde = "=1.0.229"
serde_derive = "=1.0.229"
serde_cbor = "=0.11.2"
toml = "=0.5.11"
mio = "=0.6.23"
nix = "=0.11.1"
termion = "=1.5.6"
linefeed = "=0.6.0"
parking_lot = "=0.12.5"
rand = "=0.7.3"
transportation = "=5.0.0"
