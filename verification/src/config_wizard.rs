//! The configuration wizard: a fresh server configuration.

use crate::config::{spec_default_config, Config, ConfigView, Mode};
use crate::noise::NOISE_PATTERN;
use snow::params::NoiseParams;
use vstd::prelude::*;

verus! {

/// Length of the outer key in bytes.
pub const OUTER_KEY_SIZE: usize = 32;

/// `len` random bytes: `snow`'s default resolver gives a random number
/// generator (`CryptoResolver::resolve_rng`, always `Some` for that
/// resolver), which fills a vector of `len` zero bytes
/// (`rand_core::RngCore::fill_bytes`).
#[verifier::external_body]
fn random_bytes(len: usize) -> (bytes: Option<Vec<u8>>)
    ensures
        bytes is Some,
        bytes matches Some(b) ==> b@.len() == len,
{
    let mut rng = ::snow::resolvers::CryptoResolver::resolve_rng(
        &::snow::resolvers::DefaultResolver,
    )?;
    let mut bytes = vec![0u8; len];
    ::rand_core::RngCore::fill_bytes(&mut *rng, &mut bytes[..]);
    Some(bytes)
}

/// `rand::Rng::gen_range(low, high)` from the thread-local generator: a
/// number drawn from the half-open range. It panics on an empty range.
#[verifier::external_body]
fn random_range_u16(low: u16, high: u16) -> (draw: u16)
    requires
        low < high,
    ensures
        low <= draw < high,
{
    ::rand::Rng::gen_range(&mut ::rand::thread_rng(), low, high)
}

/// The size of a Curve25519 key in bytes.
pub const NOISE_KEY_SIZE: usize = 32;

/// The X25519 public key of the private key `private`: the Curve25519 base
/// point multiplied by the clamped private key, as snow's `Dh25519` derives
/// it.
pub uninterp spec fn x25519_public_key(private: Seq<u8>) -> Seq<u8>;

/// `snow::Builder::generate_keypair` for the protocol `name`, parsed into
/// `snow::params::NoiseParams`: a fresh private and public key, or `None`
/// when the name is not understood or the key pair cannot be made. With
/// snow's default resolver, [`NOISE_PATTERN`] parses, and its Diffie-Hellman
/// function, Curve25519, gives keys of [`NOISE_KEY_SIZE`] bytes, the public
/// key derived from the private one.
#[verifier::external_body]
fn generate_noise_keypair(name: &str) -> (keys: Option<(Vec<u8>, Vec<u8>)>)
    ensures
        name@ == NOISE_PATTERN@ ==> keys is Some,
        name@ == NOISE_PATTERN@ ==> keys.unwrap().0@.len() == NOISE_KEY_SIZE,
        name@ == NOISE_PATTERN@ ==> keys.unwrap().1@.len() == NOISE_KEY_SIZE,
        name@ == NOISE_PATTERN@ ==> keys.unwrap().1@ == x25519_public_key(keys.unwrap().0@),
{
    let params: NoiseParams = name.parse().ok()?;
    match ::snow::Builder::new(params).generate_keypair() {
        Ok(k) => Some((k.private, k.public)),
        Err(_) => None,
    }
}

/// The lowest port number drawn for a new server, before one is added.
pub const PORT_DRAW_LOW: u16 = 1024;

/// The end, excluded, of the range the port number is drawn from.
pub const PORT_DRAW_HIGH: u16 = 65535;

/// The server configuration made of the values drawn: mode server, the outer
/// key, the Noise key pair, and the port one above the drawn number.
pub open spec fn spec_server_config(
    outer_key: Seq<u8>,
    private: Seq<u8>,
    public: Seq<u8>,
    draw: u16,
) -> ConfigView {
    ConfigView {
        mode: Some(Mode::Server),
        outer_key: Some(outer_key),
        local_private_key: Some(private),
        local_public_key: Some(public),
        port_number: Some((draw + 1) as u16),
        ..spec_default_config()
    }
}

/// The server configuration made of the values drawn. The port is one
/// above the drawn number, which must therefore be below `u16::MAX`.
pub fn server_config(outer_key: Vec<u8>, private: Vec<u8>, public: Vec<u8>, draw: u16) -> (c:
    Config)
    requires
        draw < u16::MAX,
    ensures
        c@ == spec_server_config(outer_key@, private@, public@, draw),
{
    let mut config = Config::default();
    config.outer_key = Some(outer_key);
    config.local_private_key = Some(private);
    config.local_public_key = Some(public);
    config.mode = Some(Mode::Server);
    config.port_number = Some(draw + 1);
    config
}

/// A fresh server configuration: a random outer key of [`OUTER_KEY_SIZE`]
/// bytes, a fresh Noise key pair of [`NOISE_KEY_SIZE`]-byte keys, and a port
/// one above a number drawn from [`PORT_DRAW_LOW`] up to [`PORT_DRAW_HIGH`].
pub fn init_server_config() -> (config: Option<Config>)
    ensures
        config matches Some(c) && exists|outer_key: Seq<u8>, private: Seq<u8>, public: Seq<u8>, draw: u16|
            {
                &&& outer_key.len() == OUTER_KEY_SIZE
                &&& private.len() == NOISE_KEY_SIZE
                &&& public.len() == NOISE_KEY_SIZE
                &&& public == x25519_public_key(private)
                &&& PORT_DRAW_LOW <= draw < PORT_DRAW_HIGH
                &&& c@ == spec_server_config(outer_key, private, public, draw)
            },
{
    let outer_key = match random_bytes(OUTER_KEY_SIZE) {
        Some(k) => k,
        None => {
            return None;
        },
    };
    let (private, public) = match generate_noise_keypair(NOISE_PATTERN) {
        Some(k) => k,
        None => {
            return None;
        },
    };
    let draw = random_range_u16(PORT_DRAW_LOW, PORT_DRAW_HIGH);
    let ghost drawn = (outer_key@, private@, public@, draw);
    let config = server_config(outer_key, private, public, draw);
    assert(config@ == spec_server_config(drawn.0, drawn.1, drawn.2, drawn.3));
    Some(config)
}

} // verus!
