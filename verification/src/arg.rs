//! Turning parsed command-line arguments into a configuration.
//!
//! The command line is parsed elsewhere; [`CliMatches`] holds what the
//! parser found, as plain values.

use crate::config::{spec_default_config, Config, ConfigView, Mode};
use vstd::utf8::encode_utf8;
use vstd::prelude::*;

verus! {

/// The subcommand given on the command line, with the values this library
/// reads from it.
#[derive(Debug)]
pub enum CliMatches {
    /// `server [--port PORT] [--outer-key KEY]`.
    Server { port: Option<String>, outer_key: Option<String> },
    /// `client [DESTINATION] [--outer-key KEY]`.
    Client { destination: Option<String>, outer_key: Option<String> },
    /// `raw FILENAME`.
    Raw { filename: String },
    /// `config SUBCOMMAND`.
    Config { subcommand: String },
    /// No subcommand.
    Nothing,
}

/// Where the configuration comes from.
#[derive(Debug)]
pub enum ConfigSource {
    /// The configuration built from the arguments.
    Args(Config),
    /// A TOML configuration file to be read whole, by name.
    File(String),
}

/// What `data_encoding::BASE32_NOPAD.decode` gives for the bytes of `input`:
/// the decoded bytes, or `None` when `input` is not valid unpadded base32.
pub uninterp spec fn base32_nopad_decode(input: Seq<char>) -> Option<Seq<u8>>;

/// `data_encoding::BASE32_NOPAD.decode` on the bytes of `key`, with the
/// decoding error mapped to `None`. Its result depends on `key` alone and is
/// named [`base32_nopad_decode`].
#[verifier::external_body]
fn decode_base32_nopad(key: &str) -> (r: Option<Vec<u8>>)
    ensures
        match r {
            Some(bytes) => base32_nopad_decode(key@) == Some(bytes@),
            None => base32_nopad_decode(key@) is None,
        },
{
    ::data_encoding::BASE32_NOPAD.decode(key.as_bytes()).ok()
}

/// Whether an outer key, if one is given, is valid unpadded base32.
pub open spec fn spec_outer_key_ok(key: Option<String>) -> bool {
    key matches Some(k) ==> base32_nopad_decode(k@) is Some
}

/// Whether a byte is the UTF-8 encoding of a decimal digit.
pub open spec fn spec_is_digit(b: u8) -> bool {
    48 <= b <= 57
}

/// The number that a sequence of decimal digits spells, most significant
/// digit first.
pub open spec fn spec_decimal(digits: Seq<u8>) -> int
    decreases digits.len(),
{
    if digits.len() == 0 {
        0
    } else {
        spec_decimal(digits.drop_last()) * 10 + (digits.last() - 48)
    }
}

/// The port number a string names: one or more decimal digits spelling a
/// number that fits in 16 bits.
pub open spec fn spec_parse_port(text: Seq<u8>) -> Option<u16> {
    if text.len() > 0 && (forall|i: int| 0 <= i < text.len() ==> spec_is_digit(#[trigger] text[i]))
        && spec_decimal(text) <= 65535 {
        Some(spec_decimal(text) as u16)
    } else {
        None
    }
}

/// The port number given, if one is given and is a valid port number.
pub open spec fn spec_parsed_port(port: Option<String>) -> Option<u16> {
    match port {
        Some(p) => spec_parse_port(encode_utf8(p@)),
        None => None,
    }
}

/// Whether every outer key on the command line decodes.
pub open spec fn spec_arguments_ok(parsed: CliMatches) -> bool {
    match parsed {
        CliMatches::Server { outer_key, .. } => spec_outer_key_ok(outer_key),
        CliMatches::Client { outer_key, .. } => spec_outer_key_ok(outer_key),
        _ => true,
    }
}

/// Reads a port number: decimal digits, at most 65535.
pub fn parse_port(text: &str) -> (port: Option<u16>)
    ensures
        port == spec_parse_port(encode_utf8(text@)),
{
    let bytes = text.as_bytes();
    let n = bytes.len();
    if n == 0 {
        return None;
    }
    let mut value: u32 = 0;
    let mut i: usize = 0;
    while i < n
        invariant
            n == bytes@.len(),
            bytes@ == encode_utf8(text@),
            0 <= i <= n,
            forall|j: int| 0 <= j < i ==> spec_is_digit(#[trigger] bytes@[j]),
            value == (if spec_decimal(bytes@.take(i as int)) < 65536 {
                spec_decimal(bytes@.take(i as int))
            } else {
                65536
            }),
        decreases n - i,
    {
        let b = bytes[i];
        if !(48 <= b && b <= 57) {
            assert(!spec_is_digit(bytes@[i as int]));
            return None;
        }
        assert(bytes@.take(i + 1).drop_last() =~= bytes@.take(i as int));
        assert(bytes@.take(i + 1).last() == b);
        assert(spec_decimal(bytes@.take(i as int)) >= 0) by {
            lemma_decimal_nonnegative(bytes@.take(i as int));
        }
        let next = value * 10 + (b - 48) as u32;
        value = if next < 65536 {
            next
        } else {
            65536
        };
        i = i + 1;
    }
    assert(bytes@.take(n as int) =~= bytes@);
    if value <= 65535 {
        Some(value as u16)
    } else {
        None
    }
}

proof fn lemma_decimal_nonnegative(digits: Seq<u8>)
    requires
        forall|i: int| 0 <= i < digits.len() ==> spec_is_digit(#[trigger] digits[i]),
    ensures
        spec_decimal(digits) >= 0,
    decreases digits.len(),
{
    if digits.len() > 0 {
        lemma_decimal_nonnegative(digits.drop_last());
    }
}

/// The decoded outer key, if one is given.
pub open spec fn spec_decoded_key(key: Option<String>) -> Option<Seq<u8>> {
    match key {
        Some(k) => base32_nopad_decode(k@),
        None => None,
    }
}

/// The configuration the command line gives.
pub open spec fn spec_config_from_matches(parsed: CliMatches) -> ConfigView {
    match parsed {
        CliMatches::Server { port, outer_key } => ConfigView {
            mode: Some(Mode::Server),
            outer_key: spec_decoded_key(outer_key),
            port_number: spec_parsed_port(port),
            ..spec_default_config()
        },
        CliMatches::Client { destination, outer_key } => ConfigView {
            mode: Some(Mode::Client),
            destination: match destination {
                Some(d) => Some(d@),
                None => None,
            },
            outer_key: spec_decoded_key(outer_key),
            ..spec_default_config()
        },
        _ => spec_default_config(),
    }
}

/// What the command line gives, field by field: `server` and `client` set
/// the mode and the outer key, which is the base32 decoding of the key
/// given (none when none is given); `server` alone sets the port and
/// `client` alone the destination; no key pair is ever set.
pub proof fn lemma_config_from_matches(parsed: CliMatches)
    ensures
        match parsed {
            CliMatches::Server { port, outer_key } => {
                let c = spec_config_from_matches(parsed);
                &&& c.mode == Some(Mode::Server)
                &&& outer_key matches Some(k) ==> c.outer_key == base32_nopad_decode(k@)
                &&& outer_key is None ==> c.outer_key is None
                &&& port matches Some(p) ==> c.port_number == spec_parse_port(encode_utf8(p@))
                &&& port is None ==> c.port_number is None
                &&& c.destination is None
                &&& c.local_private_key is None && c.local_public_key is None
                &&& c.remote_public_key is None
            },
            CliMatches::Client { destination, outer_key } => {
                let c = spec_config_from_matches(parsed);
                &&& c.mode == Some(Mode::Client)
                &&& outer_key matches Some(k) ==> c.outer_key == base32_nopad_decode(k@)
                &&& outer_key is None ==> c.outer_key is None
                &&& destination matches Some(d) ==> c.destination == Some(d@)
                &&& destination is None ==> c.destination is None
                &&& c.port_number is None
                &&& c.local_private_key is None && c.local_public_key is None
                &&& c.remote_public_key is None
            },
            CliMatches::Raw { .. } => true,
            _ => spec_config_from_matches(parsed) == spec_default_config(),
        },
{
}

/// Decodes an outer key that is known to decode.
fn decode_outer_key(key: &Option<String>) -> (r: Option<Vec<u8>>)
    requires
        spec_outer_key_ok(*key),
    ensures
        match r {
            Some(bytes) => spec_decoded_key(*key) == Some(bytes@),
            None => key is None,
        },
{
    match key {
        Some(k) => decode_base32_nopad(k.as_str()),
        None => None,
    }
}

/// The configuration that parsed command-line arguments give. `server` and
/// `client` build one: the mode, the outer key decoded from unpadded base32,
/// for `server` the port, and for `client` the destination. `raw` names a
/// configuration file. Any other subcommand gives the configuration with no
/// setting made. A port that is not a valid port number leaves the port
/// unset. Every outer key given must be valid base32: see
/// [`try_args_to_config`].
pub fn args_to_config(parsed: CliMatches) -> (source: ConfigSource)
    requires
        spec_arguments_ok(parsed),
    ensures
        match parsed {
            CliMatches::Raw { filename } => source matches ConfigSource::File(f) && f@ == filename@,
            _ => source matches ConfigSource::Args(c) && c@ == spec_config_from_matches(parsed),
        },
        match parsed {
            CliMatches::Server { port, outer_key } => source matches ConfigSource::Args(c) && c@.mode
                == Some(Mode::Server) && c@.outer_key == spec_decoded_key(outer_key)
                && c@.port_number == spec_parsed_port(port) && c@.destination is None,
            CliMatches::Client { destination, outer_key } => source matches ConfigSource::Args(c)
                && c@.mode == Some(Mode::Client) && c@.outer_key == spec_decoded_key(outer_key)
                && c@.destination == (match destination {
                Some(d) => Some(d@),
                None => None::<Seq<char>>,
            }) && c@.port_number is None,
            _ => true,
        },
{
    let mut config = Config::default();
    match parsed {
        CliMatches::Server { port, outer_key } => {
            config.mode = Some(Mode::Server);
            config.outer_key = decode_outer_key(&outer_key);
            config.port_number = match &port {
                Some(p) => parse_port(p.as_str()),
                None => None,
            };
        },
        CliMatches::Client { destination, outer_key } => {
            config.mode = Some(Mode::Client);
            config.destination = destination;
            config.outer_key = decode_outer_key(&outer_key);
        },
        CliMatches::Raw { filename } => {
            return ConfigSource::File(filename);
        },
        _ => {},
    }
    ConfigSource::Args(config)
}

/// Like [`args_to_config`], but first checks every outer key; `None` when a
/// key is not valid unpadded base32.
pub fn try_args_to_config(parsed: CliMatches) -> (source: Option<ConfigSource>)
    ensures
        source is None <==> !spec_arguments_ok(parsed),
        source matches Some(s) ==> match parsed {
            CliMatches::Raw { filename } => s matches ConfigSource::File(f) && f@ == filename@,
            _ => s matches ConfigSource::Args(c) && c@ == spec_config_from_matches(parsed),
        },
        match parsed {
            CliMatches::Server { port, outer_key } => spec_outer_key_ok(outer_key) ==> (source
                matches Some(ConfigSource::Args(c)) && c@.mode == Some(Mode::Server)
                && c@.outer_key == spec_decoded_key(outer_key) && c@.port_number
                == spec_parsed_port(port) && c@.destination is None),
            CliMatches::Client { destination, outer_key } => spec_outer_key_ok(outer_key) ==> (
            source matches Some(ConfigSource::Args(c)) && c@.mode == Some(Mode::Client)
                && c@.outer_key == spec_decoded_key(outer_key) && c@.destination == (
            match destination {
                Some(d) => Some(d@),
                None => None::<Seq<char>>,
            }) && c@.port_number is None),
            _ => true,
        },
{
    let key_ok = match &parsed {
        CliMatches::Server { outer_key, .. } => outer_key_decodes(outer_key),
        CliMatches::Client { outer_key, .. } => outer_key_decodes(outer_key),
        _ => true,
    };
    if key_ok {
        Some(args_to_config(parsed))
    } else {
        None
    }
}

/// Whether an optional outer key is absent or valid unpadded base32.
fn outer_key_decodes(key: &Option<String>) -> (ok: bool)
    ensures
        ok == spec_outer_key_ok(*key),
{
    match key {
        Some(k) => decode_base32_nopad(k.as_str()).is_some(),
        None => true,
    }
}

} // verus!
